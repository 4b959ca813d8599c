//! Semantic validation and the validation pipeline.
//!
//! A document that conforms to the schema can still be wrong in ways no schema
//! expresses: an empty module name, two signals or two coils of one name, a
//! rung that acts on a coil nobody declared. `validate_semantics` looks for
//! these, in that order, and reports the first it finds.

use crate::error::{ValidationError, ValidationErrorView};
use crate::ir::schema::{
    load_schema, names_of, schema_from_text, IRView, Module, Named, RungDecl, RungDeclView, IR,
};
use crate::ir::structural::{
    json_parse, parse_json, rendered_list, structural_verdict, SchemaViolation,
};
use vstd::hash_set::StringHashSet;
use vstd::prelude::*;
use vstd::string::*;

verus! {

/// The least index below `bound` at which `holds` is true, if there is one.
pub open spec fn least_index(bound: int, holds: spec_fn(int) -> bool) -> Option<int>
    decreases bound,
{
    if bound <= 0 {
        None
    } else {
        match least_index(bound - 1, holds) {
            Some(i) => Some(i),
            None => if holds(bound - 1) {
                Some(bound - 1)
            } else {
                None
            },
        }
    }
}

/// `least_index` finds an index where the predicate holds and below which it
/// never does; it finds none only where the predicate holds nowhere below the
/// bound.
pub proof fn lemma_least_index(bound: int, holds: spec_fn(int) -> bool)
    ensures
        match least_index(bound, holds) {
            Some(i) => 0 <= i < bound && holds(i) && forall|k: int|
                0 <= k < i ==> !#[trigger] holds(k),
            None => forall|k: int| 0 <= k < bound ==> !#[trigger] holds(k),
        },
    decreases bound,
{
    if bound > 0 {
        lemma_least_index(bound - 1, holds);
    }
}

/// Whether the name at `i` also stands at an earlier index.
pub open spec fn repeats_earlier(names: Seq<Seq<char>>, i: int) -> bool {
    exists|j: int| 0 <= j < i && names[j] == names[i]
}

/// Index of the first name that repeats an earlier one.
pub open spec fn first_repeat(names: Seq<Seq<char>>) -> Option<int> {
    least_index(names.len() as int, |i: int| repeats_earlier(names, i))
}

/// Index of the first target that is not among the declared names.
pub open spec fn first_undeclared(targets: Seq<Seq<char>>, declared: Set<Seq<char>>) -> Option<
    int,
> {
    least_index(targets.len() as int, |j: int| !declared.contains(targets[j]))
}

/// Index of the first rung with an action on an undeclared coil.
pub open spec fn first_dangling_rung(rungs: Seq<RungDeclView>, declared: Set<Seq<char>>) -> Option<
    int,
> {
    least_index(
        rungs.len() as int,
        |i: int| first_undeclared(rungs[i].targets(), declared) is Some,
    )
}

/// The message of the first rule that the document breaks, if it breaks one.
/// The rules, in the order they are checked: the module has a name; no two
/// signals share a name; no two coils share a name; every action of every
/// rung names a declared coil.
pub open spec fn semantic_violation(ir: IRView) -> Option<Seq<char>> {
    let module = ir.module;
    let signals = module.signal_names();
    let coils = module.coil_names();
    let rungs = module.rung_list();
    if module.name.len() == 0 {
        Some("Module name cannot be empty"@)
    } else {
        match first_repeat(signals) {
            Some(i) => Some("Duplicate signal name: "@ + signals[i]),
            None => match first_repeat(coils) {
                Some(i) => Some("Duplicate coil name: "@ + coils[i]),
                None => match first_dangling_rung(rungs, coils.to_set()) {
                    Some(i) => {
                        let targets = rungs[i].targets();
                        let j = first_undeclared(targets, coils.to_set()).unwrap();
                        Some(
                            "Rung '"@ + rungs[i].name + "' references undefined coil: "@
                                + targets[j],
                        )
                    },
                    None => None,
                },
            },
        }
    }
}

/// Whether the document keeps every rule: the module has a name, no two
/// signals and no two coils share a name, and every action of every rung
/// names a declared coil.
pub open spec fn semantically_valid(ir: IRView) -> bool {
    let coils = ir.module.coil_names();
    let rungs = ir.module.rung_list();
    &&& ir.module.name.len() > 0
    &&& ir.module.signal_names().no_duplicates()
    &&& coils.no_duplicates()
    &&& forall|i: int, j: int|
        0 <= i < rungs.len() && 0 <= j < rungs[i].targets().len() ==> coils.contains(
            #[trigger] rungs[i].targets()[j],
        )
}

/// No name repeats an earlier one exactly when the names are pairwise
/// distinct. Where one does, the first to do so has a twin before it, and the
/// names before it are pairwise distinct.
pub proof fn lemma_first_repeat(names: Seq<Seq<char>>)
    ensures
        first_repeat(names) is None <==> names.no_duplicates(),
        first_repeat(names) matches Some(i) ==> 0 <= i < names.len() && repeats_earlier(names, i)
            && names.take(i).no_duplicates(),
{
    let repeats = |i: int| repeats_earlier(names, i);
    lemma_least_index(names.len() as int, repeats);
    match first_repeat(names) {
        Some(i) => {
            assert(repeats(i));
            let j = choose|j: int| 0 <= j < i && names[j] == names[i];
            assert(names[j] == names[i] && j != i);
            assert forall|a: int, b: int|
                0 <= a < names.take(i).len() && 0 <= b < names.take(i).len() && a
                    != b implies names.take(i)[a] != names.take(i)[b] by {
                if a < b {
                    assert(!repeats(b));
                } else {
                    assert(!repeats(a));
                }
            }
        },
        None => {
            assert forall|a: int, b: int|
                0 <= a < names.len() && 0 <= b < names.len() && a != b implies names[a]
                != names[b] by {
                if a < b {
                    assert(!repeats(b));
                } else {
                    assert(!repeats(a));
                }
            }
        },
    }
}

/// No target is undeclared exactly when every target is declared. Where one
/// is not, the first such is found.
pub proof fn lemma_first_undeclared(targets: Seq<Seq<char>>, declared: Set<Seq<char>>)
    ensures
        first_undeclared(targets, declared) is None <==> forall|j: int|
            0 <= j < targets.len() ==> declared.contains(#[trigger] targets[j]),
        first_undeclared(targets, declared) matches Some(j) ==> 0 <= j < targets.len()
            && !declared.contains(targets[j]),
{
    let unknown = |j: int| !declared.contains(targets[j]);
    lemma_least_index(targets.len() as int, unknown);
    match first_undeclared(targets, declared) {
        Some(j) => {
            assert(unknown(j));
        },
        None => {
            assert forall|j: int| 0 <= j < targets.len() implies declared.contains(
                #[trigger] targets[j],
            ) by {
                assert(!unknown(j));
            }
        },
    }
}

/// A document breaks no rule exactly when it keeps them all.
pub proof fn lemma_accepted_iff_valid(ir: IRView)
    ensures
        semantic_violation(ir) is None <==> semantically_valid(ir),
{
    let signals = ir.module.signal_names();
    let coils = ir.module.coil_names();
    let rungs = ir.module.rung_list();
    let declared = coils.to_set();
    let dangling = |i: int| first_undeclared(rungs[i].targets(), declared) is Some;
    lemma_first_repeat(signals);
    lemma_first_repeat(coils);
    lemma_least_index(rungs.len() as int, dangling);
    if first_dangling_rung(rungs, declared) is None {
        assert forall|i: int, j: int|
            0 <= i < rungs.len() && 0 <= j < rungs[i].targets().len() implies coils.contains(
            #[trigger] rungs[i].targets()[j],
        ) by {
            assert(!dangling(i));
            lemma_first_undeclared(rungs[i].targets(), declared);
        }
    } else {
        let i = first_dangling_rung(rungs, declared).unwrap();
        assert(dangling(i));
        lemma_first_undeclared(rungs[i].targets(), declared);
        let j = first_undeclared(rungs[i].targets(), declared).unwrap();
        assert(!coils.contains(rungs[i].targets()[j]));
    }
}

/// A module in which two signals share a name is rejected. Where the module
/// has a name, the error names the first signal, in declaration order, whose
/// name an earlier signal has.
pub proof fn lemma_duplicate_signal_reported(ir: IRView, first: int, second: int)
    requires
        0 <= first < second < ir.module.signal_names().len(),
        ir.module.signal_names()[first] == ir.module.signal_names()[second],
    ensures
        semantic_violation(ir) is Some,
        ir.module.name.len() > 0 ==> exists|i: int|
            0 <= i <= second && repeats_earlier(ir.module.signal_names(), i)
                && ir.module.signal_names().take(i).no_duplicates() && semantic_violation(ir)
                == Some("Duplicate signal name: "@ + #[trigger] ir.module.signal_names()[i]),
{
    let signals = ir.module.signal_names();
    let repeats = |i: int| repeats_earlier(signals, i);
    lemma_first_repeat(signals);
    lemma_least_index(signals.len() as int, repeats);
    assert(repeats(second));
    if ir.module.name.len() > 0 {
        let i = first_repeat(signals).unwrap();
        assert(0 <= i <= second && repeats_earlier(signals, i) && signals.take(i).no_duplicates()
            && semantic_violation(ir) == Some("Duplicate signal name: "@ + signals[i]));
    }
}

/// A module in which two coils share a name is rejected. Where the module has
/// a name and its signals are distinct, the error names the first coil, in
/// declaration order, whose name an earlier coil has.
pub proof fn lemma_duplicate_coil_reported(ir: IRView, first: int, second: int)
    requires
        0 <= first < second < ir.module.coil_names().len(),
        ir.module.coil_names()[first] == ir.module.coil_names()[second],
    ensures
        semantic_violation(ir) is Some,
        ir.module.name.len() > 0 && ir.module.signal_names().no_duplicates() ==> exists|i: int|
            0 <= i <= second && repeats_earlier(ir.module.coil_names(), i)
                && ir.module.coil_names().take(i).no_duplicates() && semantic_violation(ir)
                == Some("Duplicate coil name: "@ + #[trigger] ir.module.coil_names()[i]),
{
    let coils = ir.module.coil_names();
    lemma_first_repeat(ir.module.signal_names());
    let repeats = |i: int| repeats_earlier(coils, i);
    lemma_first_repeat(coils);
    lemma_least_index(coils.len() as int, repeats);
    assert(repeats(second));
    if ir.module.name.len() > 0 && ir.module.signal_names().no_duplicates() {
        let i = first_repeat(coils).unwrap();
        assert(0 <= i <= second && repeats_earlier(coils, i) && coils.take(i).no_duplicates()
            && semantic_violation(ir) == Some("Duplicate coil name: "@ + coils[i]));
    }
}

/// A module in which an action names a coil that is not declared is
/// rejected. Where the module has a name and its signals and its coils are
/// distinct, the error names the first rung that has such an action, and the
/// coil of the first such action in it.
pub proof fn lemma_dangling_reference_reported(ir: IRView, rung: int, action: int)
    requires
        0 <= rung < ir.module.rung_list().len(),
        0 <= action < ir.module.rung_list()[rung].targets().len(),
        !ir.module.coil_names().contains(ir.module.rung_list()[rung].targets()[action]),
    ensures
        semantic_violation(ir) is Some,
        ir.module.name.len() > 0 && ir.module.signal_names().no_duplicates()
            && ir.module.coil_names().no_duplicates() ==> exists|i: int, j: int|
            0 <= i <= rung && 0 <= j < ir.module.rung_list()[i].targets().len()
                && !ir.module.coil_names().contains(ir.module.rung_list()[i].targets()[j])
                && semantic_violation(ir) == Some(
                "Rung '"@ + ir.module.rung_list()[i].name + "' references undefined coil: "@
                    + #[trigger] ir.module.rung_list()[i].targets()[j],
            ),
{
    let coils = ir.module.coil_names();
    let declared = coils.to_set();
    let rungs = ir.module.rung_list();
    let dangling = |i: int| first_undeclared(rungs[i].targets(), declared) is Some;
    lemma_first_repeat(ir.module.signal_names());
    lemma_first_repeat(coils);
    lemma_first_undeclared(rungs[rung].targets(), declared);
    assert(dangling(rung));
    lemma_least_index(rungs.len() as int, dangling);
    let i = first_dangling_rung(rungs, declared).unwrap();
    assert(dangling(i));
    lemma_first_undeclared(rungs[i].targets(), declared);
    let j = first_undeclared(rungs[i].targets(), declared).unwrap();
    if ir.module.name.len() > 0 && ir.module.signal_names().no_duplicates()
        && coils.no_duplicates() {
        assert(semantic_violation(ir) == Some(
            "Rung '"@ + rungs[i].name + "' references undefined coil: "@ + rungs[i].targets()[j],
        ));
    }
}

/// Declaring the coils that are referred to mends a document that was
/// rejected for nothing else: a named module with distinct signals and
/// distinct coils is accepted as soon as every action names a declared coil.
pub proof fn lemma_declared_references_accepted(ir: IRView)
    requires
        ir.module.name.len() > 0,
        ir.module.signal_names().no_duplicates(),
        ir.module.coil_names().no_duplicates(),
        forall|i: int, j: int|
            0 <= i < ir.module.rung_list().len() && 0 <= j < ir.module.rung_list()[i].targets().len()
                ==> ir.module.coil_names().contains(
                #[trigger] ir.module.rung_list()[i].targets()[j],
            ),
    ensures
        semantic_violation(ir) is None,
{
    lemma_accepted_iff_valid(ir);
}

/// Finds the first declaration whose name an earlier one already has.
fn first_repeated<T: Named>(items: &Vec<T>) -> (found: Option<usize>)
    ensures
        match found {
            Some(i) => i < items.len() && first_repeat(names_of(items@)) == Some(i as int),
            None => first_repeat(names_of(items@)) is None,
        },
{
    let ghost names = names_of(items@);
    let ghost repeats = |i: int| repeats_earlier(names, i);
    let mut seen = StringHashSet::new();
    let mut i: usize = 0;
    while i < items.len()
        invariant
            i <= items.len(),
            names == names_of(items@),
            repeats == |i: int| repeats_earlier(names, i),
            forall|k: int| 0 <= k < i ==> !#[trigger] repeats(k),
            forall|n: Seq<char>|
                seen@.contains(n) <==> exists|k: int| 0 <= k < i && #[trigger] names[k] == n,
        decreases items.len() - i,
    {
        let fresh = seen.insert(items[i].declared_name().clone());
        if !fresh {
            proof {
                assert(repeats(i as int));
                lemma_least_index(names.len() as int, repeats);
            }
            return Some(i);
        }
        proof {
            assert(!repeats(i as int));
            assert forall|n: Seq<char>|
                seen@.contains(n) <==> exists|k: int|
                    0 <= k < i + 1 && #[trigger] names[k] == n by {
                if n == names[i as int] {
                } else if seen@.contains(n) {
                    let k = choose|k: int| 0 <= k < i && #[trigger] names[k] == n;
                    assert(0 <= k < i + 1 && names[k] == n);
                }
            }
        }
        i += 1;
    }
    proof {
        lemma_least_index(names.len() as int, repeats);
    }
    None
}

/// Collects the names of the declared coils into a set.
fn declared_coils(module: &Module) -> (declared: StringHashSet)
    ensures
        declared@ == module@.coil_names().to_set(),
{
    let mut declared = StringHashSet::new();
    let ghost names = module@.coil_names();
    match &module.coils {
        Some(coils) => {
            let mut i: usize = 0;
            while i < coils.len()
                invariant
                    i <= coils.len(),
                    names == names_of(coils@),
                    declared@ == names.take(i as int).to_set(),
                decreases coils.len() - i,
            {
                declared.insert(coils[i].name.clone());
                proof {
                    let before = names.take(i as int);
                    let after = names.take(i + 1);
                    assert(after == before.push(names[i as int]));
                    assert forall|n: Seq<char>|
                        after.contains(n) <==> before.contains(n) || n == names[i as int] by {
                        if before.contains(n) {
                            let k = choose|k: int| 0 <= k < before.len() && before[k] == n;
                            assert(after[k] == n);
                        }
                        if n == names[i as int] {
                            assert(after[i as int] == n);
                        }
                    }
                    assert(declared@ =~= after.to_set());
                }
                i += 1;
            }
            proof {
                assert(names.take(coils.len() as int) == names);
            }
        },
        None => {
            assert(declared@ =~= names.to_set());
        },
    }
    declared
}

/// Finds the first action of a rung whose coil is not in the set.
fn first_unknown_target(rung: &RungDecl, declared: &StringHashSet) -> (found: Option<usize>)
    ensures
        match found {
            Some(j) => j < rung.actions.len() && first_undeclared(rung@.targets(), declared@)
                == Some(j as int),
            None => first_undeclared(rung@.targets(), declared@) is None,
        },
{
    let ghost targets = rung@.targets();
    let ghost unknown = |j: int| !declared@.contains(targets[j]);
    let mut j: usize = 0;
    while j < rung.actions.len()
        invariant
            j <= rung.actions.len(),
            targets == rung@.targets(),
            unknown == |j: int| !declared@.contains(targets[j]),
            forall|k: int| 0 <= k < j ==> !#[trigger] unknown(k),
        decreases rung.actions.len() - j,
    {
        if !declared.contains(rung.actions[j].coil.as_str()) {
            proof {
                assert(unknown(j as int));
                lemma_least_index(targets.len() as int, unknown);
            }
            return Some(j);
        }
        proof {
            assert(!unknown(j as int));
        }
        j += 1;
    }
    proof {
        lemma_least_index(targets.len() as int, unknown);
    }
    None
}

/// Finds the first rung, and in it the first action, whose coil is not
/// declared.
fn first_dangling_reference(module: &Module) -> (found: Option<(usize, usize)>)
    ensures
        ({
            let rungs = module@.rung_list();
            let declared = module@.coil_names().to_set();
            match found {
                Some((i, j)) => i < rungs.len() && j < rungs[i as int].actions.len()
                    && first_dangling_rung(rungs, declared) == Some(i as int)
                    && first_undeclared(rungs[i as int].targets(), declared) == Some(j as int),
                None => first_dangling_rung(rungs, declared) is None,
            }
        }),
{
    let ghost all = module@.rung_list();
    let ghost known = module@.coil_names().to_set();
    let ghost dangling = |i: int| first_undeclared(all[i].targets(), known) is Some;
    match &module.rungs {
        Some(rungs) => {
            let declared = declared_coils(module);
            let mut i: usize = 0;
            while i < rungs.len()
                invariant
                    i <= rungs.len(),
                    all == rungs.deep_view(),
                    all == module@.rung_list(),
                    known == module@.coil_names().to_set(),
                    known == declared@,
                    dangling == |i: int| first_undeclared(all[i].targets(), known) is Some,
                    forall|k: int| 0 <= k < i ==> !#[trigger] dangling(k),
                decreases rungs.len() - i,
            {
                match first_unknown_target(&rungs[i], &declared) {
                    Some(j) => {
                        proof {
                            assert(dangling(i as int));
                            lemma_least_index(all.len() as int, dangling);
                        }
                        return Some((i, j));
                    },
                    None => {
                        proof {
                            assert(!dangling(i as int));
                        }
                    },
                }
                i += 1;
            }
        },
        None => {},
    }
    proof {
        lemma_least_index(all.len() as int, dangling);
    }
    None
}

/// Checks the rules that no schema expresses, in this order: the module has a
/// name; no two signals share a name; no two coils share a name; every action
/// of every rung names a declared coil. The first rule that is broken ends
/// the check, and the error names what broke it: the repeated name, or the
/// rung and the coil it refers to. The document is only read.
pub fn validate_semantics(ir: &IR) -> (verdict: Result<(), ValidationError>)
    ensures
        match semantic_violation(ir@) {
            None => verdict is Ok,
            Some(message) => verdict matches Err(e) && e@
                == ValidationErrorView::InvalidStructure(message),
        },
        verdict is Ok <==> semantically_valid(ir@),
        ir@.module.name.len() == 0 ==> (verdict matches Err(e) && e@
            == ValidationErrorView::InvalidStructure("Module name cannot be empty"@)),
{
    proof {
        lemma_accepted_iff_valid(ir@);
    }
    let module = &ir.module;
    if module.name.as_str().is_empty() {
        return Err(ValidationError::InvalidStructure("Module name cannot be empty".to_owned()));
    }
    match &module.signals {
        Some(signals) => {
            proof {
                assert(names_of(signals@) =~= module@.signal_names());
            }
            match first_repeated(signals) {
                Some(i) => {
                    let mut message = "Duplicate signal name: ".to_owned();
                    message.append(signals[i].name.as_str());
                    return Err(ValidationError::InvalidStructure(message));
                },
                None => {},
            }
        },
        None => {},
    }
    match &module.coils {
        Some(coils) => {
            proof {
                assert(names_of(coils@) =~= module@.coil_names());
            }
            match first_repeated(coils) {
                Some(i) => {
                    let mut message = "Duplicate coil name: ".to_owned();
                    message.append(coils[i].name.as_str());
                    return Err(ValidationError::InvalidStructure(message));
                },
                None => {},
            }
        },
        None => {},
    }
    match first_dangling_reference(module) {
        Some((i, j)) => {
            match &module.rungs {
                Some(rungs) => {
                    let mut message = "Rung '".to_owned();
                    message.append(rungs[i].name.as_str());
                    message.append("' references undefined coil: ");
                    message.append(rungs[i].actions[j].coil.as_str());
                    Err(ValidationError::InvalidStructure(message))
                },
                None => Ok(()),
            }
        },
        None => Ok(()),
    }
}

/// How the outcome of a validation follows from what decoding gave. A
/// document that could not be decoded is rejected with the decoder's
/// complaint. A decoded document is handed back as it is when it breaks no
/// rule, and rejected with the message of the first rule it breaks otherwise.
pub open spec fn accepts(
    decoded: Result<IR, String>,
    outcome: Result<IR, ValidationError>,
) -> bool {
    match decoded {
        Err(detail) => outcome matches Err(e) && e@ == ValidationErrorView::InvalidStructure(
            "Failed to deserialize IR: "@ + detail@,
        ),
        Ok(ir) => match semantic_violation(ir@) {
            None => outcome matches Ok(kept) && kept == ir,
            Some(message) => outcome matches Err(e) && e@
                == ValidationErrorView::InvalidStructure(message),
        },
    }
}

/// Validating again what was accepted changes nothing: a document with the
/// view of an accepted one, handed in as the result of decoding, is accepted
/// and handed back as it is.
pub proof fn lemma_accepted_again(decoded: Result<IR, String>, ir: IR, again: IR)
    requires
        accepts(decoded, Ok(ir)),
        again@ == ir@,
    ensures
        accepts(Ok(again), Ok(again)),
        semantically_valid(again@),
{
    lemma_accepted_iff_valid(ir@);
}

/// The last two stages of a validation, given what decoding gave: a decoding
/// failure becomes an error, and a decoded document is checked against the
/// rules that no schema expresses.
pub fn accept_decoded(decoded: Result<IR, String>) -> (outcome: Result<IR, ValidationError>)
    ensures
        accepts(decoded, outcome),
        outcome matches Ok(ir) ==> semantically_valid(ir@),
{
    match decoded {
        Ok(ir) => {
            match validate_semantics(&ir) {
                Ok(()) => Ok(ir),
                Err(e) => Err(e),
            }
        },
        Err(detail) => {
            let mut message = "Failed to deserialize IR: ".to_owned();
            message.append(detail.as_str());
            Err(ValidationError::InvalidStructure(message))
        },
    }
}

/// How the outcome of a validation against a compiled schema follows from
/// the text, from what `check` finds and from what `decode` gives. A text
/// that is not JSON gives the parser's error. Otherwise `check` was asked
/// about the schema and the parsed document: where it found anything, the
/// outcome is a schema error that lists all of it; where it found nothing,
/// `decode` was asked for the parsed document, and the outcome is what
/// `accepts` allows for what it gave.
pub open spec fn validated<
    C: FnOnce(&jsonschema::JSONSchema, &serde_json::Value) -> Vec<SchemaViolation>,
    D: FnOnce(serde_json::Value) -> Result<IR, String>,
>(
    ir_json: Seq<char>,
    schema: jsonschema::JSONSchema,
    check: C,
    decode: D,
    outcome: Result<IR, ValidationError>,
) -> bool {
    match json_parse(ir_json) {
        Err(error) => outcome matches Err(e) && e@ == ValidationErrorView::JsonParse(error),
        Ok(document) => exists|found: Vec<SchemaViolation>|
            call_ensures(check, (&schema, &document), found) && if found@.len() > 0 {
                outcome matches Err(e) && e@ == ValidationErrorView::SchemaValidation(
                    rendered_list(found.deep_view()),
                )
            } else {
                exists|decoded: Result<IR, String>|
                    call_ensures(decode, (document,), decoded) && accepts(decoded, outcome)
            },
    }
}

/// Validating a second text after a first was accepted gives the same
/// document again, provided the second text is JSON, the schema finds nothing
/// in it, and decoding it gives a document with the view of the one accepted.
/// This is what a round trip comes to: the second text being the accepted
/// document written out, for a schema that asks for nothing the data model
/// does not hold.
pub proof fn lemma_round_trip<
    C: FnOnce(&jsonschema::JSONSchema, &serde_json::Value) -> Vec<SchemaViolation>,
    D: FnOnce(serde_json::Value) -> Result<IR, String>,
>(
    first: Seq<char>,
    second: Seq<char>,
    rewritten: serde_json::Value,
    schema: jsonschema::JSONSchema,
    check: C,
    decode: D,
    ir: IR,
    outcome: Result<IR, ValidationError>,
)
    requires
        validated(first, schema, check, decode, Ok(ir)),
        json_parse(second) == Ok::<_, serde_json::Error>(rewritten),
        forall|found: Vec<SchemaViolation>|
            call_ensures(check, (&schema, &rewritten), found) ==> found@.len() == 0,
        forall|decoded: Result<IR, String>|
            call_ensures(decode, (rewritten,), decoded) ==> (decoded matches Ok(again) && again@
                == ir@),
        validated(second, schema, check, decode, outcome),
    ensures
        outcome matches Ok(again) && again@ == ir@,
{
    lemma_accepted_iff_valid(ir@);
}

/// Validates the text of a document against a compiled schema. The stages run
/// in this order, and the first that fails ends the validation with its
/// error: the text is parsed as JSON; `check` holds the parsed document
/// against the schema and returns what it finds; `decode` turns the document
/// into the data model; the decoded document is checked against the rules
/// that no schema expresses. On success the decoded document is returned as
/// `decode` gave it.
///
/// `check` and `decode` are the caller's. With `jsonschema`, `check` collects
/// the errors of `JSONSchema::validate`, each as its instance path and its
/// display text.
pub fn validate_against<
    C: FnOnce(&jsonschema::JSONSchema, &serde_json::Value) -> Vec<SchemaViolation>,
    D: FnOnce(serde_json::Value) -> Result<IR, String>,
>(ir_json: &str, schema: &jsonschema::JSONSchema, check: C, decode: D) -> (outcome: Result<
    IR,
    ValidationError,
>)
    requires
        forall|document: serde_json::Value| call_requires(check, (schema, &document)),
        forall|document: serde_json::Value| call_requires(decode, (document,)),
    ensures
        validated(ir_json@, *schema, check, decode, outcome),
        outcome matches Ok(ir) ==> semantically_valid(ir@),
        outcome matches Err(e) ==> !(e@ is SchemaLoad),
{
    let document = match parse_json(ir_json) {
        Ok(document) => document,
        Err(e) => {
            return Err(ValidationError::JsonParse(e));
        },
    };
    let found = check(schema, &document);
    match structural_verdict(&found) {
        Ok(()) => {},
        Err(e) => {
            return Err(e);
        },
    }
    let decoded = decode(document);
    accept_decoded(decoded)
}

/// Validates the text of a document against the text of a schema: loads the
/// schema, then validates the document against it as `validate_against` does.
/// A schema that cannot be loaded ends the validation with a load error,
/// whatever the document is.
pub fn validate_ir<
    C: FnOnce(&jsonschema::JSONSchema, &serde_json::Value) -> Vec<SchemaViolation>,
    D: FnOnce(serde_json::Value) -> Result<IR, String>,
>(ir_json: &str, schema_content: &str, check: C, decode: D) -> (outcome: Result<
    IR,
    ValidationError,
>)
    requires
        forall|schema: jsonschema::JSONSchema, document: serde_json::Value|
            call_requires(check, (&schema, &document)),
        forall|document: serde_json::Value| call_requires(decode, (document,)),
    ensures
        match schema_from_text(schema_content@) {
            Err(refusal) => outcome matches Err(e) && e@ == refusal,
            Ok(schema) => validated(ir_json@, schema, check, decode, outcome),
        },
        outcome matches Ok(ir) ==> semantically_valid(ir@),
        outcome matches Err(e) && e@ is SchemaLoad ==> schema_from_text(schema_content@) is Err,
{
    match load_schema(schema_content) {
        Ok(schema) => validate_against(ir_json, &schema, check, decode),
        Err(e) => Err(e),
    }
}

} // verus!
