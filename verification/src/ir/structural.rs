//! Structural validation: JSON parsing, schema compilation, and the report of
//! what a schema finds in a document.
//!
//! Parsing and compiling are done by outside crates, `serde_json` and
//! `jsonschema`. Their values are carried through as opaque types. Nothing
//! stated of the functions that make those calls is proved; each says what it
//! relies on.
//!
//! Checking a document against a compiled schema is left to the caller, who
//! hands the findings in as `SchemaViolation`s: with `jsonschema` that check
//! does not return for a schema whose references lead back to themselves
//! without going deeper into the document, and nothing here can tell such a
//! schema from another.

use crate::error::{ValidationError, ValidationErrorView};
use vstd::prelude::*;
use vstd::string::*;

verus! {

/// `serde_json::Value`, a parsed JSON document. It is carried from the parser
/// to the schema check and to the decoder, and never looked into.
#[verifier::external_type_specification]
#[verifier::external_body]
pub struct ExValue(serde_json::Value);

/// `serde_json::Error`, what the parser reports when a text is not JSON.
#[verifier::external_type_specification]
#[verifier::external_body]
pub struct ExJsonError(serde_json::Error);

/// `jsonschema::JSONSchema`, a schema compiled into a tree of validators.
#[verifier::external_type_specification]
#[verifier::external_body]
pub struct ExCompiledSchema(jsonschema::JSONSchema);

/// One place where a document departs from a schema.
#[derive(Debug, Clone)]
pub struct SchemaViolation {
    /// JSON pointer to the offending part of the document; empty for the root.
    pub instance_path: String,
    /// What is wrong there.
    pub message: String,
}

/// What `serde_json` makes of a text: the document it reads, or the error it
/// reports where the text is not one JSON value.
pub uninterp spec fn json_parse(text: Seq<char>) -> Result<serde_json::Value, serde_json::Error>;

/// The display text of a parse error.
pub uninterp spec fn json_error_display(error: serde_json::Error) -> Seq<char>;

/// What `jsonschema` makes of a schema document: the compiled schema, or the
/// display text of the error it reports where it refuses the document.
pub uninterp spec fn compiled_schema(schema_json: serde_json::Value) -> Result<
    jsonschema::JSONSchema,
    Seq<char>,
>;

/// Calls `serde_json::from_str` for a `serde_json::Value`. The parser reads
/// nothing but the text, so what it returns, document or error, is a function
/// of the text: `json_parse` names it.
#[verifier::external_body]
pub(crate) fn parse_json(text: &str) -> (parsed: Result<serde_json::Value, serde_json::Error>)
    ensures
        parsed == json_parse(text@),
{
    serde_json::from_str::<serde_json::Value>(text)
}

/// Calls `jsonschema::JSONSchema::compile`, with the error it may return
/// turned into its display text. Compiling reads nothing but the schema
/// document, so what it returns is a function of that document:
/// `compiled_schema` names it.
#[verifier::external_body]
pub(crate) fn compile_schema(schema_json: &serde_json::Value) -> (compiled: Result<
    jsonschema::JSONSchema,
    String,
>)
    ensures
        match compiled {
            Ok(schema) => compiled_schema(*schema_json) == Ok::<_, Seq<char>>(schema),
            Err(detail) => compiled_schema(*schema_json) == Err::<jsonschema::JSONSchema, _>(
                detail@,
            ),
        },
{
    jsonschema::JSONSchema::compile(schema_json).map_err(|e| e.to_string())
}

/// Calls `to_string` on a `serde_json::Error`: its display text, which
/// `json_error_display` names.
#[verifier::external_body]
pub(crate) fn json_error_text(error: &serde_json::Error) -> (text: String)
    ensures
        text@ == json_error_display(*error),
{
    error.to_string()
}

/// A violation as a mathematical value.
pub struct SchemaViolationView {
    pub instance_path: Seq<char>,
    pub message: Seq<char>,
}

impl View for SchemaViolation {
    type V = SchemaViolationView;

    open spec fn view(&self) -> SchemaViolationView {
        SchemaViolationView { instance_path: self.instance_path@, message: self.message@ }
    }
}

impl DeepView for SchemaViolation {
    type V = SchemaViolationView;

    open spec fn deep_view(&self) -> SchemaViolationView {
        self@
    }
}

impl SchemaViolationView {
    /// The violation in one line: where, a colon, what.
    pub open spec fn rendered(self) -> Seq<char> {
        self.instance_path + ": "@ + self.message
    }
}

/// The violations in one line, in order, with "; " between two of them.
pub open spec fn rendered_list(violations: Seq<SchemaViolationView>) -> Seq<char>
    decreases violations.len(),
{
    if violations.len() == 0 {
        Seq::empty()
    } else if violations.len() == 1 {
        violations[0].rendered()
    } else {
        rendered_list(violations.drop_last()) + "; "@ + violations.last().rendered()
    }
}

/// Writes the violations out in one line.
pub fn render_violations(violations: &Vec<SchemaViolation>) -> (text: String)
    ensures
        text@ == rendered_list(violations.deep_view()),
{
    let ghost all = violations.deep_view();
    let mut text = String::new();
    let mut i: usize = 0;
    while i < violations.len()
        invariant
            i <= violations.len(),
            all == violations.deep_view(),
            text@ == rendered_list(all.take(i as int)),
        decreases violations.len() - i,
    {
        proof {
            assert(all.take(i + 1).drop_last() == all.take(i as int));
            assert(all.take(i + 1).last() == violations@[i as int]@);
        }
        if i > 0 {
            text.append("; ");
        }
        text.append(violations[i].instance_path.as_str());
        text.append(": ");
        text.append(violations[i].message.as_str());
        i += 1;
    }
    proof {
        assert(all.take(violations.len() as int) == all);
    }
    text
}

/// The outcome of the structural check, given what the schema found: the
/// document passes when nothing was found, and is rejected with every
/// violation listed otherwise.
pub fn structural_verdict(violations: &Vec<SchemaViolation>) -> (verdict: Result<
    (),
    ValidationError,
>)
    ensures
        violations@.len() == 0 ==> verdict is Ok,
        violations@.len() > 0 ==> (verdict matches Err(e) && e@
            == ValidationErrorView::SchemaValidation(rendered_list(violations.deep_view()))),
{
    if violations.len() == 0 {
        Ok(())
    } else {
        Err(ValidationError::SchemaValidation(render_violations(violations)))
    }
}

} // verus!
