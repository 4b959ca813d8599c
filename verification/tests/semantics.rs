use charta_ir::ir::schema::{
    Action, CoilDecl, Expr, GuardExpr, Module, RungDecl, SignalDecl, IR,
};
use charta_ir::ir::validation::{accept_decoded, validate_semantics};
use charta_ir::ValidationError;

fn signal(name: &str) -> SignalDecl {
    SignalDecl { name: name.to_string(), parameters: None, type_: None }
}

fn coil(name: &str) -> CoilDecl {
    CoilDecl { name: name.to_string(), parameters: None, latching: None, critical: None }
}

fn contact(name: &str) -> GuardExpr {
    GuardExpr::Contact {
        name: name.to_string(),
        contact_type: "NO".to_string(),
        arguments: None,
    }
}

fn energise(coil: &str) -> Action {
    Action { action_type: "energise".to_string(), coil: coil.to_string(), arguments: None }
}

fn rung(name: &str, coils: &[&str]) -> RungDecl {
    RungDecl {
        name: name.to_string(),
        guard: contact("s"),
        actions: coils.iter().map(|c| energise(c)).collect(),
    }
}

fn document(
    name: &str,
    signals: Option<Vec<SignalDecl>>,
    coils: Option<Vec<CoilDecl>>,
    rungs: Option<Vec<RungDecl>>,
) -> IR {
    IR {
        version: "0.1.0".to_string(),
        module: Module {
            name: name.to_string(),
            context: None,
            intent: None,
            constraints: None,
            signals,
            coils,
            rungs,
            blocks: None,
            networks: None,
        },
    }
}

fn rejection(ir: &IR) -> String {
    match validate_semantics(ir) {
        Err(ValidationError::InvalidStructure(message)) => message,
        other => panic!("expected a structure error, got {other:?}"),
    }
}

#[test]
fn well_formed_document_passes() {
    let ir = document(
        "m",
        Some(vec![signal("s")]),
        Some(vec![coil("c")]),
        Some(vec![rung("r", &["c"])]),
    );
    assert!(validate_semantics(&ir).is_ok());
}

#[test]
fn module_without_declarations_passes() {
    assert!(validate_semantics(&document("m", None, None, None)).is_ok());
    let empty = document("m", Some(vec![]), Some(vec![]), Some(vec![]));
    assert!(validate_semantics(&empty).is_ok());
}

#[test]
fn empty_module_name_is_rejected() {
    let ir = document("", Some(vec![signal("s")]), Some(vec![coil("c")]), None);
    assert_eq!(rejection(&ir), "Module name cannot be empty");
}

#[test]
fn empty_module_name_is_reported_before_anything_else() {
    let ir = document(
        "",
        Some(vec![signal("x"), signal("x")]),
        Some(vec![coil("c"), coil("c")]),
        Some(vec![rung("r", &["missing"])]),
    );
    assert_eq!(rejection(&ir), "Module name cannot be empty");
}

#[test]
fn two_signals_named_x_are_rejected() {
    let ir = document("m", Some(vec![signal("x"), signal("x")]), None, None);
    assert_eq!(rejection(&ir), "Duplicate signal name: x");
}

#[test]
fn distinct_names_pass() {
    let ir = document(
        "m",
        Some(vec![signal("x"), signal("y"), signal("z")]),
        Some(vec![coil("a"), coil("b")]),
        None,
    );
    assert!(validate_semantics(&ir).is_ok());
}

#[test]
fn first_repeated_signal_in_declaration_order_is_reported() {
    let ir = document(
        "m",
        Some(vec![signal("a"), signal("b"), signal("c"), signal("b"), signal("a")]),
        None,
        None,
    );
    assert_eq!(rejection(&ir), "Duplicate signal name: b");
}

#[test]
fn duplicate_coil_is_rejected() {
    let ir = document(
        "m",
        Some(vec![signal("s")]),
        Some(vec![coil("c"), coil("d"), coil("c")]),
        None,
    );
    assert_eq!(rejection(&ir), "Duplicate coil name: c");
}

#[test]
fn duplicate_signal_is_reported_before_duplicate_coil() {
    let ir = document(
        "m",
        Some(vec![signal("s"), signal("s")]),
        Some(vec![coil("c"), coil("c")]),
        None,
    );
    assert_eq!(rejection(&ir), "Duplicate signal name: s");
}

#[test]
fn signal_and_coil_may_share_a_name() {
    let ir = document(
        "m",
        Some(vec![signal("shared")]),
        Some(vec![coil("shared")]),
        Some(vec![rung("r", &["shared"])]),
    );
    assert!(validate_semantics(&ir).is_ok());
}

#[test]
fn action_on_undeclared_coil_is_rejected() {
    let ir = document("m", None, Some(vec![coil("c")]), Some(vec![rung("r", &["y"])]));
    assert_eq!(rejection(&ir), "Rung 'r' references undefined coil: y");
}

#[test]
fn declaring_the_coil_makes_the_document_pass() {
    let ir = document("m", None, Some(vec![coil("c"), coil("y")]), Some(vec![rung("r", &["y"])]));
    assert!(validate_semantics(&ir).is_ok());
}

#[test]
fn rung_without_any_declared_coil_is_rejected() {
    let ir = document("m", None, None, Some(vec![rung("r", &["y"])]));
    assert_eq!(rejection(&ir), "Rung 'r' references undefined coil: y");
}

#[test]
fn first_dangling_reference_in_rung_then_action_order_is_reported() {
    let ir = document(
        "m",
        None,
        Some(vec![coil("c")]),
        Some(vec![
            rung("first", &["c", "c"]),
            rung("second", &["c", "p", "q"]),
            rung("third", &["z"]),
        ]),
    );
    assert_eq!(rejection(&ir), "Rung 'second' references undefined coil: p");
}

#[test]
fn duplicate_coil_is_reported_before_dangling_reference() {
    let ir = document(
        "m",
        None,
        Some(vec![coil("c"), coil("c")]),
        Some(vec![rung("r", &["missing"])]),
    );
    assert_eq!(rejection(&ir), "Duplicate coil name: c");
}

#[test]
fn rung_without_actions_passes() {
    let ir = document("m", None, None, Some(vec![rung("idle", &[])]));
    assert!(validate_semantics(&ir).is_ok());
}

#[test]
fn guards_are_not_checked_against_signals() {
    let guard = GuardExpr::And {
        left: Box::new(contact("undeclared")),
        right: Box::new(GuardExpr::Not {
            expr: Box::new(GuardExpr::Or {
                left: Box::new(contact("a")),
                right: Box::new(GuardExpr::Contact {
                    name: "b".to_string(),
                    contact_type: "NC".to_string(),
                    arguments: Some(vec![
                        Expr::Number(2.5f64.to_bits()),
                        Expr::Boolean(true),
                        Expr::String("text".to_string()),
                        Expr::Identifier("id".to_string()),
                    ]),
                }),
            }),
        }),
    };
    let ir = document(
        "m",
        None,
        Some(vec![coil("c")]),
        Some(vec![RungDecl { name: "r".to_string(), guard, actions: vec![energise("c")] }]),
    );
    assert!(validate_semantics(&ir).is_ok());
}

#[test]
fn validation_leaves_the_document_as_it_was() {
    let ir = document(
        "m",
        Some(vec![signal("s")]),
        Some(vec![coil("c")]),
        Some(vec![rung("r", &["c"])]),
    );
    let before = format!("{ir:?}");
    assert!(validate_semantics(&ir).is_ok());
    assert!(validate_semantics(&ir).is_ok());
    assert_eq!(format!("{ir:?}"), before);
}

#[test]
fn clone_copies_the_whole_guard_tree() {
    let arguments = vec![
        Expr::String("text".to_string()),
        Expr::Number(0.25f64.to_bits()),
        Expr::Boolean(false),
        Expr::Identifier("id".to_string()),
    ];
    let guard = GuardExpr::Or {
        left: Box::new(GuardExpr::And {
            left: Box::new(contact("a")),
            right: Box::new(GuardExpr::Contact {
                name: "p".to_string(),
                contact_type: "NC".to_string(),
                arguments: Some(arguments),
            }),
        }),
        right: Box::new(GuardExpr::Not { expr: Box::new(contact("b")) }),
    };
    assert_eq!(format!("{:?}", guard.clone()), format!("{guard:?}"));
}

#[test]
fn clone_copies_each_kind_of_argument() {
    for expr in [
        Expr::String("text".to_string()),
        Expr::Number(1.5f64.to_bits()),
        Expr::Boolean(true),
        Expr::Identifier("id".to_string()),
    ] {
        assert_eq!(format!("{:?}", expr.clone()), format!("{expr:?}"));
    }
}

#[test]
fn decoded_document_is_handed_back_unchanged() {
    let ir = document("m", Some(vec![signal("s")]), Some(vec![coil("c")]), None);
    let before = format!("{ir:?}");
    let accepted = accept_decoded(Ok(ir)).expect("a valid document");
    assert_eq!(format!("{accepted:?}"), before);
    let again = accept_decoded(Ok(accepted)).expect("still valid");
    assert_eq!(format!("{again:?}"), before);
}

#[test]
fn decoding_failure_becomes_a_structure_error() {
    match accept_decoded(Err("missing field `module`".to_string())) {
        Err(ValidationError::InvalidStructure(message)) => {
            assert_eq!(message, "Failed to deserialize IR: missing field `module`")
        }
        other => panic!("expected a structure error, got {other:?}"),
    }
}

#[test]
fn decoded_document_that_breaks_a_rule_is_rejected() {
    let ir = document("", None, None, None);
    match accept_decoded(Ok(ir)) {
        Err(ValidationError::InvalidStructure(message)) => {
            assert_eq!(message, "Module name cannot be empty")
        }
        other => panic!("expected a structure error, got {other:?}"),
    }
}
