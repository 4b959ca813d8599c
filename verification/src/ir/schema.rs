//! The typed data model of a control-logic document.
//!
//! A document is a version string and one module. A module declares signals
//! and coils, and holds rungs: a guard over signals and the actions to take on
//! coils when the guard is satisfied. Blocks and networks describe wiring in
//! block-diagram style. Every optional collection tells "absent" (`None`)
//! from "present and empty".
//!
//! Real numbers are held as binary64 bit patterns (see `binary64`).
//!
//! Each type has a view, the same shape over mathematical values: a `String`
//! becomes a `Seq<char>` and a `Vec` a `Seq`. Contracts speak of views.

use crate::error::{ValidationError, ValidationErrorView};
use crate::ir::structural::{
    compile_schema, compiled_schema, json_error_display, json_error_text, json_parse, parse_json,
};
use vstd::prelude::*;
use vstd::string::*;

verus! {

/// A whole document: the format version and the module it describes.
#[derive(Debug, Clone)]
pub struct IR {
    pub version: String,
    pub module: Module,
}

/// The view of an `IR`.
pub struct IRView {
    pub version: Seq<char>,
    pub module: ModuleView,
}

impl View for IR {
    type V = IRView;

    open spec fn view(&self) -> IRView {
        IRView { version: self.version.deep_view(), module: self.module.deep_view() }
    }
}

impl DeepView for IR {
    type V = IRView;

    open spec fn deep_view(&self) -> IRView {
        self@
    }
}

/// One module of control logic.
#[derive(Debug, Clone)]
pub struct Module {
    pub name: String,
    pub context: Option<String>,
    pub intent: Option<Intent>,
    pub constraints: Option<Constraints>,
    pub signals: Option<Vec<SignalDecl>>,
    pub coils: Option<Vec<CoilDecl>>,
    pub rungs: Option<Vec<RungDecl>>,
    pub blocks: Option<Vec<BlockDecl>>,
    pub networks: Option<Vec<NetworkDecl>>,
}

/// The view of a `Module`.
pub struct ModuleView {
    pub name: Seq<char>,
    pub context: Option<Seq<char>>,
    pub intent: Option<IntentView>,
    pub constraints: Option<ConstraintsView>,
    pub signals: Option<Seq<SignalDeclView>>,
    pub coils: Option<Seq<CoilDeclView>>,
    pub rungs: Option<Seq<RungDeclView>>,
    pub blocks: Option<Seq<BlockDeclView>>,
    pub networks: Option<Seq<NetworkDeclView>>,
}

impl View for Module {
    type V = ModuleView;

    open spec fn view(&self) -> ModuleView {
        ModuleView {
            name: self.name.deep_view(),
            context: self.context.deep_view(),
            intent: self.intent.deep_view(),
            constraints: self.constraints.deep_view(),
            signals: self.signals.deep_view(),
            coils: self.coils.deep_view(),
            rungs: self.rungs.deep_view(),
            blocks: self.blocks.deep_view(),
            networks: self.networks.deep_view(),
        }
    }
}

impl DeepView for Module {
    type V = ModuleView;

    open spec fn deep_view(&self) -> ModuleView {
        self@
    }
}

/// What the module is meant to achieve.
#[derive(Debug, Clone)]
pub struct Intent {
    pub goal: Option<String>,
}

/// The view of an `Intent`.
pub struct IntentView {
    pub goal: Option<Seq<char>>,
}

impl View for Intent {
    type V = IntentView;

    open spec fn view(&self) -> IntentView {
        IntentView { goal: self.goal.deep_view() }
    }
}

impl DeepView for Intent {
    type V = IntentView;

    open spec fn deep_view(&self) -> IntentView {
        self@
    }
}

/// Limits the module has to respect.
#[derive(Debug, Clone)]
pub struct Constraints {
    pub data_privacy: Option<DataPrivacy>,
    pub quality: Option<Quality>,
    pub cost: Option<Cost>,
}

/// The view of a `Constraints`.
pub struct ConstraintsView {
    pub data_privacy: Option<DataPrivacyView>,
    pub quality: Option<QualityView>,
    pub cost: Option<CostView>,
}

impl View for Constraints {
    type V = ConstraintsView;

    open spec fn view(&self) -> ConstraintsView {
        ConstraintsView {
            data_privacy: self.data_privacy.deep_view(),
            quality: self.quality.deep_view(),
            cost: self.cost.deep_view(),
        }
    }
}

impl DeepView for Constraints {
    type V = ConstraintsView;

    open spec fn deep_view(&self) -> ConstraintsView {
        self@
    }
}

/// Jurisdiction and handling of personal data.
#[derive(Debug, Clone)]
pub struct DataPrivacy {
    pub jurisdiction: Option<String>,
    pub pii_handling: Option<String>,
}

/// The view of a `DataPrivacy`.
pub struct DataPrivacyView {
    pub jurisdiction: Option<Seq<char>>,
    pub pii_handling: Option<Seq<char>>,
}

impl View for DataPrivacy {
    type V = DataPrivacyView;

    open spec fn view(&self) -> DataPrivacyView {
        DataPrivacyView {
            jurisdiction: self.jurisdiction.deep_view(),
            pii_handling: self.pii_handling.deep_view(),
        }
    }
}

impl DeepView for DataPrivacy {
    type V = DataPrivacyView;

    open spec fn deep_view(&self) -> DataPrivacyView {
        self@
    }
}

/// Quality thresholds, each a binary64 bit pattern.
#[derive(Debug, Clone)]
pub struct Quality {
    pub min_precision: Option<u64>,
    pub min_recall: Option<u64>,
}

/// The view of a `Quality`.
pub struct QualityView {
    pub min_precision: Option<u64>,
    pub min_recall: Option<u64>,
}

impl View for Quality {
    type V = QualityView;

    open spec fn view(&self) -> QualityView {
        QualityView {
            min_precision: self.min_precision.deep_view(),
            min_recall: self.min_recall.deep_view(),
        }
    }
}

impl DeepView for Quality {
    type V = QualityView;

    open spec fn deep_view(&self) -> QualityView {
        self@
    }
}

/// Cost ceiling.
#[derive(Debug, Clone)]
pub struct Cost {
    pub max_cost_per_submission: Option<String>,
}

/// The view of a `Cost`.
pub struct CostView {
    pub max_cost_per_submission: Option<Seq<char>>,
}

impl View for Cost {
    type V = CostView;

    open spec fn view(&self) -> CostView {
        CostView { max_cost_per_submission: self.max_cost_per_submission.deep_view() }
    }
}

impl DeepView for Cost {
    type V = CostView;

    open spec fn deep_view(&self) -> CostView {
        self@
    }
}

/// A declared input signal.
#[derive(Debug, Clone)]
pub struct SignalDecl {
    pub name: String,
    pub parameters: Option<Vec<String>>,
    pub type_: Option<String>,
}

/// The view of a `SignalDecl`.
pub struct SignalDeclView {
    pub name: Seq<char>,
    pub parameters: Option<Seq<Seq<char>>>,
    pub type_: Option<Seq<char>>,
}

impl View for SignalDecl {
    type V = SignalDeclView;

    open spec fn view(&self) -> SignalDeclView {
        SignalDeclView {
            name: self.name.deep_view(),
            parameters: self.parameters.deep_view(),
            type_: self.type_.deep_view(),
        }
    }
}

impl DeepView for SignalDecl {
    type V = SignalDeclView;

    open spec fn deep_view(&self) -> SignalDeclView {
        self@
    }
}

/// A declared output coil.
#[derive(Debug, Clone)]
pub struct CoilDecl {
    pub name: String,
    pub parameters: Option<Vec<String>>,
    pub latching: Option<bool>,
    pub critical: Option<bool>,
}

/// The view of a `CoilDecl`.
pub struct CoilDeclView {
    pub name: Seq<char>,
    pub parameters: Option<Seq<Seq<char>>>,
    pub latching: Option<bool>,
    pub critical: Option<bool>,
}

impl View for CoilDecl {
    type V = CoilDeclView;

    open spec fn view(&self) -> CoilDeclView {
        CoilDeclView {
            name: self.name.deep_view(),
            parameters: self.parameters.deep_view(),
            latching: self.latching.deep_view(),
            critical: self.critical.deep_view(),
        }
    }
}

impl DeepView for CoilDecl {
    type V = CoilDeclView;

    open spec fn deep_view(&self) -> CoilDeclView {
        self@
    }
}

/// A guarded list of actions.
#[derive(Debug, Clone)]
pub struct RungDecl {
    pub name: String,
    pub guard: GuardExpr,
    pub actions: Vec<Action>,
}

/// The view of a `RungDecl`.
pub struct RungDeclView {
    pub name: Seq<char>,
    pub guard: GuardExprView,
    pub actions: Seq<ActionView>,
}

impl View for RungDecl {
    type V = RungDeclView;

    open spec fn view(&self) -> RungDeclView {
        RungDeclView {
            name: self.name.deep_view(),
            guard: self.guard.deep_view(),
            actions: self.actions.deep_view(),
        }
    }
}

impl DeepView for RungDecl {
    type V = RungDeclView;

    open spec fn deep_view(&self) -> RungDeclView {
        self@
    }
}

/// The condition of a rung: a tree whose leaves are contacts on signals. Each
/// node owns its sub-guards.
#[derive(Debug)]
pub enum GuardExpr {
    /// A reference to a signal; `contact_type` is "NO" (normally open) or
    /// "NC" (normally closed).
    Contact { name: String, contact_type: String, arguments: Option<Vec<Expr>> },
    And { left: Box<GuardExpr>, right: Box<GuardExpr> },
    Or { left: Box<GuardExpr>, right: Box<GuardExpr> },
    Not { expr: Box<GuardExpr> },
}

/// The view of a `GuardExpr`: the same tree over texts.
pub enum GuardExprView {
    Contact { name: Seq<char>, contact_type: Seq<char>, arguments: Option<Seq<ExprView>> },
    And { left: Box<GuardExprView>, right: Box<GuardExprView> },
    Or { left: Box<GuardExprView>, right: Box<GuardExprView> },
    Not { expr: Box<GuardExprView> },
}

impl GuardExpr {
    /// The view, node by node.
    pub open spec fn model(&self) -> GuardExprView
        decreases self,
    {
        match self {
            GuardExpr::Contact { name, contact_type, arguments } => GuardExprView::Contact {
                name: name@,
                contact_type: contact_type@,
                arguments: arguments.deep_view(),
            },
            GuardExpr::And { left, right } => GuardExprView::And {
                left: Box::new(left.model()),
                right: Box::new(right.model()),
            },
            GuardExpr::Or { left, right } => GuardExprView::Or {
                left: Box::new(left.model()),
                right: Box::new(right.model()),
            },
            GuardExpr::Not { expr } => GuardExprView::Not { expr: Box::new(expr.model()) },
        }
    }
}

impl View for GuardExpr {
    type V = GuardExprView;

    open spec fn view(&self) -> GuardExprView {
        self.model()
    }
}

impl DeepView for GuardExpr {
    type V = GuardExprView;

    open spec fn deep_view(&self) -> GuardExprView {
        self@
    }
}

/// An argument of a contact or an action. `Number` holds a binary64 bit
/// pattern.
#[derive(Debug)]
pub enum Expr {
    String(String),
    Number(u64),
    Boolean(bool),
    Identifier(String),
}

/// The view of an `Expr`.
pub enum ExprView {
    String(Seq<char>),
    Number(u64),
    Boolean(bool),
    Identifier(Seq<char>),
}

impl View for Expr {
    type V = ExprView;

    open spec fn view(&self) -> ExprView {
        match self {
            Expr::String(text) => ExprView::String(text@),
            Expr::Number(bits) => ExprView::Number(*bits),
            Expr::Boolean(truth) => ExprView::Boolean(*truth),
            Expr::Identifier(name) => ExprView::Identifier(name@),
        }
    }
}

impl DeepView for Expr {
    type V = ExprView;

    open spec fn deep_view(&self) -> ExprView {
        self@
    }
}

/// What a rung does to a coil; `action_type` is "energise" or "de_energise".
#[derive(Debug, Clone)]
pub struct Action {
    pub action_type: String,
    pub coil: String,
    pub arguments: Option<Vec<Expr>>,
}

/// The view of an `Action`.
pub struct ActionView {
    pub action_type: Seq<char>,
    pub coil: Seq<char>,
    pub arguments: Option<Seq<ExprView>>,
}

impl View for Action {
    type V = ActionView;

    open spec fn view(&self) -> ActionView {
        ActionView {
            action_type: self.action_type.deep_view(),
            coil: self.coil.deep_view(),
            arguments: self.arguments.deep_view(),
        }
    }
}

impl DeepView for Action {
    type V = ActionView;

    open spec fn deep_view(&self) -> ActionView {
        self@
    }
}

/// A block with typed input and output ports.
#[derive(Debug, Clone)]
pub struct BlockDecl {
    pub name: String,
    pub inputs: Option<Vec<PortDecl>>,
    pub outputs: Option<Vec<PortDecl>>,
    pub effect: Option<String>,
}

/// The view of a `BlockDecl`.
pub struct BlockDeclView {
    pub name: Seq<char>,
    pub inputs: Option<Seq<PortDeclView>>,
    pub outputs: Option<Seq<PortDeclView>>,
    pub effect: Option<Seq<char>>,
}

impl View for BlockDecl {
    type V = BlockDeclView;

    open spec fn view(&self) -> BlockDeclView {
        BlockDeclView {
            name: self.name.deep_view(),
            inputs: self.inputs.deep_view(),
            outputs: self.outputs.deep_view(),
            effect: self.effect.deep_view(),
        }
    }
}

impl DeepView for BlockDecl {
    type V = BlockDeclView;

    open spec fn deep_view(&self) -> BlockDeclView {
        self@
    }
}

/// A typed port of a block.
#[derive(Debug, Clone)]
pub struct PortDecl {
    pub name: String,
    pub type_: String,
}

/// The view of a `PortDecl`.
pub struct PortDeclView {
    pub name: Seq<char>,
    pub type_: Seq<char>,
}

impl View for PortDecl {
    type V = PortDeclView;

    open spec fn view(&self) -> PortDeclView {
        PortDeclView { name: self.name.deep_view(), type_: self.type_.deep_view() }
    }
}

impl DeepView for PortDecl {
    type V = PortDeclView;

    open spec fn deep_view(&self) -> PortDeclView {
        self@
    }
}

/// Wires between named points, and the outputs the network exposes.
#[derive(Debug, Clone)]
pub struct NetworkDecl {
    pub name: String,
    pub wires: Option<Vec<Wire>>,
    pub outputs: Option<Vec<Output>>,
}

/// The view of a `NetworkDecl`.
pub struct NetworkDeclView {
    pub name: Seq<char>,
    pub wires: Option<Seq<WireView>>,
    pub outputs: Option<Seq<OutputView>>,
}

impl View for NetworkDecl {
    type V = NetworkDeclView;

    open spec fn view(&self) -> NetworkDeclView {
        NetworkDeclView {
            name: self.name.deep_view(),
            wires: self.wires.deep_view(),
            outputs: self.outputs.deep_view(),
        }
    }
}

impl DeepView for NetworkDecl {
    type V = NetworkDeclView;

    open spec fn deep_view(&self) -> NetworkDeclView {
        self@
    }
}

/// A connection from a source point to a target point.
#[derive(Debug, Clone)]
pub struct Wire {
    pub source: String,
    pub target: String,
}

/// The view of a `Wire`.
pub struct WireView {
    pub source: Seq<char>,
    pub target: Seq<char>,
}

impl View for Wire {
    type V = WireView;

    open spec fn view(&self) -> WireView {
        WireView { source: self.source.deep_view(), target: self.target.deep_view() }
    }
}

impl DeepView for Wire {
    type V = WireView;

    open spec fn deep_view(&self) -> WireView {
        self@
    }
}

/// A named output of a network and the point that feeds it.
#[derive(Debug, Clone)]
pub struct Output {
    pub name: String,
    pub source: String,
}

/// The view of an `Output`.
pub struct OutputView {
    pub name: Seq<char>,
    pub source: Seq<char>,
}

impl View for Output {
    type V = OutputView;

    open spec fn view(&self) -> OutputView {
        OutputView { name: self.name.deep_view(), source: self.source.deep_view() }
    }
}

impl DeepView for Output {
    type V = OutputView;

    open spec fn deep_view(&self) -> OutputView {
        self@
    }
}

/// A declaration with a name that must be the only one of its kind in a
/// module.
pub trait Named {
    /// The name as a mathematical value.
    spec fn name_text(&self) -> Seq<char>;

    /// The name.
    fn declared_name(&self) -> (name: &String)
        ensures
            name@ == self.name_text(),
    ;
}

impl Named for SignalDecl {
    open spec fn name_text(&self) -> Seq<char> {
        self.name@
    }

    fn declared_name(&self) -> (name: &String) {
        &self.name
    }
}

impl Named for CoilDecl {
    open spec fn name_text(&self) -> Seq<char> {
        self.name@
    }

    fn declared_name(&self) -> (name: &String) {
        &self.name
    }
}

/// The names of a list of declarations, in order.
pub open spec fn names_of<T: Named>(items: Seq<T>) -> Seq<Seq<char>> {
    Seq::new(items.len(), |i: int| items[i].name_text())
}

impl SignalDeclView {
    /// The names of a list of signals, in order.
    pub open spec fn names(signals: Seq<SignalDeclView>) -> Seq<Seq<char>> {
        Seq::new(signals.len(), |i: int| signals[i].name)
    }
}

impl CoilDeclView {
    /// The names of a list of coils, in order.
    pub open spec fn names(coils: Seq<CoilDeclView>) -> Seq<Seq<char>> {
        Seq::new(coils.len(), |i: int| coils[i].name)
    }
}

impl RungDeclView {
    /// The coils the rung acts on, one per action, in action order.
    pub open spec fn targets(self) -> Seq<Seq<char>> {
        Seq::new(self.actions.len(), |j: int| self.actions[j].coil)
    }
}

impl ModuleView {
    /// Names of the declared signals in declaration order; empty when the
    /// module declares none.
    pub open spec fn signal_names(self) -> Seq<Seq<char>> {
        match self.signals {
            Some(signals) => SignalDeclView::names(signals),
            None => Seq::empty(),
        }
    }

    /// Names of the declared coils in declaration order; empty when the
    /// module declares none.
    pub open spec fn coil_names(self) -> Seq<Seq<char>> {
        match self.coils {
            Some(coils) => CoilDeclView::names(coils),
            None => Seq::empty(),
        }
    }

    /// The rungs in declaration order; empty when the module holds none.
    pub open spec fn rung_list(self) -> Seq<RungDeclView> {
        match self.rungs {
            Some(rungs) => rungs,
            None => Seq::empty(),
        }
    }
}

impl Clone for Expr {
    /// A copy that stands for the same argument.
    fn clone(&self) -> (copy: Self)
        ensures
            copy@ == self@,
    {
        match self {
            Expr::String(text) => Expr::String(text.clone()),
            Expr::Number(bits) => Expr::Number(*bits),
            Expr::Boolean(truth) => Expr::Boolean(*truth),
            Expr::Identifier(name) => Expr::Identifier(name.clone()),
        }
    }
}

impl GuardExpr {
    /// A copy of the whole tree.
    fn duplicate(&self) -> (copy: GuardExpr)
        ensures
            copy@ == self@,
        decreases self,
    {
        match self {
            GuardExpr::Contact { name, contact_type, arguments } => {
                let copied = arguments.clone();
                proof {
                    if arguments is Some {
                        assert(copied.unwrap().deep_view() =~= arguments.unwrap().deep_view());
                    }
                }
                GuardExpr::Contact {
                    name: name.clone(),
                    contact_type: contact_type.clone(),
                    arguments: copied,
                }
            },
            GuardExpr::And { left, right } => GuardExpr::And {
                left: Box::new(left.duplicate()),
                right: Box::new(right.duplicate()),
            },
            GuardExpr::Or { left, right } => GuardExpr::Or {
                left: Box::new(left.duplicate()),
                right: Box::new(right.duplicate()),
            },
            GuardExpr::Not { expr } => GuardExpr::Not { expr: Box::new(expr.duplicate()) },
        }
    }
}

impl Clone for GuardExpr {
    /// A copy that stands for the same guard.
    fn clone(&self) -> (copy: Self)
        ensures
            copy@ == self@,
    {
        self.duplicate()
    }
}

/// The outcome of loading a schema, given what compiling it gave: the compiled
/// schema itself, or a load error that carries the compiler's complaint.
pub fn schema_or_load_error(compiled: Result<jsonschema::JSONSchema, String>) -> (loaded: Result<
    jsonschema::JSONSchema,
    ValidationError,
>)
    ensures
        match compiled {
            Ok(schema) => loaded matches Ok(kept) && kept == schema,
            Err(detail) => loaded matches Err(e) && e@ == ValidationErrorView::SchemaLoad(
                "Failed to compile schema: "@ + detail@,
            ),
        },
{
    match compiled {
        Ok(schema) => Ok(schema),
        Err(detail) => {
            let mut message = "Failed to compile schema: ".to_owned();
            message.append(detail.as_str());
            Err(ValidationError::SchemaLoad(message))
        },
    }
}

/// The error for a schema document that is not JSON: a load error that
/// carries the parser's complaint.
pub fn unreadable_schema(error: &serde_json::Error) -> (refused: ValidationError)
    ensures
        refused@ == ValidationErrorView::SchemaLoad(json_error_display(*error)),
{
    ValidationError::SchemaLoad(json_error_text(error))
}

/// What loading a schema from a text gives. A text that is not JSON gives a
/// load error with the parser's complaint. A text that is JSON gives what
/// compiling it gives: the compiled schema, or a load error with the
/// compiler's complaint.
pub open spec fn schema_from_text(text: Seq<char>) -> Result<
    jsonschema::JSONSchema,
    ValidationErrorView,
> {
    match json_parse(text) {
        Err(error) => Err(ValidationErrorView::SchemaLoad(json_error_display(error))),
        Ok(schema_json) => match compiled_schema(schema_json) {
            Ok(schema) => Ok(schema),
            Err(detail) => Err(
                ValidationErrorView::SchemaLoad("Failed to compile schema: "@ + detail),
            ),
        },
    }
}

/// Loads a schema from the text of a schema document: parses the text as
/// JSON and compiles the result. Whatever goes wrong is a load error: a
/// schema that cannot be read is a fault of the configuration, not of any
/// document held against it.
pub fn load_schema(schema_content: &str) -> (loaded: Result<
    jsonschema::JSONSchema,
    ValidationError,
>)
    ensures
        match schema_from_text(schema_content@) {
            Ok(schema) => loaded matches Ok(kept) && kept == schema,
            Err(refusal) => loaded matches Err(e) && e@ == refusal,
        },
        loaded matches Err(e) ==> e@ is SchemaLoad,
{
    match parse_json(schema_content) {
        Ok(schema_json) => {
            let compiled = compile_schema(&schema_json);
            schema_or_load_error(compiled)
        },
        Err(error) => Err(unreadable_schema(&error)),
    }
}

} // verus!
