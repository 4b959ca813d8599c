pub mod binary64;
pub mod evidence;
pub mod schema;
pub mod structural;
pub mod validation;

pub use evidence::{Evidence, EvidenceBool, EvidenceSource, EvidenceText, EvidenceType};
pub use schema::{load_schema, Action, CoilDecl, GuardExpr, Module, RungDecl, SignalDecl, IR};
pub use validation::validate_ir;
