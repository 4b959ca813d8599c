//! Validation of a control-logic intermediate representation: the typed data
//! model, the evidence wrapper for uncertain inputs, and the checks a
//! document must pass before it is handed on.

pub mod error;
pub mod ir;

pub use error::ValidationError;
pub use ir::{load_schema, validate_ir, Evidence, EvidenceSource, EvidenceType, IR};
