//! The errors a validation can end with.

use crate::ir::structural::{json_error_display, json_error_text};
use vstd::prelude::*;
use vstd::string::*;

verus! {

/// Why a document, or the schema it is held against, was rejected.
#[derive(Debug)]
pub enum ValidationError {
    /// A text is not well-formed JSON.
    JsonParse(serde_json::Error),
    /// The document departs from the schema; the message lists every place.
    SchemaValidation(String),
    /// The schema could not be loaded.
    SchemaLoad(String),
    /// The document breaks a rule that no schema expresses.
    InvalidStructure(String),
}

/// An error as a mathematical value: the same cases, with each message as a
/// sequence of characters.
pub enum ValidationErrorView {
    JsonParse(serde_json::Error),
    SchemaValidation(Seq<char>),
    SchemaLoad(Seq<char>),
    InvalidStructure(Seq<char>),
}

impl View for ValidationError {
    type V = ValidationErrorView;

    open spec fn view(&self) -> ValidationErrorView {
        match self {
            ValidationError::JsonParse(e) => ValidationErrorView::JsonParse(*e),
            ValidationError::SchemaValidation(m) => ValidationErrorView::SchemaValidation(m@),
            ValidationError::SchemaLoad(m) => ValidationErrorView::SchemaLoad(m@),
            ValidationError::InvalidStructure(m) => ValidationErrorView::InvalidStructure(m@),
        }
    }
}

impl ValidationErrorView {
    /// What every description of this kind of error begins with.
    pub open spec fn heading(self) -> Seq<char> {
        match self {
            ValidationErrorView::JsonParse(_) => "JSON parsing error: "@,
            ValidationErrorView::SchemaValidation(_) => "Schema validation error: "@,
            ValidationErrorView::SchemaLoad(_) => "Schema loading error: "@,
            ValidationErrorView::InvalidStructure(_) => "Invalid IR structure: "@,
        }
    }

    /// The error's own message; for a parse error, the parser's display text.
    pub open spec fn detail(self) -> Seq<char> {
        match self {
            ValidationErrorView::JsonParse(e) => json_error_display(e),
            ValidationErrorView::SchemaValidation(m) => m,
            ValidationErrorView::SchemaLoad(m) => m,
            ValidationErrorView::InvalidStructure(m) => m,
        }
    }
}

impl ValidationError {
    /// The error in words: the heading of its kind, then its own message.
    pub fn message(&self) -> (text: String)
        ensures
            text@ == self@.heading() + self@.detail(),
    {
        match self {
            ValidationError::JsonParse(e) => {
                let detail = json_error_text(e);
                let mut text = "JSON parsing error: ".to_owned();
                text.append(detail.as_str());
                text
            },
            ValidationError::SchemaValidation(m) => {
                let mut text = "Schema validation error: ".to_owned();
                text.append(m.as_str());
                text
            },
            ValidationError::SchemaLoad(m) => {
                let mut text = "Schema loading error: ".to_owned();
                text.append(m.as_str());
                text
            },
            ValidationError::InvalidStructure(m) => {
                let mut text = "Invalid IR structure: ".to_owned();
                text.append(m.as_str());
                text
            },
        }
    }
}

impl From<serde_json::Error> for ValidationError {
    fn from(error: serde_json::Error) -> (converted: ValidationError) {
        ValidationError::JsonParse(error)
    }
}

impl vstd::std_specs::convert::FromSpecImpl<serde_json::Error> for ValidationError {
    open spec fn obeys_from_spec() -> bool {
        true
    }

    open spec fn from_spec(error: serde_json::Error) -> ValidationError {
        ValidationError::JsonParse(error)
    }
}

} // verus!
