//! Parse errors: every way a document can be rejected, together with the
//! spec-level picture of an error that the parsing contracts speak of.

use vstd::prelude::*;

verus! {

/// An error produced while parsing a document.
///
/// `CoercionError` and `UnknownVariant` name the scalar kind and the
/// offending text; the structural errors carry the 1-based source line;
/// the field errors name the record and the field keyword;
/// `IncompleteDocument` lists every required top-level section that was
/// not successfully parsed, in the fixed order `service`, `data_sources`,
/// `application`, `deployment`.
#[derive(Debug, Clone, PartialEq)]
pub enum ParseError {
    CoercionError { kind: String, text: String },
    UnknownVariant { kind: String, text: String },
    MalformedIndentation { line: usize },
    DedentMismatch { line: usize },
    EmptyDocument,
    MissingField { record: String, field: String, line: usize },
    DuplicateField { record: String, field: String, line: usize },
    UnexpectedField { record: String, field: String, line: usize },
    IncompleteDocument { missing_sections: Vec<String> },
}

/// Spec-level picture of a `ParseError`.
pub enum ErrorV {
    CoercionError { kind: Seq<char>, text: Seq<char> },
    UnknownVariant { kind: Seq<char>, text: Seq<char> },
    MalformedIndentation { line: nat },
    DedentMismatch { line: nat },
    EmptyDocument,
    MissingField { record: Seq<char>, field: Seq<char>, line: nat },
    DuplicateField { record: Seq<char>, field: Seq<char>, line: nat },
    UnexpectedField { record: Seq<char>, field: Seq<char>, line: nat },
    IncompleteDocument { missing_sections: Seq<Seq<char>> },
}

impl View for ParseError {
    type V = ErrorV;

    open spec fn view(&self) -> ErrorV {
        match self {
            ParseError::CoercionError { kind, text } => ErrorV::CoercionError {
                kind: kind@,
                text: text@,
            },
            ParseError::UnknownVariant { kind, text } => ErrorV::UnknownVariant {
                kind: kind@,
                text: text@,
            },
            ParseError::MalformedIndentation { line } => ErrorV::MalformedIndentation {
                line: *line as nat,
            },
            ParseError::DedentMismatch { line } => ErrorV::DedentMismatch { line: *line as nat },
            ParseError::EmptyDocument => ErrorV::EmptyDocument,
            ParseError::MissingField { record, field, line } => ErrorV::MissingField {
                record: record@,
                field: field@,
                line: *line as nat,
            },
            ParseError::DuplicateField { record, field, line } => ErrorV::DuplicateField {
                record: record@,
                field: field@,
                line: *line as nat,
            },
            ParseError::UnexpectedField { record, field, line } => ErrorV::UnexpectedField {
                record: record@,
                field: field@,
                line: *line as nat,
            },
            ParseError::IncompleteDocument { missing_sections } => ErrorV::IncompleteDocument {
                missing_sections: Seq::new(
                    missing_sections@.len(),
                    |i: int| missing_sections[i]@,
                ),
            },
        }
    }
}

} // verus!
