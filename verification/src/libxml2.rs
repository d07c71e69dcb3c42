//! What the schema engine reports of one validation, and how its return
//! code is read.

use crate::error::LibXml2Error;
use vstd::prelude::*;

verus! {

/// The engine's verdict on one document.
#[derive(Clone, Debug, PartialEq, Eq)]
pub enum ValidationResult {
    /// The document conforms to the schema.
    Valid,
    /// The document breaks the schema; the engine counted the violations and
    /// reported a message for each one it could describe.
    Invalid { error_count: i32, errors: Vec<String> },
    /// The engine itself failed.
    InternalError { code: i32 },
}

impl ValidationResult {
    /// Reads the engine's return code: zero is a valid document, a positive
    /// code counts the violations, a negative one is an internal error. The
    /// captured messages stay with the violations and are dropped otherwise.
    pub fn from_code(code: i32, errors: Vec<String>) -> (r: ValidationResult)
        ensures
            code == 0 ==> r is Valid,
            code > 0 ==> r == (ValidationResult::Invalid { error_count: code, errors }),
            code < 0 ==> r == (ValidationResult::InternalError { code }),
    {
        if code == 0 {
            ValidationResult::Valid
        } else if code > 0 {
            ValidationResult::Invalid { error_count: code, errors }
        } else {
            ValidationResult::InternalError { code }
        }
    }

    /// Whether the document conforms.
    pub fn is_valid(&self) -> (b: bool)
        ensures
            b == (self is Valid),
    {
        matches!(self, ValidationResult::Valid)
    }

    /// Whether the document breaks the schema.
    pub fn is_invalid(&self) -> (b: bool)
        ensures
            b == (self is Invalid),
    {
        matches!(self, ValidationResult::Invalid { .. })
    }

    /// Whether the engine failed.
    pub fn is_error(&self) -> (b: bool)
        ensures
            b == (self is InternalError),
    {
        matches!(self, ValidationResult::InternalError { .. })
    }
}

/// The library's side of the schema engine: it reads what the engine
/// returns. The calls into the engine are made by the program that owns the
/// compiled schemas.
#[derive(Clone, Copy, Debug, PartialEq, Eq, Structural)]
pub struct LibXml2Wrapper {}

impl LibXml2Wrapper {
    /// A reader of what the engine returns.
    pub fn new() -> (w: LibXml2Wrapper) {
        LibXml2Wrapper {  }
    }

    /// What a validation of the file `file` comes to, given the engine's
    /// return code and the messages it reported: a verdict for a code of zero
    /// or more, and the failure `ValidationFailed` with that code below zero.
    pub fn interpret_validation(&self, code: i32, errors: Vec<String>, file: &str) -> (r: Result<
        ValidationResult,
        LibXml2Error,
    >)
        ensures
            code == 0 ==> (r matches Ok(v) && v is Valid),
            code > 0 ==> r == Ok::<ValidationResult, LibXml2Error>(
                ValidationResult::Invalid { error_count: code, errors },
            ),
            code < 0 ==> (r matches Err(LibXml2Error::ValidationFailed { code: c, file: f }) && c
                == code && f@ == file@),
    {
        let result = ValidationResult::from_code(code, errors);
        match result {
            ValidationResult::InternalError { code } => Err(
                LibXml2Error::ValidationFailed { code, file: file.to_owned() },
            ),
            other => Ok(other),
        }
    }

    /// The answer to a request to validate a document held in memory, which
    /// the engine does not offer: always the failure `ValidationFailed` with
    /// code -1, for the name given or for `<memory>`.
    pub fn validate_memory(&self, xml_content: &[u8], file_name: Option<String>) -> (r: Result<
        ValidationResult,
        LibXml2Error,
    >)
        ensures
            r matches Err(LibXml2Error::ValidationFailed { code, file }) && code == -1 && file@
                == (match file_name {
                Some(n) => n@,
                None => "<memory>"@,
            }),
    {
        let file = match file_name {
            Some(n) => n,
            None => "<memory>".to_owned(),
        };
        Err(LibXml2Error::ValidationFailed { code: -1, file })
    }
}

impl Default for LibXml2Wrapper {
    fn default() -> (w: LibXml2Wrapper) {
        LibXml2Wrapper::new()
    }
}

} // verus!
