//! What the engine reports.

use validate_xml::error::{LibXml2Error, ValidationError};
use validate_xml::libxml2::{LibXml2Wrapper, ValidationResult};
use validate_xml::validator::ValidationStatus;

#[test]
fn test_libxml2_wrapper_creation() {
    let wrapper = LibXml2Wrapper::new();
    // Should not panic or fail
    drop(wrapper);
}

#[test]
fn test_validation_result_from_code() {
    assert_eq!(ValidationResult::from_code(0, vec![]), ValidationResult::Valid);
    assert_eq!(
        ValidationResult::from_code(5, vec![]),
        ValidationResult::Invalid { error_count: 5, errors: vec![] }
    );
    assert_eq!(
        ValidationResult::from_code(-1, vec![]),
        ValidationResult::InternalError { code: -1 }
    );
}

#[test]
fn test_validation_result_predicates() {
    let valid = ValidationResult::Valid;
    assert!(valid.is_valid());
    assert!(!valid.is_invalid());
    assert!(!valid.is_error());

    let invalid = ValidationResult::Invalid { error_count: 1, errors: vec![] };
    assert!(!invalid.is_valid());
    assert!(invalid.is_invalid());
    assert!(!invalid.is_error());

    let error = ValidationResult::InternalError { code: -1 };
    assert!(!error.is_valid());
    assert!(!error.is_invalid());
    assert!(error.is_error());
}

#[test]
fn test_error_conversion() {
    let libxml2_error = LibXml2Error::SchemaParseFailed;
    let validation_error: ValidationError = libxml2_error.into();

    match validation_error {
        ValidationError::LibXml2Internal { .. } => (),
        _ => panic!("Expected LibXml2Internal error"),
    }
}

#[test]
fn test_multiple_wrapper_instances() {
    let wrapper1 = LibXml2Wrapper::new();
    let wrapper2 = LibXml2Wrapper::default();
    assert_eq!(wrapper1, wrapper2);
}

#[test]
fn test_from_code_keeps_the_messages_of_an_invalid_document() {
    let messages = vec!["first".to_string(), "second".to_string()];
    assert_eq!(
        ValidationResult::from_code(2, messages.clone()),
        ValidationResult::Invalid { error_count: 2, errors: messages.clone() }
    );
    assert_eq!(ValidationResult::from_code(0, messages.clone()), ValidationResult::Valid);
    assert_eq!(
        ValidationResult::from_code(i32::MIN, messages),
        ValidationResult::InternalError { code: i32::MIN }
    );
}

#[test]
fn test_interpret_validation() {
    let wrapper = LibXml2Wrapper::new();
    assert_eq!(wrapper.interpret_validation(0, vec![], "a.xml"), Ok(ValidationResult::Valid));
    assert_eq!(
        wrapper.interpret_validation(3, vec!["m".to_string()], "a.xml"),
        Ok(ValidationResult::Invalid { error_count: 3, errors: vec!["m".to_string()] })
    );
    assert_eq!(
        wrapper.interpret_validation(-2, vec![], "a.xml"),
        Err(LibXml2Error::ValidationFailed { code: -2, file: "a.xml".to_string() })
    );
}

#[test]
fn test_validate_memory_is_not_offered() {
    let wrapper = LibXml2Wrapper::new();
    assert_eq!(
        wrapper.validate_memory(b"<root/>", Some("doc.xml".to_string())),
        Err(LibXml2Error::ValidationFailed { code: -1, file: "doc.xml".to_string() })
    );
    assert_eq!(
        wrapper.validate_memory(b"<root/>", None),
        Err(LibXml2Error::ValidationFailed { code: -1, file: "<memory>".to_string() })
    );
}

#[test]
fn test_validation_status_from_validation_result() {
    let valid_result = ValidationResult::Valid;
    let status: ValidationStatus = valid_result.into();
    assert!(status.is_valid());

    let invalid_result = ValidationResult::Invalid { error_count: 3, errors: vec![] };
    let status: ValidationStatus = invalid_result.into();
    assert!(status.is_invalid());
    if let ValidationStatus::Invalid { error_count } = status {
        assert_eq!(error_count, 3);
    } else {
        panic!("Expected Invalid status");
    }

    let error_result = ValidationResult::InternalError { code: -1 };
    let status: ValidationStatus = error_result.into();
    assert!(status.is_error());
    assert_eq!(status, ValidationStatus::Error { message: "LibXML2 internal error: -1".to_string() });
}
