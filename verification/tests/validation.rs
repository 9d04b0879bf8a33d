//! The required rule and validation-error formatting.

use onboarding::validation_service::{
    capitalize, format_validation_errors, required, ValidationError, ValidationErrors,
};

#[test]
fn required_rejects_empty_and_blank_values() {
    let e = required("").unwrap_err();
    assert_eq!(e.code, "required");
    assert_eq!(e.message.as_deref(), Some("Ini field is required"));
    assert!(required(" \t\r\n").is_err());
    assert!(required("   ").is_err());
}

#[test]
fn required_accepts_any_visible_content() {
    assert!(required("x").is_ok());
    assert!(required("  x  ").is_ok());
    assert!(required("0").is_ok());
}

#[test]
fn capitalize_raises_the_first_ascii_letter() {
    assert_eq!(capitalize("email"), "Email");
    assert_eq!(capitalize("bank_name"), "Bank_name");
    assert_eq!(capitalize("Email"), "Email");
    assert_eq!(capitalize("9lives"), "9lives");
    assert_eq!(capitalize(""), "");
    assert_eq!(capitalize("a"), "A");
}

#[test]
fn formatting_names_the_field_for_the_required_rule() {
    let mut errors = ValidationErrors::new();
    assert!(errors.is_empty());
    errors.add("email", ValidationError::new("required"));
    assert!(!errors.is_empty());
    let formatted = format_validation_errors(&errors);
    assert_eq!(formatted.len(), 1);
    assert_eq!(formatted[0].0, "email");
    assert_eq!(formatted[0].1, "Email is required");
}

#[test]
fn formatting_uses_the_recorded_message_for_other_rules() {
    let mut errors = ValidationErrors::new();
    let mut with_message = ValidationError::new("email_format");
    with_message.message = Some("Invalid email format".to_string());
    errors.add("email", with_message);
    errors.add("phone", ValidationError::new("phone_format"));
    errors.add("full_name", ValidationError::new("required"));
    let formatted = format_validation_errors(&errors);
    assert_eq!(formatted.len(), 3);
    assert_eq!(formatted[0], ("email".to_string(), "Invalid email format".to_string()));
    assert_eq!(formatted[1], ("phone".to_string(), "Invalid value".to_string()));
    assert_eq!(formatted[2], ("full_name".to_string(), "Full_name is required".to_string()));
}
