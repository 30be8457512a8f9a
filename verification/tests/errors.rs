//! Tests for the error taxonomy.

use ferriclink_core::errors::{
    create_error_message, ErrorCode, FerricLinkError, OutputParserException, TracerException,
};

#[test]
fn test_error_creation() {
    let validation_err = FerricLinkError::validation("test validation error");
    assert!(matches!(validation_err, FerricLinkError::Validation(_)));

    let config_err = FerricLinkError::configuration("test config error");
    assert!(matches!(config_err, FerricLinkError::Configuration(_)));

    let runtime_err = FerricLinkError::runtime("test runtime error");
    assert!(matches!(runtime_err, FerricLinkError::Runtime(_)));
}

#[test]
fn test_error_display() {
    let err = FerricLinkError::validation("test error");
    assert!(err.to_string().contains("test error"));
}

#[test]
fn test_error_codes() {
    let code = ErrorCode::InvalidPromptInput;
    assert_eq!(code.as_str(), "INVALID_PROMPT_INPUT");
    assert!(code.troubleshooting_url().contains("ferrum-labs.github.io"));
}

#[test]
fn test_tracer_exception() {
    let tracer_err = TracerException::new("test tracer error");
    assert_eq!(tracer_err.error_code, ErrorCode::RuntimeError);
    assert_eq!(tracer_err.message, "test tracer error");

    let tracer_err_with_code = TracerException::with_code("test", ErrorCode::ModelNotFound);
    assert_eq!(tracer_err_with_code.error_code, ErrorCode::ModelNotFound);
}

#[test]
fn test_output_parser_exception() {
    let parser_err = OutputParserException::new("test parser error");
    assert_eq!(parser_err.error_code, ErrorCode::OutputParsingFailure);
    assert!(!parser_err.should_send_to_llm());

    let parser_err_with_context = OutputParserException::with_llm_context(
        "test error",
        Some("observation".to_string()),
        Some("llm output".to_string()),
        true,
    );
    assert!(parser_err_with_context.should_send_to_llm());
    assert_eq!(parser_err_with_context.observation(), Some("observation"));
    assert_eq!(parser_err_with_context.llm_output(), Some("llm output"));
}

#[test]
fn test_error_with_code() {
    let err = FerricLinkError::with_error_code("test error", ErrorCode::ModelAuthentication);
    assert!(err.to_string().contains("test error"));
    assert_eq!(err.error_code(), Some(ErrorCode::ModelAuthentication));
}

#[test]
fn test_convenience_error_functions() {
    let invalid_prompt = FerricLinkError::invalid_prompt_input("bad prompt");
    assert_eq!(invalid_prompt.error_code(), Some(ErrorCode::InvalidPromptInput));

    let model_auth = FerricLinkError::model_authentication("auth failed");
    assert_eq!(model_auth.error_code(), Some(ErrorCode::ModelAuthentication));

    let rate_limit = FerricLinkError::model_rate_limit("too many requests");
    assert_eq!(rate_limit.error_code(), Some(ErrorCode::ModelRateLimit));
}

#[test]
fn test_llm_context() {
    let parser_err = OutputParserException::with_llm_context(
        "test",
        Some("obs".to_string()),
        Some("output".to_string()),
        true,
    );
    let ferric_err = FerricLinkError::OutputParser(parser_err);

    assert!(ferric_err.should_send_to_llm());
    let context = ferric_err.llm_context();
    assert_eq!(context, Some((Some("obs"), Some("output"))));
}

#[test]
fn test_create_error_message() {
    let message = create_error_message("test error", ErrorCode::OutputParsingFailure);
    assert!(message.contains("test error"));
    assert!(message.contains("troubleshooting"));
    assert!(message.contains("ferrum-labs.github.io"));
}

#[test]
fn test_create_error_message_exact() {
    let message = create_error_message("boom", ErrorCode::ModelRateLimit);
    assert_eq!(
        message,
        "boom\nError Code: MODEL_RATE_LIMIT\nFor troubleshooting, visit: \
         https://ferrum-labs.github.io/FerricLink/docs/troubleshooting/errors/model_rate_limit"
    );
}

#[test]
fn test_error_code_from_general_message() {
    // the first error-code name found in a general message decides its code
    let err = FerricLinkError::general("something MODEL_NOT_FOUND happened");
    assert_eq!(err.error_code(), Some(ErrorCode::ModelNotFound));
    let err = FerricLinkError::general("no marker here");
    assert_eq!(err.error_code(), Some(ErrorCode::GenericError));
    let err = FerricLinkError::general("INVALID_TOOL_RESULTS before MODEL_RATE_LIMIT");
    assert_eq!(err.error_code(), Some(ErrorCode::InvalidToolResults));
}

#[test]
fn test_error_variant_codes() {
    assert_eq!(
        FerricLinkError::not_implemented("x").error_code(),
        Some(ErrorCode::NotImplemented)
    );
    assert_eq!(
        FerricLinkError::configuration("x").error_code(),
        Some(ErrorCode::ConfigurationError)
    );
    assert_eq!(
        FerricLinkError::generic("x").error_code(),
        Some(ErrorCode::GenericError)
    );
    let tracer = FerricLinkError::Tracer(TracerException::new("t"));
    assert_eq!(tracer.error_code(), Some(ErrorCode::RuntimeError));
}
