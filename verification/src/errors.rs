//! Error types for FerricLink Core
//!
//! This module provides the error taxonomy for the FerricLink ecosystem:
//! structured error codes, tracer and output-parser exceptions, and the
//! main `FerricLinkError` type with its convenience constructors.

use vstd::prelude::*;
use vstd::string::StringExecFns;
use vstd::string::StringSliceAdditionalSpecFns;

verus! {

/// Error codes for structured error handling
#[derive(Debug, Clone, Copy, PartialEq, Eq, Hash, Structural)]
pub enum ErrorCode {
    /// Invalid prompt input provided
    InvalidPromptInput,
    /// Invalid tool results received
    InvalidToolResults,
    /// Message coercion failed
    MessageCoercionFailure,
    /// Model authentication failed
    ModelAuthentication,
    /// Model not found
    ModelNotFound,
    /// Model rate limit exceeded
    ModelRateLimit,
    /// Output parsing failed
    OutputParsingFailure,
    /// Serialization/deserialization error
    SerializationError,
    /// IO operation failed
    IoError,
    /// HTTP request failed
    HttpError,
    /// Validation failed
    ValidationError,
    /// Configuration error
    ConfigurationError,
    /// Runtime error
    RuntimeError,
    /// Feature not implemented
    NotImplemented,
    /// Generic error
    GenericError,
}

impl ErrorCode {
    /// The string representation of each error code, as a sequence of characters.
    pub open spec fn spec_str(self) -> Seq<char> {
        match self {
            ErrorCode::InvalidPromptInput => "INVALID_PROMPT_INPUT"@,
            ErrorCode::InvalidToolResults => "INVALID_TOOL_RESULTS"@,
            ErrorCode::MessageCoercionFailure => "MESSAGE_COERCION_FAILURE"@,
            ErrorCode::ModelAuthentication => "MODEL_AUTHENTICATION"@,
            ErrorCode::ModelNotFound => "MODEL_NOT_FOUND"@,
            ErrorCode::ModelRateLimit => "MODEL_RATE_LIMIT"@,
            ErrorCode::OutputParsingFailure => "OUTPUT_PARSING_FAILURE"@,
            ErrorCode::SerializationError => "SERIALIZATION_ERROR"@,
            ErrorCode::IoError => "IO_ERROR"@,
            ErrorCode::HttpError => "HTTP_ERROR"@,
            ErrorCode::ValidationError => "VALIDATION_ERROR"@,
            ErrorCode::ConfigurationError => "CONFIGURATION_ERROR"@,
            ErrorCode::RuntimeError => "RUNTIME_ERROR"@,
            ErrorCode::NotImplemented => "NOT_IMPLEMENTED"@,
            ErrorCode::GenericError => "GENERIC_ERROR"@,
        }
    }

    /// The lower-case string representation of each error code.
    pub open spec fn spec_lower_str(self) -> Seq<char> {
        match self {
            ErrorCode::InvalidPromptInput => "invalid_prompt_input"@,
            ErrorCode::InvalidToolResults => "invalid_tool_results"@,
            ErrorCode::MessageCoercionFailure => "message_coercion_failure"@,
            ErrorCode::ModelAuthentication => "model_authentication"@,
            ErrorCode::ModelNotFound => "model_not_found"@,
            ErrorCode::ModelRateLimit => "model_rate_limit"@,
            ErrorCode::OutputParsingFailure => "output_parsing_failure"@,
            ErrorCode::SerializationError => "serialization_error"@,
            ErrorCode::IoError => "io_error"@,
            ErrorCode::HttpError => "http_error"@,
            ErrorCode::ValidationError => "validation_error"@,
            ErrorCode::ConfigurationError => "configuration_error"@,
            ErrorCode::RuntimeError => "runtime_error"@,
            ErrorCode::NotImplemented => "not_implemented"@,
            ErrorCode::GenericError => "generic_error"@,
        }
    }

    /// Get the string representation of the error code
    pub fn as_str(&self) -> (r: &'static str)
        ensures
            r@ == self.spec_str(),
    {
        match self {
            ErrorCode::InvalidPromptInput => "INVALID_PROMPT_INPUT",
            ErrorCode::InvalidToolResults => "INVALID_TOOL_RESULTS",
            ErrorCode::MessageCoercionFailure => "MESSAGE_COERCION_FAILURE",
            ErrorCode::ModelAuthentication => "MODEL_AUTHENTICATION",
            ErrorCode::ModelNotFound => "MODEL_NOT_FOUND",
            ErrorCode::ModelRateLimit => "MODEL_RATE_LIMIT",
            ErrorCode::OutputParsingFailure => "OUTPUT_PARSING_FAILURE",
            ErrorCode::SerializationError => "SERIALIZATION_ERROR",
            ErrorCode::IoError => "IO_ERROR",
            ErrorCode::HttpError => "HTTP_ERROR",
            ErrorCode::ValidationError => "VALIDATION_ERROR",
            ErrorCode::ConfigurationError => "CONFIGURATION_ERROR",
            ErrorCode::RuntimeError => "RUNTIME_ERROR",
            ErrorCode::NotImplemented => "NOT_IMPLEMENTED",
            ErrorCode::GenericError => "GENERIC_ERROR",
        }
    }

    /// The troubleshooting URL for an error code, as a sequence of characters.
    pub open spec fn spec_troubleshooting_url(self) -> Seq<char> {
        "https://ferrum-labs.github.io/FerricLink/docs/troubleshooting/errors/"@
            + self.spec_lower_str()
    }

    /// Get the troubleshooting URL for this error code
    pub fn troubleshooting_url(&self) -> (r: String)
        ensures
            r@ == self.spec_troubleshooting_url(),
    {
        let mut url = String::new();
        url.append("https://ferrum-labs.github.io/FerricLink/docs/troubleshooting/errors/");
        let lower = match self {
            ErrorCode::InvalidPromptInput => "invalid_prompt_input",
            ErrorCode::InvalidToolResults => "invalid_tool_results",
            ErrorCode::MessageCoercionFailure => "message_coercion_failure",
            ErrorCode::ModelAuthentication => "model_authentication",
            ErrorCode::ModelNotFound => "model_not_found",
            ErrorCode::ModelRateLimit => "model_rate_limit",
            ErrorCode::OutputParsingFailure => "output_parsing_failure",
            ErrorCode::SerializationError => "serialization_error",
            ErrorCode::IoError => "io_error",
            ErrorCode::HttpError => "http_error",
            ErrorCode::ValidationError => "validation_error",
            ErrorCode::ConfigurationError => "configuration_error",
            ErrorCode::RuntimeError => "runtime_error",
            ErrorCode::NotImplemented => "not_implemented",
            ErrorCode::GenericError => "generic_error",
        };
        url.append(lower);
        url
    }
}

/// Whether the byte sequence `needle` occurs in `haystack` starting at index `i`.
pub open spec fn bytes_match_at(haystack: Seq<u8>, needle: Seq<u8>, i: int) -> bool {
    0 <= i && i + needle.len() <= haystack.len() && haystack.subrange(i, i + needle.len()) == needle
}

/// Whether the byte sequence `needle` occurs anywhere in `haystack`.
pub open spec fn bytes_contain(haystack: Seq<u8>, needle: Seq<u8>) -> bool {
    exists|i: int| bytes_match_at(haystack, needle, i)
}

/// Whether the UTF-8 encoding of `needle` occurs in the UTF-8 encoding of
/// `haystack`; this is what `str::contains` decides for string patterns.
pub open spec fn str_contains(haystack: &str, needle: &str) -> bool {
    bytes_contain(haystack.spec_bytes(), needle.spec_bytes())
}

fn slice_find_at(haystack: &[u8], needle: &[u8], i: usize) -> (r: bool)
    requires
        i + needle@.len() <= haystack@.len(),
    ensures
        r == bytes_match_at(haystack@, needle@, i as int),
{
    let n = needle.len();
    let h = haystack.len();
    let mut j: usize = 0;
    while j < n
        invariant
            0 <= j <= n,
            n == needle@.len(),
            h == haystack@.len(),
            i + n <= h,
            forall|k: int| 0 <= k < j ==> haystack@[i + k] == needle@[k],
        decreases n - j,
    {
        if haystack[i + j] != needle[j] {
            assert(haystack@.subrange(i as int, i + needle@.len())[j as int] != needle@[j as int]);
            return false;
        }
        j += 1;
    }
    assert(haystack@.subrange(i as int, i + needle@.len()) =~= needle@);
    true
}

/// Search for `needle` as a contiguous run of bytes inside `haystack`.
pub fn slice_contains(haystack: &[u8], needle: &[u8]) -> (r: bool)
    ensures
        r == bytes_contain(haystack@, needle@),
{
    let h = haystack.len();
    let n = needle.len();
    if n > h {
        assert(forall|i: int| !bytes_match_at(haystack@, needle@, i));
        return false;
    }
    if n == 0 {
        assert(bytes_match_at(haystack@, needle@, 0)) by {
            assert(haystack@.subrange(0, 0) =~= needle@);
        }
        return true;
    }
    let mut i: usize = 0;
    while i <= h - n
        invariant
            0 <= i <= h - n + 1,
            1 <= n <= h,
            h == haystack@.len(),
            n == needle@.len(),
            forall|k: int| 0 <= k < i ==> !bytes_match_at(haystack@, needle@, k),
        decreases h - n + 1 - i,
    {
        if slice_find_at(haystack, needle, i) {
            return true;
        }
        i += 1;
    }
    assert(forall|k: int| !bytes_match_at(haystack@, needle@, k));
    false
}

/// Decide whether the string `needle` occurs as a substring of `haystack`.
pub fn contains_str(haystack: &str, needle: &str) -> (r: bool)
    ensures
        r == str_contains(haystack, needle),
{
    slice_contains(haystack.as_bytes(), needle.as_bytes())
}

/// Tracer exception for tracing-related errors
#[derive(Debug, Clone)]
pub struct TracerException {
    /// Error message
    pub message: String,
    /// Error code
    pub error_code: ErrorCode,
}

impl TracerException {
    /// Create a new tracer exception
    pub fn new(message: &str) -> (r: Self)
        ensures
            r.message@ == message@,
            r.error_code == ErrorCode::RuntimeError,
    {
        TracerException { message: message.to_owned(), error_code: ErrorCode::RuntimeError }
    }

    /// Create a new tracer exception with specific error code
    pub fn with_code(message: &str, error_code: ErrorCode) -> (r: Self)
        ensures
            r.message@ == message@,
            r.error_code == error_code,
    {
        TracerException { message: message.to_owned(), error_code }
    }

    /// Render the exception as text, in the form `Tracer error: <message>`.
    pub fn to_string(&self) -> (r: String)
        ensures
            r@ == "Tracer error: "@ + self.message@,
    {
        let mut s = String::new();
        s.append("Tracer error: ");
        s.append(self.message.as_str());
        s
    }
}

/// Output parser exception with special handling for LLM feedback
#[derive(Debug, Clone)]
pub struct OutputParserException {
    /// Error message
    pub message: String,
    /// Error code
    pub error_code: ErrorCode,
    /// Observation that can be sent to the model
    pub observation: Option<String>,
    /// LLM output that caused the error
    pub llm_output: Option<String>,
    /// Whether to send context back to the LLM
    pub send_to_llm: bool,
}

impl OutputParserException {
    /// Create a new output parser exception
    pub fn new(message: &str) -> (r: Self)
        ensures
            r.message@ == message@,
            r.error_code == ErrorCode::OutputParsingFailure,
            r.observation is None,
            r.llm_output is None,
            !r.send_to_llm,
    {
        OutputParserException {
            message: message.to_owned(),
            error_code: ErrorCode::OutputParsingFailure,
            observation: None,
            llm_output: None,
            send_to_llm: false,
        }
    }

    /// Create a new output parser exception with error code
    pub fn with_code(message: &str, error_code: ErrorCode) -> (r: Self)
        ensures
            r.message@ == message@,
            r.error_code == error_code,
            r.observation is None,
            r.llm_output is None,
            !r.send_to_llm,
    {
        OutputParserException {
            message: message.to_owned(),
            error_code,
            observation: None,
            llm_output: None,
            send_to_llm: false,
        }
    }

    /// Create a new output parser exception with LLM feedback context.
    ///
    /// Context may only be marked for sending back to the LLM when both the
    /// observation and the LLM output are present.
    pub fn with_llm_context(
        message: &str,
        observation: Option<String>,
        llm_output: Option<String>,
        send_to_llm: bool,
    ) -> (r: Self)
        requires
            send_to_llm ==> observation is Some && llm_output is Some,
        ensures
            r.message@ == message@,
            r.error_code == ErrorCode::OutputParsingFailure,
            r.observation == observation,
            r.llm_output == llm_output,
            r.send_to_llm == send_to_llm,
    {
        OutputParserException {
            message: message.to_owned(),
            error_code: ErrorCode::OutputParsingFailure,
            observation,
            llm_output,
            send_to_llm,
        }
    }

    /// Get the observation for LLM feedback
    pub fn observation(&self) -> (r: Option<&str>)
        ensures
            r is Some <==> self.observation is Some,
            r is Some ==> r->0@ == self.observation->0@,
    {
        match &self.observation {
            Some(s) => Some(s.as_str()),
            None => None,
        }
    }

    /// Get the LLM output that caused the error
    pub fn llm_output(&self) -> (r: Option<&str>)
        ensures
            r is Some <==> self.llm_output is Some,
            r is Some ==> r->0@ == self.llm_output->0@,
    {
        match &self.llm_output {
            Some(s) => Some(s.as_str()),
            None => None,
        }
    }

    /// Check if this error should be sent back to the LLM
    pub fn should_send_to_llm(&self) -> (r: bool)
        ensures
            r == self.send_to_llm,
    {
        self.send_to_llm
    }

    /// Render the exception as text, in the form `Output parser error: <message>`.
    pub fn to_string(&self) -> (r: String)
        ensures
            r@ == "Output parser error: "@ + self.message@,
    {
        let mut s = String::new();
        s.append("Output parser error: ");
        s.append(self.message.as_str());
        s
    }
}

/// Main error type for FerricLink Core
#[derive(Debug, Clone)]
pub enum FerricLinkError {
    /// General FerricLink exception
    General(String),
    /// Tracer-related errors
    Tracer(TracerException),
    /// Output parser errors with special handling
    OutputParser(OutputParserException),
    /// Validation errors
    Validation(String),
    /// Configuration errors
    Configuration(String),
    /// Runtime errors
    Runtime(String),
    /// Not implemented errors
    NotImplemented(String),
    /// Generic errors
    Generic(String),
}

/// The error code that `FerricLinkError::error_code` reads off a `General`
/// message: the first error-code name found in the message, in this fixed
/// order of precedence, and `GenericError` when none occurs.
pub open spec fn spec_general_code(m: Seq<u8>) -> ErrorCode {
    if bytes_contain(m, "INVALID_PROMPT_INPUT".spec_bytes()) {
        ErrorCode::InvalidPromptInput
    } else if bytes_contain(m, "INVALID_TOOL_RESULTS".spec_bytes()) {
        ErrorCode::InvalidToolResults
    } else if bytes_contain(m, "MESSAGE_COERCION_FAILURE".spec_bytes()) {
        ErrorCode::MessageCoercionFailure
    } else if bytes_contain(m, "MODEL_AUTHENTICATION".spec_bytes()) {
        ErrorCode::ModelAuthentication
    } else if bytes_contain(m, "MODEL_NOT_FOUND".spec_bytes()) {
        ErrorCode::ModelNotFound
    } else if bytes_contain(m, "MODEL_RATE_LIMIT".spec_bytes()) {
        ErrorCode::ModelRateLimit
    } else if bytes_contain(m, "OUTPUT_PARSING_FAILURE".spec_bytes()) {
        ErrorCode::OutputParsingFailure
    } else {
        ErrorCode::GenericError
    }
}

impl FerricLinkError {
    /// The error code of each variant, as `error_code` reports it.
    pub open spec fn spec_error_code(self) -> Option<ErrorCode> {
        match self {
            FerricLinkError::Tracer(e) => Some(e.error_code),
            FerricLinkError::OutputParser(e) => Some(e.error_code),
            FerricLinkError::Validation(_) => Some(ErrorCode::ValidationError),
            FerricLinkError::Configuration(_) => Some(ErrorCode::ConfigurationError),
            FerricLinkError::Runtime(_) => Some(ErrorCode::RuntimeError),
            FerricLinkError::NotImplemented(_) => Some(ErrorCode::NotImplemented),
            FerricLinkError::General(msg) => Some(spec_general_code(vstd::utf8::encode_utf8(msg@))),
            FerricLinkError::Generic(_) => Some(ErrorCode::GenericError),
        }
    }

    /// Create a new general FerricLink error
    pub fn general(msg: &str) -> (r: Self)
        ensures
            r matches FerricLinkError::General(m) && m@ == msg@,
    {
        FerricLinkError::General(msg.to_owned())
    }

    /// Create a new validation error
    pub fn validation(msg: &str) -> (r: Self)
        ensures
            r matches FerricLinkError::Validation(m) && m@ == msg@,
    {
        FerricLinkError::Validation(msg.to_owned())
    }

    /// Create a new configuration error
    pub fn configuration(msg: &str) -> (r: Self)
        ensures
            r matches FerricLinkError::Configuration(m) && m@ == msg@,
    {
        FerricLinkError::Configuration(msg.to_owned())
    }

    /// Create a new runtime error
    pub fn runtime(msg: &str) -> (r: Self)
        ensures
            r matches FerricLinkError::Runtime(m) && m@ == msg@,
    {
        FerricLinkError::Runtime(msg.to_owned())
    }

    /// Create a new not implemented error
    pub fn not_implemented(msg: &str) -> (r: Self)
        ensures
            r matches FerricLinkError::NotImplemented(m) && m@ == msg@,
    {
        FerricLinkError::NotImplemented(msg.to_owned())
    }

    /// Create a new generic error
    pub fn generic(msg: &str) -> (r: Self)
        ensures
            r matches FerricLinkError::Generic(m) && m@ == msg@,
    {
        FerricLinkError::Generic(msg.to_owned())
    }

    /// Get the error code if available
    pub fn error_code(&self) -> (r: Option<ErrorCode>)
        ensures
            r == self.spec_error_code(),
    {
        match self {
            FerricLinkError::Tracer(e) => Some(e.error_code),
            FerricLinkError::OutputParser(e) => Some(e.error_code),
            FerricLinkError::Validation(_) => Some(ErrorCode::ValidationError),
            FerricLinkError::Configuration(_) => Some(ErrorCode::ConfigurationError),
            FerricLinkError::Runtime(_) => Some(ErrorCode::RuntimeError),
            FerricLinkError::NotImplemented(_) => Some(ErrorCode::NotImplemented),
            FerricLinkError::General(msg) => {
                if contains_str(msg.as_str(), "INVALID_PROMPT_INPUT") {
                    Some(ErrorCode::InvalidPromptInput)
                } else if contains_str(msg.as_str(), "INVALID_TOOL_RESULTS") {
                    Some(ErrorCode::InvalidToolResults)
                } else if contains_str(msg.as_str(), "MESSAGE_COERCION_FAILURE") {
                    Some(ErrorCode::MessageCoercionFailure)
                } else if contains_str(msg.as_str(), "MODEL_AUTHENTICATION") {
                    Some(ErrorCode::ModelAuthentication)
                } else if contains_str(msg.as_str(), "MODEL_NOT_FOUND") {
                    Some(ErrorCode::ModelNotFound)
                } else if contains_str(msg.as_str(), "MODEL_RATE_LIMIT") {
                    Some(ErrorCode::ModelRateLimit)
                } else if contains_str(msg.as_str(), "OUTPUT_PARSING_FAILURE") {
                    Some(ErrorCode::OutputParsingFailure)
                } else {
                    Some(ErrorCode::GenericError)
                }
            },
            FerricLinkError::Generic(_) => Some(ErrorCode::GenericError),
        }
    }

    /// Check if this is an output parser error that should be sent to LLM
    pub fn should_send_to_llm(&self) -> (r: bool)
        ensures
            r == (self matches FerricLinkError::OutputParser(e) && e.send_to_llm),
    {
        match self {
            FerricLinkError::OutputParser(e) => e.should_send_to_llm(),
            _ => false,
        }
    }

    /// Get LLM context if this is an output parser error
    pub fn llm_context(&self) -> (r: Option<(Option<&str>, Option<&str>)>)
        ensures
            r is Some <==> self matches FerricLinkError::OutputParser(_),
            self matches FerricLinkError::OutputParser(e) ==> ({
                let (obs, out) = r->0;
                &&& obs is Some <==> e.observation is Some
                &&& obs is Some ==> obs->0@ == e.observation->0@
                &&& out is Some <==> e.llm_output is Some
                &&& out is Some ==> out->0@ == e.llm_output->0@
            }),
    {
        match self {
            FerricLinkError::OutputParser(e) => Some((e.observation(), e.llm_output())),
            _ => None,
        }
    }
}

/// Create an error message with troubleshooting link.
///
/// The message carries the error-code name and a link to the troubleshooting
/// guide for that code.
pub fn create_error_message(message: &str, error_code: ErrorCode) -> (r: String)
    ensures
        r@ == message@ + "\nError Code: "@ + error_code.spec_str()
            + "\nFor troubleshooting, visit: "@ + error_code.spec_troubleshooting_url(),
{
    let mut s = String::new();
    s.append(message);
    s.append("\nError Code: ");
    s.append(error_code.as_str());
    s.append("\nFor troubleshooting, visit: ");
    let url = error_code.troubleshooting_url();
    s.append(url.as_str());
    s
}

/// The text that `create_error_message` produces, as a sequence of characters.
pub open spec fn spec_error_message(message: Seq<char>, error_code: ErrorCode) -> Seq<char> {
    message + "\nError Code: "@ + error_code.spec_str() + "\nFor troubleshooting, visit: "@
        + error_code.spec_troubleshooting_url()
}

impl FerricLinkError {
    /// Create a new error with error code and troubleshooting link
    pub fn with_code(msg: &str, error_code: ErrorCode) -> (r: Self)
        ensures
            r matches FerricLinkError::General(m) && m@ == spec_error_message(msg@, error_code),
    {
        let message = create_error_message(msg, error_code);
        FerricLinkError::General(message)
    }

    /// Create an invalid prompt input error
    pub fn invalid_prompt_input(msg: &str) -> (r: Self)
        ensures
            r matches FerricLinkError::General(m)
                && m@ == spec_error_message(msg@, ErrorCode::InvalidPromptInput),
    {
        FerricLinkError::General(create_error_message(msg, ErrorCode::InvalidPromptInput))
    }

    /// Create an invalid tool results error
    pub fn invalid_tool_results(msg: &str) -> (r: Self)
        ensures
            r matches FerricLinkError::General(m)
                && m@ == spec_error_message(msg@, ErrorCode::InvalidToolResults),
    {
        FerricLinkError::General(create_error_message(msg, ErrorCode::InvalidToolResults))
    }

    /// Create a message coercion failure error
    pub fn message_coercion_failure(msg: &str) -> (r: Self)
        ensures
            r matches FerricLinkError::General(m)
                && m@ == spec_error_message(msg@, ErrorCode::MessageCoercionFailure),
    {
        FerricLinkError::General(create_error_message(msg, ErrorCode::MessageCoercionFailure))
    }

    /// Create a model authentication error
    pub fn model_authentication(msg: &str) -> (r: Self)
        ensures
            r matches FerricLinkError::General(m)
                && m@ == spec_error_message(msg@, ErrorCode::ModelAuthentication),
    {
        FerricLinkError::General(create_error_message(msg, ErrorCode::ModelAuthentication))
    }

    /// Create a model not found error
    pub fn model_not_found(msg: &str) -> (r: Self)
        ensures
            r matches FerricLinkError::General(m)
                && m@ == spec_error_message(msg@, ErrorCode::ModelNotFound),
    {
        FerricLinkError::General(create_error_message(msg, ErrorCode::ModelNotFound))
    }

    /// Create a model rate limit error
    pub fn model_rate_limit(msg: &str) -> (r: Self)
        ensures
            r matches FerricLinkError::General(m)
                && m@ == spec_error_message(msg@, ErrorCode::ModelRateLimit),
    {
        FerricLinkError::General(create_error_message(msg, ErrorCode::ModelRateLimit))
    }

    /// Create an output parsing failure error
    pub fn output_parsing_failure(msg: &str) -> (r: Self)
        ensures
            r matches FerricLinkError::General(m)
                && m@ == spec_error_message(msg@, ErrorCode::OutputParsingFailure),
    {
        FerricLinkError::General(create_error_message(msg, ErrorCode::OutputParsingFailure))
    }

    /// Create a new error with specific error code (for testing and internal use)
    pub fn with_error_code(msg: &str, error_code: ErrorCode) -> (r: Self)
        ensures
            match error_code {
                ErrorCode::SerializationError | ErrorCode::ValidationError
                    => r matches FerricLinkError::Validation(m) && m@ == msg@,
                ErrorCode::IoError | ErrorCode::HttpError | ErrorCode::RuntimeError
                    => r matches FerricLinkError::Runtime(m) && m@ == msg@,
                ErrorCode::ConfigurationError
                    => r matches FerricLinkError::Configuration(m) && m@ == msg@,
                ErrorCode::NotImplemented
                    => r matches FerricLinkError::NotImplemented(m) && m@ == msg@,
                ErrorCode::GenericError => r matches FerricLinkError::Generic(m) && m@ == msg@,
                _ => r matches FerricLinkError::General(m)
                    && m@ == spec_error_message(msg@, error_code),
            },
    {
        match error_code {
            ErrorCode::InvalidPromptInput => Self::invalid_prompt_input(msg),
            ErrorCode::InvalidToolResults => Self::invalid_tool_results(msg),
            ErrorCode::MessageCoercionFailure => Self::message_coercion_failure(msg),
            ErrorCode::ModelAuthentication => Self::model_authentication(msg),
            ErrorCode::ModelNotFound => Self::model_not_found(msg),
            ErrorCode::ModelRateLimit => Self::model_rate_limit(msg),
            ErrorCode::OutputParsingFailure => Self::output_parsing_failure(msg),
            ErrorCode::SerializationError => Self::validation(msg),
            ErrorCode::IoError => Self::runtime(msg),
            ErrorCode::HttpError => Self::runtime(msg),
            ErrorCode::ValidationError => Self::validation(msg),
            ErrorCode::ConfigurationError => Self::configuration(msg),
            ErrorCode::RuntimeError => Self::runtime(msg),
            ErrorCode::NotImplemented => Self::not_implemented(msg),
            ErrorCode::GenericError => Self::generic(msg),
        }
    }

    /// Render the error as text, with the same prefixes the error reports
    /// through its display implementation in the surrounding application.
    pub fn to_string(&self) -> (r: String)
        ensures
            r@ == match *self {
                FerricLinkError::General(ref m) => "FerricLink error: "@ + m@,
                FerricLinkError::Tracer(ref e) => "Tracer error: Tracer error: "@ + e.message@,
                FerricLinkError::OutputParser(ref e)
                    => "Output parser error: Output parser error: "@ + e.message@,
                FerricLinkError::Validation(ref m) => "Validation error: "@ + m@,
                FerricLinkError::Configuration(ref m) => "Configuration error: "@ + m@,
                FerricLinkError::Runtime(ref m) => "Runtime error: "@ + m@,
                FerricLinkError::NotImplemented(ref m) => "Not implemented: "@ + m@,
                FerricLinkError::Generic(ref m) => "Error: "@ + m@,
            },
    {
        let mut s = String::new();
        match self {
            FerricLinkError::General(m) => {
                s.append("FerricLink error: ");
                s.append(m.as_str());
            },
            FerricLinkError::Tracer(e) => {
                s.append("Tracer error: ");
                let inner = e.to_string();
                s.append(inner.as_str());
                proof {
                    reveal_strlit("Tracer error: ");
                    reveal_strlit("Tracer error: Tracer error: ");
                    assert(s@ =~= "Tracer error: Tracer error: "@ + e.message@);
                }
            },
            FerricLinkError::OutputParser(e) => {
                s.append("Output parser error: ");
                let inner = e.to_string();
                s.append(inner.as_str());
                proof {
                    reveal_strlit("Output parser error: ");
                    reveal_strlit("Output parser error: Output parser error: ");
                    assert(s@ =~= "Output parser error: Output parser error: "@ + e.message@);
                }
            },
            FerricLinkError::Validation(m) => {
                s.append("Validation error: ");
                s.append(m.as_str());
            },
            FerricLinkError::Configuration(m) => {
                s.append("Configuration error: ");
                s.append(m.as_str());
            },
            FerricLinkError::Runtime(m) => {
                s.append("Runtime error: ");
                s.append(m.as_str());
            },
            FerricLinkError::NotImplemented(m) => {
                s.append("Not implemented: ");
                s.append(m.as_str());
            },
            FerricLinkError::Generic(m) => {
                s.append("Error: ");
                s.append(m.as_str());
            },
        }
        s
    }
}

} // verus!
