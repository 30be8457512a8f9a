//! Tests for the crate-level items and the small data types: version,
//! namespaces, query enums, combine methods, callback handlers, mock
//! models and text utilities.

use ferriclink_core::callbacks::{
    colored_console_callback_handler, console_callback_handler,
    verbose_colored_console_callback_handler, verbose_console_callback_handler,
    ConsoleCallbackHandler,
};
use ferriclink_core::embeddings::{mock_embeddings, MockEmbeddings};
use ferriclink_core::language_models::{mock_chat_model, mock_llm, Generation, MockChatModel, MockLLM};
use ferriclink_core::caches::CacheStats;
use ferriclink_core::rate_limiters::RateLimiterConfig;
use ferriclink_core::retrievers::CombineMethod;
use ferriclink_core::runnables;
use ferriclink_core::serializable::Serializable;
use ferriclink_core::structured_query::{Comparator, Function, Operator};
use ferriclink_core::utils::{get_bolded_text, get_color_mapping, get_colored_text};
use ferriclink_core::VERSION;

#[test]
fn test_version() {
    // VERSION is a const string that can never be empty, so we just check it's not the default
    assert_ne!(VERSION, "", "Version should not be empty");
}

struct TestMessage {
    #[allow(dead_code)]
    content: String,
    #[allow(dead_code)]
    message_type: String,
}

impl Serializable for TestMessage {
    fn namespace() -> Vec<String> {
        vec![
            "ferriclink".to_string(),
            "messages".to_string(),
            "test".to_string(),
        ]
    }
}

#[test]
fn test_namespace() {
    let namespace = TestMessage::namespace();
    assert_eq!(namespace, vec!["ferriclink", "messages", "test"]);
}

#[test]
fn test_library_namespaces() {
    assert_eq!(
        CacheStats::namespace(),
        vec!["ferriclink", "caches", "cache_stats"]
    );
    assert_eq!(
        RateLimiterConfig::namespace(),
        vec!["ferriclink", "rate_limiters", "rate_limiter_config"]
    );
    assert!(CacheStats::is_serializable());
}

#[test]
fn test_display_traits() {
    assert_eq!(Operator::And.to_string(), "and");
    assert_eq!(Operator::Or.to_string(), "or");
    assert_eq!(Operator::Not.to_string(), "not");

    assert_eq!(Comparator::Eq.to_string(), "eq");
    assert_eq!(Comparator::Gt.to_string(), "gt");
    assert_eq!(Comparator::Contain.to_string(), "contain");
}

#[test]
fn test_function_classification() {
    assert_eq!(Operator::And.as_operator(), Some(Operator::And));
    assert_eq!(Operator::And.as_comparator(), None);
    assert_eq!(Comparator::Lte.as_comparator(), Some(Comparator::Lte));
    assert_eq!(Comparator::Lte.as_operator(), None);
}

#[test]
fn test_combine_methods() {
    assert_eq!(CombineMethod::default(), CombineMethod::Union);
}

#[test]
fn test_console_callback_handler() {
    let handler = ConsoleCallbackHandler::new();
    assert!(!handler.verbose);
    assert!(handler.color.is_none());

    let handler = ConsoleCallbackHandler::new_with_verbose(true);
    assert!(handler.verbose);

    let handler = ConsoleCallbackHandler::new_with_color("blue");
    assert_eq!(handler.color.as_deref(), Some("blue"));

    let handler = ConsoleCallbackHandler::new_with_verbose_and_color(true, "red");
    assert!(handler.verbose);
    assert_eq!(handler.color.as_deref(), Some("red"));
}

#[test]
fn test_callback_handler_helpers() {
    assert!(!console_callback_handler().verbose);
    assert!(verbose_console_callback_handler().verbose);
    assert_eq!(
        colored_console_callback_handler("green").color.as_deref(),
        Some("green")
    );
    let handler = verbose_colored_console_callback_handler(true, "pink");
    assert!(handler.verbose);
    assert_eq!(handler.color.as_deref(), Some("pink"));
}

#[test]
fn runnables_test_console_callback_handler() {
    let handler = runnables::ConsoleCallbackHandler::new();
    assert!(handler.color.is_none());
    let handler = runnables::ConsoleCallbackHandler::new_with_color("blue");
    assert_eq!(handler.color.as_deref(), Some("blue"));
}

#[test]
fn test_generation() {
    let generation = Generation::new("Hello, world!");
    assert_eq!(generation.text, "Hello, world!");
    assert!(generation.generation_info.is_empty());
}

#[test]
fn test_mock_llm() {
    let mut llm = MockLLM::new("test-llm").add_response("first").add_response("second");
    assert_eq!(llm.model_name(), "test-llm");
    assert_eq!(llm.get_next_response(), "first");
    assert_eq!(llm.get_next_response(), "second");
    assert_eq!(llm.get_next_response(), "first");

    let mut empty = mock_llm("empty");
    assert_eq!(empty.get_next_response(), "Mock response");
}

#[test]
fn test_mock_chat_model() {
    let mut chat = MockChatModel::new("test-chat").add_response("hi");
    assert_eq!(chat.model_name(), "test-chat");
    assert_eq!(chat.get_next_response(), "hi");

    let mut empty = mock_chat_model("empty");
    assert_eq!(empty.get_next_response(), "Mock chat response");
}

#[test]
fn test_mock_embeddings() {
    let embeddings = MockEmbeddings::new("test-embeddings", 128);
    assert_eq!(embeddings.model_name(), "test-embeddings");
    assert_eq!(embeddings.dimension(), 128);

    let embeddings = mock_embeddings("helper", 4);
    assert_eq!(embeddings.dimension(), 4);
}

#[test]
fn test_colored_text() {
    let blue = get_colored_text("hello", "blue");
    assert_eq!(blue, "\x1b[36;1mhello\x1b[0m");
    let unknown = get_colored_text("hello", "mauve");
    assert_eq!(unknown, "\x1b[0mhello\x1b[0m");
    let bold = get_bolded_text("hi");
    assert_eq!(bold, "\x1b[1mhi\x1b[0m");
}

#[test]
fn test_color_mapping_cycles() {
    let items: Vec<String> = (0..7).map(|i| format!("item{i}")).collect();
    let mapping = get_color_mapping(&items, None);
    assert_eq!(mapping.len(), 7);
    assert_eq!(mapping[0].0, "item0");
    assert_eq!(mapping[0].1, "blue");
    assert_eq!(mapping[4].1, "red");
    // the palette cycles
    assert_eq!(mapping[5].1, "blue");
}

#[test]
fn test_color_mapping_excludes() {
    let items: Vec<String> = vec!["a".to_string(), "b".to_string()];
    let excluded = vec!["blue".to_string(), "yellow".to_string()];
    let mapping = get_color_mapping(&items, Some(&excluded));
    assert_eq!(mapping.len(), 2);
    assert_eq!(mapping[0].1, "pink");
    assert_eq!(mapping[1].1, "green");
}
