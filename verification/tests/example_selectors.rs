//! Tests for the example selectors.

use ferriclink_core::example_selectors::{
    sorted_values, BaseExampleSelector, Example, LengthBasedExampleSelector,
};

fn example(pairs: &[(&str, &str)]) -> Example {
    pairs
        .iter()
        .map(|(k, v)| (k.to_string(), v.to_string()))
        .collect()
}

fn create_test_examples() -> Vec<Example> {
    vec![
        example(&[("input", "What is AI?")]),
        example(&[("input", "How does machine learning work?")]),
        example(&[("input", "Explain neural networks")]),
    ]
}

#[test]
fn test_length_based_selector_basic() {
    let examples = create_test_examples();
    let selector = LengthBasedExampleSelector::with_word_count(examples, 10);

    let input = example(&[("input", "Tell me about AI")]);

    let selected = selector.select_examples(&input).unwrap();
    assert!(!selected.is_empty());
    assert!(selected.len() <= 3);
}

#[test]
fn test_length_based_selector_add_example() {
    let examples = create_test_examples();
    let mut selector = LengthBasedExampleSelector::with_word_count(examples, 20);

    let new_example = example(&[("input", "What is deep learning?")]);

    selector.add_example(new_example).unwrap();
    assert_eq!(selector.len(), 4);
}

#[test]
fn test_length_based_selector_max_length() {
    let examples = create_test_examples();
    let selector = LengthBasedExampleSelector::with_word_count(examples, 5);

    let input = example(&[("input", "AI question")]);

    let selected = selector.select_examples(&input).unwrap();
    // Should select fewer examples due to length constraint
    assert!(selected.len() <= 3);
}

#[test]
fn test_sorted_values() {
    let mut example: Example = Vec::new();
    example.push(("z".to_string(), "last".to_string()));
    example.push(("a".to_string(), "first".to_string()));
    example.push(("m".to_string(), "middle".to_string()));

    let sorted = sorted_values(&example);
    assert_eq!(sorted, vec!["first", "middle", "last"]);
}

#[test]
fn test_length_based_selector_empty() {
    let selector = LengthBasedExampleSelector::with_word_count(vec![], 10);
    assert!(selector.is_empty());

    let input = example(&[("input", "test")]);

    let selected = selector.select_examples(&input).unwrap();
    assert!(selected.is_empty());
}

#[test]
fn test_word_count() {
    assert_eq!(LengthBasedExampleSelector::default_text_length(""), 0);
    assert_eq!(LengthBasedExampleSelector::default_text_length("   "), 0);
    assert_eq!(LengthBasedExampleSelector::default_text_length("one"), 1);
    assert_eq!(LengthBasedExampleSelector::default_text_length("two words"), 2);
    assert_eq!(LengthBasedExampleSelector::default_text_length("  spaced   out\twords\n"), 3);
}

#[test]
fn test_char_length() {
    assert_eq!(LengthBasedExampleSelector::char_length(""), 0);
    assert_eq!(LengthBasedExampleSelector::char_length("abc"), 3);
}

#[test]
fn test_with_char_count_budget() {
    // "aa bb" has 5 bytes; with a budget of 11 the first two one-pair
    // examples fit (5 + 5), leaving no room for a third.
    let examples = vec![
        example(&[("input", "aa bb")]),
        example(&[("input", "cc dd")]),
        example(&[("input", "ee ff")]),
    ];
    let selector = LengthBasedExampleSelector::with_char_count(examples, 10);
    let input = example(&[]);
    let selected = selector.select_examples(&input).unwrap();
    assert_eq!(selected.len(), 2);
}

#[test]
fn test_example_to_text_sorts_and_joins() {
    let selector = LengthBasedExampleSelector::with_word_count(vec![], 10);
    let ex = example(&[("b", "zebra"), ("a", "apple")]);
    let text = selector.example_to_text(&ex);
    // values sorted lexicographically and joined with a single space
    assert_eq!(text, "apple zebra");
}
