use concurrency::formatting::{apply_format, apply_format_hrtb, SimpleFormatter};
use concurrency::logging::{attribute_log_message, expand_log_message, function_log_message, toto, toto_fields_suffix};
use concurrency::machine::{Machine, A};
use concurrency::wrapper::{range_sum, Wrapper};

#[test]
fn wrapper_accumulates() {
    let mut sum = Wrapper::new();
    assert_eq!(sum.value(), 0);
    sum.add(3);
    sum.add(-1);
    assert_eq!(sum.value(), 2);
}

#[test]
fn range_sum_has_exact_value() {
    // The sum of 1..=40000, split over four workers as the parallel
    // driver splits it.
    let mut total = Wrapper::new();
    for i in 0..4 {
        let start = i * 10000 + 1;
        total.add(range_sum(start, 10000));
    }
    assert_eq!(total.value(), 800020000);
    assert_eq!(range_sum(1, 40000), 800020000);
}

#[test]
fn range_sum_of_empty_range_is_zero() {
    assert_eq!(range_sum(5, 0), 0);
}

#[test]
fn machine_cycles_through_states() {
    let m = Machine::<A>::new();
    assert_eq!(m.state_text().as_str(), "a");
    let m = m.next();
    assert_eq!(m.state_text().as_str(), "ab");
    let m = m.next();
    assert_eq!(m.state_text().as_str(), "abc");
    let m = m.next();
    assert_eq!(m.state_text().as_str(), "abca");
    let m = m.next();
    assert_eq!(m.state_text().as_str(), "abcab");
}

#[test]
fn formatter_closures_render_text() {
    let format = apply_format(SimpleFormatter);
    let format_hrtb = apply_format_hrtb(SimpleFormatter);
    let s1 = String::from("haha");
    assert_eq!(format(&s1), "haha");
    let s = String::from("toto");
    assert_eq!(format(&s), "toto");
    assert_eq!(format_hrtb(&s), "toto");
}

#[test]
fn toto_returns_its_argument() {
    assert_eq!(toto(4), 4);
}

#[test]
fn log_message_substitutes_time() {
    let words = vec![
        "proc".to_owned(),
        "macro:".to_owned(),
        "TIME".to_owned(),
        "in".to_owned(),
        "function".to_owned(),
    ];
    let message = expand_log_message(&words, "12:34:56");
    assert_eq!(message, "[function proc macro]  proc macro: 12:34:56 in function");
    let live = function_log_message(&words);
    assert!(live.starts_with("[function proc macro]  proc macro: "));
    assert!(live.ends_with(" in function"));
}

#[test]
fn log_message_without_time_is_verbatim() {
    let words = vec!["hello".to_owned(), "world".to_owned()];
    let message = expand_log_message(&words, "12:34:56");
    assert_eq!(message, "[function proc macro]  hello world");
}

#[test]
fn derive_suffix_names_marked_fields() {
    let fields = vec![
        ("field1".to_owned(), false),
        ("field2".to_owned(), true),
    ];
    let suffix = toto_fields_suffix(&fields);
    assert_eq!(suffix, " | \"field2\" is toto");
}

#[test]
fn derive_suffix_is_empty_without_marks() {
    let fields = vec![("field1".to_owned(), false)];
    assert_eq!(toto_fields_suffix(&fields), "");
}

#[test]
fn attribute_message_is_exact() {
    let message = attribute_log_message("toto", "attr_arg");
    assert_eq!(
        message,
        "[attribute proc macro] Called the function \"toto\" with attribute macro arg \"attr_arg\""
    );
}
