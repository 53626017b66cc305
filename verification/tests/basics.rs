use jingwei::harness::{HarnessBuilder, ServiceSlot};
use jingwei::json::decimal_text;
use jingwei::lifecycle::{acknowledge, count_failure, unheard_count};
use jingwei::text::{blank, same_text, size, text_within};
use jingwei::text_order::{comes_before, insert_name};
use jingwei::time::Duration;

#[test]
fn durations_add_and_compare_to_the_nanosecond() {
    let half = Duration::new(0, 500_000_000).unwrap();
    assert!(Duration::new(0, 1_000_000_000).is_none());
    assert_eq!(half.checked_add(half), Some(Duration::from_secs(1)));
    assert_eq!(Duration::from_secs(1).checked_sub(half), Some(half));
    assert_eq!(half.checked_sub(Duration::from_secs(1)), None);
    assert_eq!(half.saturating_sub(Duration::from_secs(1)), Duration::zero());
    assert_eq!(Duration::from_secs(u64::MAX).checked_add(Duration::from_secs(1)), None);
    assert_eq!(
        Duration::from_secs(u64::MAX).saturating_add(Duration::from_secs(1)),
        Duration::new(u64::MAX, 999_999_999).unwrap()
    );
    assert_eq!(half.as_micros(), 500_000);
    assert!(half.shorter_than(&Duration::from_secs(1)));
    assert_eq!(half.min(Duration::from_secs(1)), half);
}

#[test]
fn texts_are_measured_and_ordered() {
    assert!(blank(" \t\u{a0}\u{3000}"));
    assert!(!blank(" x"));
    assert!(blank(""));
    assert_eq!(size("aé€𝄞"), 10);
    assert!(text_within("abc", 3));
    assert!(!text_within("abcd", 3));
    assert!(same_text("a", "a") && !same_text("a", "b"));
    assert!(comes_before("a", "b") && comes_before("a", "aa") && !comes_before("b", "a"));
    let mut names: Vec<String> = vec![];
    for name in ["b", "a", "b", "c"] {
        insert_name(&mut names, &name.to_string());
    }
    assert_eq!(names, vec!["a".to_string(), "b".to_string(), "c".to_string()]);
    assert_eq!(decimal_text(0), "0");
    assert_eq!(decimal_text(u64::MAX), "18446744073709551615");
}

#[test]
fn failures_are_counted_per_turn() {
    let mut list = vec![];
    count_failure(&mut list, 1);
    count_failure(&mut list, 2);
    count_failure(&mut list, 1);
    assert_eq!(unheard_count(&list), 3);
    acknowledge(&mut list, 1);
    assert_eq!(unheard_count(&list), 1);
    acknowledge(&mut list, 9);
    assert_eq!(unheard_count(&list), 1);
}

#[test]
fn harnesses_remember_what_was_selected() {
    let builder = HarnessBuilder::new()
        .plugin("p".to_string())
        .select_llm("first".to_string())
        .select_llm("second".to_string())
        .select_agent_runtime("agents".to_string());
    assert_eq!(builder.plugins(), &vec!["p".to_string()]);
    assert_eq!(builder.selections().len(), 3);
    assert!(builder.required().contains(&ServiceSlot::AgentRuntime));
}
