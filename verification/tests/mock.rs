use rust_concepts::mock::{quota_warning, LimitTracker, Messager};
use std::cell::RefCell;

struct MockMessager {
    sent_messages: RefCell<Vec<String>>,
}

impl MockMessager {
    fn new() -> MockMessager {
        MockMessager {
            sent_messages: RefCell::new(vec![]),
        }
    }
}

impl Messager for MockMessager {
    fn send(&self, message: &str) {
        self.sent_messages.borrow_mut().push(String::from(message));
    }
}

#[test]
fn mock_it_sends_an_over_75_percent_warning() {
    let mock_messager = MockMessager::new();
    let mut limit_tracker = LimitTracker::new(&mock_messager, 100);

    limit_tracker.set_value(80);
    assert_eq!(mock_messager.sent_messages.borrow().len(), 1);
}

#[test]
fn tracker_sends_the_chosen_text() {
    let mock_messager = MockMessager::new();
    let mut limit_tracker = LimitTracker::new(&mock_messager, 100);
    limit_tracker.set_value(10);
    limit_tracker.set_value(80);
    limit_tracker.set_value(95);
    limit_tracker.set_value(100);
    limit_tracker.set_value(75);
    assert_eq!(
        *mock_messager.sent_messages.borrow(),
        vec![
            "Warning: You've used up over 75% of your quota!",
            "Urgent warning: You've used up over 90% of your quota!",
            "Error: You are over your quota!",
        ]
    );
}

#[test]
fn warning_thresholds() {
    assert_eq!(quota_warning(0, 100), None);
    assert_eq!(quota_warning(75, 100), None);
    assert_eq!(
        quota_warning(76, 100),
        Some("Warning: You've used up over 75% of your quota!")
    );
    assert_eq!(
        quota_warning(89, 100),
        Some("Warning: You've used up over 75% of your quota!")
    );
    assert_eq!(
        quota_warning(90, 100),
        Some("Urgent warning: You've used up over 90% of your quota!")
    );
    assert_eq!(
        quota_warning(99, 100),
        Some("Urgent warning: You've used up over 90% of your quota!")
    );
    assert_eq!(
        quota_warning(100, 100),
        Some("Error: You are over your quota!")
    );
    assert_eq!(
        quota_warning(250, 100),
        Some("Error: You are over your quota!")
    );
}

#[test]
fn warning_without_quota() {
    assert_eq!(quota_warning(0, 0), None);
    assert_eq!(quota_warning(1, 0), Some("Error: You are over your quota!"));
}

#[test]
fn warning_on_the_largest_numbers() {
    assert_eq!(
        quota_warning(usize::MAX, usize::MAX),
        Some("Error: You are over your quota!")
    );
    assert_eq!(quota_warning(usize::MAX / 2, usize::MAX), None);
    assert_eq!(
        quota_warning(usize::MAX - 1, usize::MAX),
        Some("Urgent warning: You've used up over 90% of your quota!")
    );
}
