use std::cell::RefCell;

use session_pool::guess::Guess;
use session_pool::limit::LimitTracker;
use session_pool::limit::Messenger;
use session_pool::rect::Rectangle;

#[test]
fn test_add() {
    let result = session_pool::add(2, 2);
    assert_eq!(result, 4);
}

#[test]
fn it_works() {
    let result = session_pool::add(2, 2);
    assert_eq!(result, 4);
}

#[test]
fn larger_can_hold_smaller() {
    let larger = Rectangle { width: 8, height: 7 };
    let smaller = Rectangle { width: 5, height: 1 };
    assert!(larger.can_hold(&smaller));
}

#[test]
fn smaller_cannot_hold_larger() {
    let larger = Rectangle { width: 8, height: 7 };
    let smaller = Rectangle { width: 5, height: 1 };
    assert!(!smaller.can_hold(&larger));
}

#[test]
fn greeting_contains_name() {
    let name = "Carol";
    let result = format!("Hello {name}!");
    assert!(
        result.contains(name),
        "Greeting did not contain name, value was `{}`",
        result
    );
}

#[test]
fn test_add_two_result() -> Result<(), String> {
    let result = session_pool::add_two(2);
    if result == 4 {
        Ok(())
    } else {
        Err(format!("Expected 4, got {}", result))
    }
}

#[test]
fn guess_accepts_boundaries() {
    assert_eq!(Guess::new(1).value, 1);
    assert_eq!(Guess::new(100).value, 100);
    assert_eq!(Guess::new(50).value, 50);
}

struct MockMessenger {
    sent_messages: RefCell<Vec<String>>,
}

impl MockMessenger {
    fn new() -> MockMessenger {
        MockMessenger { sent_messages: RefCell::new(Vec::new()) }
    }
}

impl Messenger for MockMessenger {
    fn send(&self, message: &str) {
        self.sent_messages.borrow_mut().push(String::from(message));
    }
}

#[test]
fn it_sends_an_over_75_percent_warning_message() {
    let mock_messenger = MockMessenger::new();
    let mut limit_tracker = LimitTracker::new(&mock_messenger, 100);
    limit_tracker.set_value(80);
    assert_eq!(mock_messenger.sent_messages.borrow().len(), 1);
}

#[test]
fn warning_levels_cross_thresholds() {
    assert_eq!(session_pool::limit::warning_level_of(0, 100), 0);
    assert_eq!(session_pool::limit::warning_level_of(74, 100), 0);
    assert_eq!(session_pool::limit::warning_level_of(75, 100), 1);
    assert_eq!(session_pool::limit::warning_level_of(89, 100), 1);
    assert_eq!(session_pool::limit::warning_level_of(90, 100), 2);
    assert_eq!(session_pool::limit::warning_level_of(99, 100), 2);
    assert_eq!(session_pool::limit::warning_level_of(100, 100), 3);
    assert_eq!(session_pool::limit::warning_level_of(150, 100), 3);
    assert_eq!(session_pool::limit::warning_level_of(0, 0), 0);
    assert_eq!(session_pool::limit::warning_level_of(1, 0), 3);
}
