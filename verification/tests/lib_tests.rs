use std::cell::RefCell;
use workpool::arith::{add, add_one, add_two};
use workpool::rect::Rectangle;
use workpool::tracker::{LimitTracker, Messenger};

#[test]
fn it_works() {
    let result = add(2, 2);
    assert_eq!(result, 4);
}

#[test]
fn lib_it_works() {
    assert_eq!(3, add_one(2));
}

#[test]
fn larger_can_hold_smaller() {
    let larger = Rectangle { width: 8, height: 7 };
    let smaller = Rectangle { width: 5, height: 1 };

    assert!(larger.can_hold(&smaller));
}

#[test]
fn smaller_cannot_hold_larger() {
    let larger = Rectangle { width: 8, height: 7 };
    let smaller = Rectangle { width: 5, height: 1 };

    assert!(!smaller.can_hold(&larger));
}

#[test]
fn it_adds_two() {
    assert_eq!(4, add_two(2));
    assert_ne!(5, add_two(2));
}

#[test]
fn integration_test_it_adds_two() {
    assert_eq!(4, add_two(2));
}

#[test]
#[should_panic]
fn greater_than_100() {
    let result = add(100, 10);
    assert_eq!(result, 101);
}

#[test]
fn it_works_result() -> Result<(), String> {
    if 2 + 2 == 4 {
        Ok(())
    } else {
        Err(String::from("two plus two does not equal four"))
    }
}

struct MockMessenger {
    sent_messages: RefCell<Vec<String>>,
}

impl MockMessenger {
    fn new() -> MockMessenger {
        MockMessenger { sent_messages: RefCell::new(vec![]) }
    }
}

impl Messenger for MockMessenger {
    fn send(&self, message: &str) {
        self.sent_messages.borrow_mut().push(String::from(message));
    }
}

#[test]
fn it_sends_an_over_75_percent_warning_message() {
    let mock_messenger = MockMessenger::new();
    let mut limit_tracker = LimitTracker::new(&mock_messenger, 100);

    limit_tracker.set_value(80);

    assert_eq!(mock_messenger.sent_messages.borrow().len(), 1);
}

#[test]
fn limit_tracker_message_levels() {
    let mock_messenger = MockMessenger::new();
    let mut limit_tracker = LimitTracker::new(&mock_messenger, 100);

    limit_tracker.set_value(50);
    assert!(mock_messenger.sent_messages.borrow().is_empty());

    limit_tracker.set_value(80);
    limit_tracker.set_value(95);
    limit_tracker.set_value(100);
    let sent = mock_messenger.sent_messages.borrow();
    assert_eq!(
        *sent,
        vec![
            String::from("Warning: You've used up over 75% of your quota!"),
            String::from("Urgent warning: You've used up over 90% of your quota!"),
            String::from("Error: You are over your quota!"),
        ]
    );
}

#[test]
fn limit_tracker_zero_max() {
    let mock_messenger = MockMessenger::new();
    let mut limit_tracker = LimitTracker::new(&mock_messenger, 0);

    limit_tracker.set_value(0);
    assert!(mock_messenger.sent_messages.borrow().is_empty());

    limit_tracker.set_value(1);
    assert_eq!(
        *mock_messenger.sent_messages.borrow(),
        vec![String::from("Error: You are over your quota!")]
    );
}
