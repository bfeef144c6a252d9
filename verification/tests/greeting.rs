use command_bridge::greet;

#[test]
fn test_greet_returns_correct_greeting_message() {
    let name = "Alice";
    let result = greet(name);
    assert_eq!(result, "Hello, Alice! You've been greeted from Rust!");
}

#[test]
fn test_greet_with_different_name() {
    let name = "Bob";
    let result = greet(name);
    assert_eq!(result, "Hello, Bob! You've been greeted from Rust!");
}

#[test]
fn test_greet_with_empty_string() {
    let name = "";
    let result = greet(name);
    assert_eq!(result, "Hello, ! You've been greeted from Rust!");
}

#[test]
fn greet_keeps_the_name_verbatim() {
    let result = greet("  spaced  name\t");
    assert_eq!(result, "Hello,   spaced  name\t! You've been greeted from Rust!");
}

#[test]
fn greet_keeps_non_ascii_names() {
    let result = greet("Zo\u{eb}");
    assert_eq!(result, "Hello, Zo\u{eb}! You've been greeted from Rust!");
}
