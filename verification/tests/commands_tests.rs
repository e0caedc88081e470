use request_relay::commands::greet;

#[test]
fn greets_by_name() {
    assert_eq!(greet("World"), "Hello, World! You've been greeted from Rust!");
}

#[test]
fn greets_nobody() {
    assert_eq!(greet(""), "Hello, ! You've been greeted from Rust!");
}
