use elelem::greeting::greet;

#[test]
fn greets_world() {
    assert_eq!(greet("World"), "Hello from Rust, World!");
}

#[test]
fn greets_empty_subject() {
    assert_eq!(greet(""), "Hello from Rust, !");
}

#[test]
fn keeps_subject_unchanged() {
    assert_eq!(greet("  Ada Lovelace  "), "Hello from Rust,   Ada Lovelace  !");
    assert_eq!(greet("wORLD"), "Hello from Rust, wORLD!");
}

#[test]
fn handles_non_ascii_subject() {
    assert_eq!(greet("Zoë"), "Hello from Rust, Zoë!");
}

#[test]
fn repeated_calls_agree() {
    let first = greet("World");
    let second = greet("World");
    assert_eq!(first, second);
    let third = greet("World");
    assert_eq!(second, third);
}
