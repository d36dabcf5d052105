use elelem::binding::HostError;
use elelem::binding::HostValue;
use elelem::binding::Registry;
use elelem::binding::hello_adapter;

fn text(s: &str) -> HostValue {
    HostValue::Text(s.to_string())
}

fn ready_registry() -> Registry {
    let mut reg = Registry::new();
    reg.init();
    reg
}

#[test]
fn adapter_greets_single_text_argument() {
    let args = vec![text("World")];
    assert_eq!(hello_adapter(&args), Ok("Hello from Rust, World!".to_string()));
}

#[test]
fn adapter_rejects_zero_arguments() {
    let args: Vec<HostValue> = Vec::new();
    assert_eq!(hello_adapter(&args), Err(HostError::InvalidArgument));
}

#[test]
fn adapter_rejects_two_arguments() {
    let args = vec![text("World"), text("again")];
    assert_eq!(hello_adapter(&args), Err(HostError::InvalidArgument));
}

#[test]
fn adapter_rejects_integer_argument() {
    let args = vec![HostValue::Integer(42)];
    assert_eq!(hello_adapter(&args), Err(HostError::InvalidArgument));
}

#[test]
fn adapter_rejects_boolean_and_nil_arguments() {
    assert_eq!(hello_adapter(&vec![HostValue::Boolean(true)]), Err(HostError::InvalidArgument));
    assert_eq!(hello_adapter(&vec![HostValue::Nil]), Err(HostError::InvalidArgument));
}

#[test]
fn registered_operation_is_reachable_by_name() {
    let reg = ready_registry();
    let r = reg.call(&"Elelem".to_string(), &"hello".to_string(), &vec![text("World")]);
    assert_eq!(r, Some(Ok("Hello from Rust, World!".to_string())));
}

#[test]
fn registered_operation_rejects_bad_arguments() {
    let reg = ready_registry();
    let module = "Elelem".to_string();
    let name = "hello".to_string();
    assert_eq!(
        reg.call(&module, &name, &Vec::new()),
        Some(Err(HostError::InvalidArgument))
    );
    assert_eq!(
        reg.call(&module, &name, &vec![text("a"), text("b")]),
        Some(Err(HostError::InvalidArgument))
    );
    assert_eq!(
        reg.call(&module, &name, &vec![HostValue::Integer(1)]),
        Some(Err(HostError::InvalidArgument))
    );
}

#[test]
fn unknown_names_are_not_bound() {
    let reg = ready_registry();
    let args = vec![text("World")];
    assert_eq!(reg.call(&"Elelem".to_string(), &"goodbye".to_string(), &args), None);
    assert_eq!(reg.call(&"Other".to_string(), &"hello".to_string(), &args), None);
}

#[test]
fn empty_registry_binds_nothing() {
    let reg = Registry::new();
    assert_eq!(reg.len(), 0);
    let r = reg.call(&"Elelem".to_string(), &"hello".to_string(), &vec![text("World")]);
    assert_eq!(r, None);
}

#[test]
fn init_is_idempotent() {
    let mut reg = Registry::new();
    reg.init();
    assert_eq!(reg.len(), 1);
    reg.init();
    reg.init();
    assert_eq!(reg.len(), 1);
    let r = reg.call(&"Elelem".to_string(), &"hello".to_string(), &vec![text("World")]);
    assert_eq!(r, Some(Ok("Hello from Rust, World!".to_string())));
}
