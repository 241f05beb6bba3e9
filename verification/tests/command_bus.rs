use bmw_toolbox_lib::command_bus::{BusError, Command, CommandBus};

struct Ping(u32);

impl Command for Ping {
    type Output = u32;
}

struct Named(String);

impl Command for Named {
    type Output = usize;

    fn name() -> &'static str {
        "Named"
    }
}

#[test]
fn dispatches_to_registered_handler() {
    let mut bus = CommandBus::new();
    bus.register::<Ping, _>(|cmd| cmd.0 + 1);

    let result = bus.dispatch(Ping(41)).unwrap();
    assert_eq!(result, 42);
}

#[test]
fn returns_error_when_no_handler_registered() {
    let bus = CommandBus::new();
    let result = bus.dispatch(Ping(1));
    assert!(matches!(result, Err(BusError::NoHandler { .. })));
}

#[test]
fn re_registering_replaces_the_previous_handler() {
    let mut bus = CommandBus::new();
    bus.register::<Ping, _>(|cmd| cmd.0 + 1);
    bus.register::<Ping, _>(|cmd| cmd.0 * 2);
    assert_eq!(bus.dispatch(Ping(21)).unwrap(), 42);
}

#[test]
fn handlers_are_routed_by_command_type() {
    let mut bus = CommandBus::new();
    bus.register::<Named, _>(|cmd| cmd.0.len());
    assert_eq!(bus.dispatch(Named("abcd".to_string())).unwrap(), 4);
    // Ping has no handler even though another command does.
    assert!(matches!(bus.dispatch(Ping(1)), Err(BusError::NoHandler { .. })));
    bus.register::<Ping, _>(|cmd| cmd.0);
    assert_eq!(bus.dispatch(Ping(7)).unwrap(), 7);
    assert_eq!(bus.dispatch(Named("xy".to_string())).unwrap(), 2);
}

#[test]
fn no_handler_error_names_the_command() {
    let bus = CommandBus::new();
    let err = bus.dispatch(Named(String::new())).unwrap_err();
    assert_eq!(err, BusError::NoHandler { command: "Named" });
    assert_eq!(err.message(), "no handler registered for command 'Named'");
    let err = bus.dispatch(Ping(0)).unwrap_err();
    assert_eq!(err.message(), "no handler registered for command 'unnamed command'");
}
