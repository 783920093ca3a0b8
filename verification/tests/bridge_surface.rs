use app_boot::bridge::{BridgeBuilder, ErrorHandlingMode};

#[test]
fn builder_accumulates_surface_in_registration_order() {
    let mut b = BridgeBuilder::new().error_handling(ErrorHandlingMode::Throw);
    b.register_command(String::from("greet"));
    b.register_command(String::from("fetch_profile"));
    b.register_event(String::from("session_expired"));
    let table = b.build_dispatch_table();
    assert_eq!(table.command_count(), 2);
    assert_eq!(table.event_count(), 1);
    assert_eq!(table.command_name(0).as_str(), "greet");
    assert_eq!(table.command_name(1).as_str(), "fetch_profile");
    assert_eq!(table.event_name(0).as_str(), "session_expired");
    assert_eq!(table.current_mode(), ErrorHandlingMode::Throw);
}

#[test]
fn fresh_builder_has_empty_surface_and_structured_mode() {
    let table = BridgeBuilder::new().build_dispatch_table();
    assert_eq!(table.command_count(), 0);
    assert_eq!(table.event_count(), 0);
    assert_eq!(table.current_mode(), ErrorHandlingMode::Structured);
}

#[test]
fn dispatch_table_routes_only_registered_commands() {
    let mut b = BridgeBuilder::new();
    b.register_command(String::from("greet"));
    b.register_event(String::from("greeted"));
    let table = b.build_dispatch_table();
    assert!(table.routes_command(&String::from("greet")));
    assert!(!table.routes_command(&String::from("missing")));
    // An event name is not a callable command.
    assert!(!table.routes_command(&String::from("greeted")));
}
