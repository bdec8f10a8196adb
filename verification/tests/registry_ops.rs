use control_node::registry::Registry;

#[test]
fn empty_registry_has_no_entries() {
    let reg = Registry::new();
    assert_eq!(reg.len(), 0);
    assert!(!reg.contains(&String::from("10.0.0.5:4000")));
}

#[test]
fn register_adds_one_entry_with_empty_queue() {
    let mut reg = Registry::new();
    let was_present = reg.register(String::from("10.0.0.5:4000"));
    assert!(!was_present);
    assert_eq!(reg.len(), 1);
    assert!(reg.contains(&String::from("10.0.0.5:4000")));
    assert_eq!(reg.pending_count(&String::from("10.0.0.5:4000")), 0);
}

#[test]
fn register_same_identity_replaces_entry() {
    let mut reg = Registry::new();
    reg.register(String::from("10.0.0.5:4000"));
    reg.broadcast(&String::from("uptime\n"));
    let was_present = reg.register(String::from("10.0.0.5:4000"));
    assert!(was_present);
    assert_eq!(reg.len(), 1);
    assert_eq!(reg.pending_count(&String::from("10.0.0.5:4000")), 0);
}

#[test]
fn remove_prunes_exactly_the_named_entry() {
    let mut reg = Registry::new();
    reg.register(String::from("10.0.0.5:4000"));
    reg.register(String::from("10.0.0.6:4100"));
    assert!(reg.remove(&String::from("10.0.0.5:4000")));
    assert_eq!(reg.len(), 1);
    assert!(!reg.contains(&String::from("10.0.0.5:4000")));
    assert!(reg.contains(&String::from("10.0.0.6:4100")));
}

#[test]
fn remove_is_idempotent() {
    let mut reg = Registry::new();
    reg.register(String::from("10.0.0.5:4000"));
    assert!(reg.remove(&String::from("10.0.0.5:4000")));
    assert!(!reg.remove(&String::from("10.0.0.5:4000")));
    assert_eq!(reg.len(), 0);
}

#[test]
fn broadcast_delivers_one_exact_copy_per_agent() {
    let mut reg = Registry::new();
    reg.register(String::from("10.0.0.5:4000"));
    reg.register(String::from("10.0.0.6:4100"));
    reg.register(String::from("10.0.0.7:4200"));
    reg.broadcast(&String::from("uptime\n"));
    assert_eq!(reg.pending_count(&String::from("10.0.0.5:4000")), 1);
    assert_eq!(reg.pending_count(&String::from("10.0.0.6:4100")), 1);
    assert_eq!(reg.pending_count(&String::from("10.0.0.7:4200")), 1);
    assert_eq!(
        reg.take_command(&String::from("10.0.0.5:4000")),
        Some(String::from("uptime\n"))
    );
    assert_eq!(
        reg.take_command(&String::from("10.0.0.6:4100")),
        Some(String::from("uptime\n"))
    );
    assert_eq!(
        reg.take_command(&String::from("10.0.0.7:4200")),
        Some(String::from("uptime\n"))
    );
}

#[test]
fn broadcast_to_empty_registry_does_nothing() {
    let mut reg = Registry::new();
    reg.broadcast(&String::from("uptime\n"));
    assert_eq!(reg.len(), 0);
}

#[test]
fn commands_are_taken_in_broadcast_order() {
    let mut reg = Registry::new();
    reg.register(String::from("10.0.0.5:4000"));
    reg.broadcast(&String::from("uptime\n"));
    reg.broadcast(&String::from("date\n"));
    assert_eq!(reg.pending_count(&String::from("10.0.0.5:4000")), 2);
    assert_eq!(
        reg.take_command(&String::from("10.0.0.5:4000")),
        Some(String::from("uptime\n"))
    );
    assert_eq!(
        reg.take_command(&String::from("10.0.0.5:4000")),
        Some(String::from("date\n"))
    );
    assert_eq!(reg.take_command(&String::from("10.0.0.5:4000")), None);
}

#[test]
fn take_command_for_unknown_identity_is_none() {
    let mut reg = Registry::new();
    reg.register(String::from("10.0.0.5:4000"));
    reg.broadcast(&String::from("uptime\n"));
    assert_eq!(reg.take_command(&String::from("10.0.0.9:9999")), None);
    assert_eq!(reg.pending_count(&String::from("10.0.0.9:9999")), 0);
}
