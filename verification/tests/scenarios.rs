use control_node::dispatcher::dispatcher_step;
use control_node::listener::admit_connection;
use control_node::message::render_response;
use control_node::registry::Registry;
use control_node::relay::RelayAction;

#[test]
fn single_agent_command_round_trip() {
    let mut reg = Registry::new();
    let mut relay = admit_connection(&mut reg, String::from("10.0.0.5:4000"));
    assert_eq!(reg.len(), 1);

    dispatcher_step(&mut reg, Some(String::from("uptime\n")), None);
    let cmd = reg.take_command(&String::from("10.0.0.5:4000"));
    assert_eq!(cmd, Some(String::from("uptime\n")));

    match relay.on_read(Ok(b"5 days\n".to_vec())) {
        RelayAction::Deliver(r) => {
            assert_eq!(render_response(&r), String::from("[Client 10.0.0.5:4000] 5 days\n"));
        }
        _ => panic!("the agent's reply must come back as a tagged response"),
    }
}

#[test]
fn broadcast_reaches_both_registered_agents() {
    let mut reg = Registry::new();
    admit_connection(&mut reg, String::from("10.0.0.5:4000"));
    admit_connection(&mut reg, String::from("10.0.0.6:4100"));

    dispatcher_step(&mut reg, Some(String::from("date\n")), None);

    assert_eq!(reg.pending_count(&String::from("10.0.0.5:4000")), 1);
    assert_eq!(reg.pending_count(&String::from("10.0.0.6:4100")), 1);
    assert_eq!(
        reg.take_command(&String::from("10.0.0.5:4000")),
        Some(String::from("date\n"))
    );
    assert_eq!(
        reg.take_command(&String::from("10.0.0.6:4100")),
        Some(String::from("date\n"))
    );
}

#[test]
fn remote_close_prunes_exactly_one_entry() {
    let mut reg = Registry::new();
    let mut relay = admit_connection(&mut reg, String::from("10.0.0.5:4000"));
    admit_connection(&mut reg, String::from("10.0.0.6:4100"));
    assert_eq!(reg.len(), 2);

    let notice = match relay.on_read(Ok(Vec::new())) {
        RelayAction::Disconnect(n) => n,
        _ => panic!("a remotely closed socket must terminate the relay"),
    };

    dispatcher_step(&mut reg, None, Some(notice));
    assert_eq!(reg.len(), 1);
    assert!(!reg.contains(&String::from("10.0.0.5:4000")));
    assert!(reg.contains(&String::from("10.0.0.6:4100")));
}

#[test]
fn disconnected_agent_misses_the_same_iterations_command() {
    let mut reg = Registry::new();
    let mut relay = admit_connection(&mut reg, String::from("10.0.0.5:4000"));
    admit_connection(&mut reg, String::from("10.0.0.6:4100"));

    let notice = match relay.on_read(Err(control_node::relay::ReadError::Other)) {
        RelayAction::Disconnect(n) => n,
        _ => panic!("a fatal read error must terminate the relay"),
    };

    dispatcher_step(&mut reg, Some(String::from("date\n")), Some(notice));
    assert!(!reg.contains(&String::from("10.0.0.5:4000")));
    assert_eq!(reg.take_command(&String::from("10.0.0.5:4000")), None);
    assert_eq!(
        reg.take_command(&String::from("10.0.0.6:4100")),
        Some(String::from("date\n"))
    );
}

#[test]
fn empty_input_line_broadcasts_nothing() {
    let mut reg = Registry::new();
    admit_connection(&mut reg, String::from("10.0.0.5:4000"));
    dispatcher_step(&mut reg, Some(String::new()), None);
    assert_eq!(reg.pending_count(&String::from("10.0.0.5:4000")), 0);
}

#[test]
fn absent_input_broadcasts_nothing() {
    let mut reg = Registry::new();
    admit_connection(&mut reg, String::from("10.0.0.5:4000"));
    dispatcher_step(&mut reg, None, None);
    assert_eq!(reg.pending_count(&String::from("10.0.0.5:4000")), 0);
}
