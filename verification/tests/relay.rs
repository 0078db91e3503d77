use nebo_sdk::gateway::GatewayEvent;
use nebo_sdk::relay::open_stream;
use nebo_sdk::relay::Relay;
use nebo_sdk::relay::RelayAction;
use nebo_sdk::relay::RelaySignal;
use nebo_sdk::wire;
use nebo_sdk::NeboError;
use nebo_sdk::TransportFault;

fn event(n: u32) -> GatewayEvent {
    GatewayEvent {
        kind: "text".to_string(),
        content: format!("token {n}"),
        model: "m".to_string(),
        request_id: "r".to_string(),
    }
}

fn on_wire(n: u32) -> wire::gateway::GatewayEvent {
    wire::gateway::GatewayEvent {
        kind: "text".to_string(),
        content: format!("token {n}"),
        model: "m".to_string(),
        request_id: "r".to_string(),
    }
}

fn run(signals: Vec<RelaySignal<GatewayEvent>>) -> (Relay, Vec<RelayAction<wire::gateway::GatewayEvent>>) {
    let mut relay = Relay::new();
    let mut actions = Vec::new();
    for signal in signals {
        actions.push(relay.step(signal));
    }
    (relay, actions)
}

#[test]
fn a_fresh_relay_is_running() {
    let relay = Relay::new();
    assert_eq!(relay, Relay::Running);
    assert!(!relay.is_over());
    assert!(Relay::Drained.is_over());
    assert!(Relay::Disconnected.is_over());
}

#[test]
fn messages_are_forwarded_in_the_order_produced_each_once() {
    let (relay, actions) = run(vec![
        RelaySignal::Produced(event(1)),
        RelaySignal::Produced(event(2)),
        RelaySignal::Produced(event(3)),
    ]);
    assert_eq!(actions, vec![
        RelayAction::Forward(on_wire(1)),
        RelayAction::Forward(on_wire(2)),
        RelayAction::Forward(on_wire(3)),
    ]);
    assert_eq!(relay, Relay::Running);
}

#[test]
fn the_relay_ends_cleanly_when_the_handler_closes() {
    let (relay, actions) = run(vec![
        RelaySignal::Produced(event(1)),
        RelaySignal::SourceClosed,
        RelaySignal::Produced(event(2)),
        RelaySignal::ConsumerGone,
    ]);
    assert_eq!(actions, vec![
        RelayAction::Forward(on_wire(1)),
        RelayAction::Stop,
        RelayAction::Stop,
        RelayAction::Stop,
    ]);
    assert_eq!(relay, Relay::Drained);
}

#[test]
fn the_relay_ends_silently_when_the_consumer_is_gone() {
    let (relay, actions) = run(vec![
        RelaySignal::Produced(event(1)),
        RelaySignal::Produced(event(2)),
        RelaySignal::ConsumerGone,
        RelaySignal::Produced(event(3)),
        RelaySignal::SourceClosed,
    ]);
    assert_eq!(actions, vec![
        RelayAction::Forward(on_wire(1)),
        RelayAction::Forward(on_wire(2)),
        RelayAction::Stop,
        RelayAction::Stop,
        RelayAction::Stop,
    ]);
    assert_eq!(relay, Relay::Disconnected);
}

#[test]
fn a_stream_with_nothing_in_it_ends_at_once() {
    let (relay, actions) = run(vec![RelaySignal::SourceClosed]);
    assert_eq!(actions, vec![RelayAction::Stop]);
    assert_eq!(relay, Relay::Drained);
}

#[test]
fn an_opened_stream_keeps_its_source_and_its_bound() {
    let opened: Result<u8, NeboError> = Ok(7);
    let stream = open_stream(opened, 32).unwrap();
    assert_eq!(stream.source, 7);
    assert_eq!(stream.capacity, 32);
}

#[test]
fn a_refused_stream_is_an_internal_fault_with_the_text_of_the_failure() {
    let refused: Result<u8, NeboError> = Err(NeboError::Io("closed".to_string()));
    match open_stream(refused, 32) {
        Err(fault) => assert_eq!(fault, TransportFault::Internal("io error: closed".to_string())),
        Ok(_) => panic!("the stream was refused"),
    }
}
