use std::sync::mpsc;
use swarmdrop::bridge::{after_forward, next_step};
use swarmdrop::{BridgeFault, BridgeStep};

fn drain(
    source: mpsc::Receiver<&'static str>,
    refused: &[&'static str],
) -> (Vec<&'static str>, Vec<&'static str>, Vec<String>) {
    let mut attempted = Vec::new();
    let mut delivered = Vec::new();
    let mut logged = Vec::new();
    loop {
        match next_step(source.recv().ok()) {
            BridgeStep::Forward(event) => {
                attempted.push(event);
                let answer = if refused.contains(&event) {
                    Err(format!("sink closed at {event}"))
                } else {
                    delivered.push(event);
                    Ok(())
                };
                if let Some(BridgeFault::SinkUnreachable(cause)) = after_forward(answer) {
                    logged.push(cause);
                }
            }
            BridgeStep::Stop => break,
        }
    }
    (attempted, delivered, logged)
}

#[test]
fn an_event_is_forwarded() {
    assert!(matches!(next_step(Some(7u32)), BridgeStep::Forward(7)));
}

#[test]
fn the_end_of_the_source_stops_the_bridge() {
    assert!(matches!(next_step(None::<u32>), BridgeStep::Stop));
}

#[test]
fn a_delivered_event_is_not_reported() {
    assert!(after_forward(Ok::<(), String>(())).is_none());
}

#[test]
fn an_unreachable_sink_is_reported_with_its_cause() {
    let report = after_forward(Err::<(), String>("channel closed".to_string()));
    assert!(matches!(report, Some(BridgeFault::SinkUnreachable(cause)) if cause == "channel closed"));
}

#[test]
fn events_reach_the_sink_in_the_order_of_emission() {
    let (sender, receiver) = mpsc::channel();
    for event in ["e1", "e2", "e3"] {
        sender.send(event).unwrap();
    }
    drop(sender);
    let (attempted, delivered, logged) = drain(receiver, &[]);
    assert_eq!(attempted, vec!["e1", "e2", "e3"]);
    assert_eq!(delivered, vec!["e1", "e2", "e3"]);
    assert!(logged.is_empty());
}

#[test]
fn a_failed_forward_does_not_halt_the_bridge() {
    let (sender, receiver) = mpsc::channel();
    for event in ["e1", "e2", "e3"] {
        sender.send(event).unwrap();
    }
    drop(sender);
    let (attempted, delivered, logged) = drain(receiver, &["e2"]);
    assert_eq!(attempted, vec!["e1", "e2", "e3"]);
    assert_eq!(delivered, vec!["e1", "e3"]);
    assert_eq!(logged, vec!["sink closed at e2".to_string()]);
}

#[test]
fn a_sink_that_is_gone_for_good_is_still_drained() {
    let (sender, receiver) = mpsc::channel();
    for event in ["e1", "e2", "e3"] {
        sender.send(event).unwrap();
    }
    drop(sender);
    let (attempted, delivered, logged) = drain(receiver, &["e1", "e2", "e3"]);
    assert_eq!(attempted, vec!["e1", "e2", "e3"]);
    assert!(delivered.is_empty());
    assert_eq!(logged.len(), 3);
}

#[test]
fn an_empty_source_ends_the_bridge_at_once() {
    let (sender, receiver) = mpsc::channel::<&'static str>();
    drop(sender);
    let (attempted, delivered, logged) = drain(receiver, &[]);
    assert!(attempted.is_empty());
    assert!(delivered.is_empty());
    assert!(logged.is_empty());
}
