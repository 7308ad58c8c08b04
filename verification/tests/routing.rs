use crimson::ActorEvent;
use crimson::RoundRobin;
use crimson::Sender;
use crimson::System;
use crimson::SystemEvent;
use crimson::system::dispatch;
use std::cell::RefCell;
use std::sync::mpsc::Receiver;
use std::sync::mpsc::SyncSender;
use std::sync::mpsc::sync_channel;

fn started(a: &str) -> SystemEvent {
    SystemEvent::Started(a.to_string())
}

fn stopped(a: &str) -> SystemEvent {
    SystemEvent::Stopped(a.to_string())
}

fn forward(from: &str, to: &str, idx: usize) -> SystemEvent {
    SystemEvent::Forward(from.to_string(), to.to_string(), idx)
}

fn error(addr: &str, reason: &str) -> SystemEvent {
    SystemEvent::Error(addr.to_string(), reason.to_string())
}

/// Runs a started system to completion, recording every observed event.
fn drive(sys: System<i32>) -> Vec<SystemEvent> {
    let log: RefCell<Vec<SystemEvent>> = RefCell::new(Vec::new());
    let mut st = sys.start();
    while !st.drained() {
        st.poll_once(&|ev: SystemEvent| log.borrow_mut().push(ev));
    }
    log.into_inner()
}

/// A mounted actor whose whole control history is written up front: the
/// channels are sized so every event fits before the run drains them.
fn scripted_actor(
    sys: &mut System<i32>,
    address: &str,
    outbound: &[(&str, bool, i32)],
    mailbox_size: usize,
) -> Receiver<i32> {
    let (ctl_tx, ctl_rx) = sync_channel::<ActorEvent<i32>>(outbound.len() + 2);
    let sender = Sender::new(address.to_string(), ctl_tx.clone());
    ctl_tx
        .send(ActorEvent::Started(address.to_string()))
        .unwrap();
    for (to, publish, value) in outbound {
        if *publish {
            sender.publish(to, *value).unwrap();
        } else {
            sender.send(to, *value).unwrap();
        }
    }
    ctl_tx
        .send(ActorEvent::Stopped(address.to_string()))
        .unwrap();
    let (pay_tx, pay_rx) = sync_channel::<i32>(mailbox_size);
    sys.mount(address, pay_tx, ctl_rx);
    pay_rx
}

#[test]
fn empty_system_drains_immediately() {
    let sys: System<i32> = System::new();
    let log = drive(sys);
    assert!(log.is_empty());
}

#[test]
fn one_sender_one_receiver_in_order() {
    let mut sys: System<i32> = System::new();
    let _a_rx = scripted_actor(&mut sys, "A", &[("B", false, 1), ("B", false, 2), ("B", false, 3)], 1);
    let b_rx = scripted_actor(&mut sys, "B", &[], 8);
    let log = drive(sys);
    let received: Vec<i32> = b_rx.try_iter().collect();
    assert_eq!(received, vec![1, 2, 3]);
    assert_eq!(
        log,
        vec![
            started("A"),
            started("B"),
            forward("A", "B", 0),
            stopped("B"),
            forward("A", "B", 0),
            forward("A", "B", 0),
            stopped("A"),
        ]
    );
}

#[test]
fn pooled_address_alternates_round_robin() {
    let mut sys: System<i32> = System::new();
    let c1_rx = scripted_actor(&mut sys, "C", &[], 8);
    let c2_rx = scripted_actor(&mut sys, "C", &[], 8);
    let _d_rx = scripted_actor(
        &mut sys,
        "D",
        &[("C", false, 10), ("C", false, 20), ("C", false, 30), ("C", false, 40)],
        1,
    );
    let log = drive(sys);
    let c1: Vec<i32> = c1_rx.try_iter().collect();
    let c2: Vec<i32> = c2_rx.try_iter().collect();
    assert_eq!(c1, vec![10, 30]);
    assert_eq!(c2, vec![20, 40]);
    let indices: Vec<usize> = log
        .iter()
        .filter_map(|ev| match ev {
            SystemEvent::Forward(_, _, idx) => Some(*idx),
            _ => None,
        })
        .collect();
    assert_eq!(indices, vec![0, 1, 0, 1]);
}

#[test]
fn send_to_unmounted_address_reports_error_and_run_completes() {
    let mut sys: System<i32> = System::new();
    let _e_rx = scripted_actor(&mut sys, "E", &[("F", false, 5)], 1);
    let log = drive(sys);
    assert_eq!(
        log,
        vec![
            started("E"),
            forward("E", "F", 0),
            error("F", "does not exist"),
            stopped("E"),
        ]
    );
}

#[test]
fn publish_reaches_every_endpoint() {
    let mut sys: System<i32> = System::new();
    let h1_rx = scripted_actor(&mut sys, "H", &[], 8);
    let h2_rx = scripted_actor(&mut sys, "H", &[], 8);
    let h3_rx = scripted_actor(&mut sys, "H", &[], 8);
    let _g_rx = scripted_actor(&mut sys, "G", &[("H", true, 42)], 1);
    let log = drive(sys);
    assert_eq!(h1_rx.try_iter().collect::<Vec<i32>>(), vec![42]);
    assert_eq!(h2_rx.try_iter().collect::<Vec<i32>>(), vec![42]);
    assert_eq!(h3_rx.try_iter().collect::<Vec<i32>>(), vec![42]);
    let forwards: Vec<&SystemEvent> = log
        .iter()
        .filter(|ev| matches!(ev, SystemEvent::Forward(_, _, _)))
        .collect();
    assert_eq!(forwards, vec![&forward("G", "H", 0)]);
    assert!(!log.iter().any(|ev| matches!(ev, SystemEvent::Error(_, _))));
}

#[test]
fn actor_can_send_to_own_address() {
    let mut sys: System<i32> = System::new();
    let a_rx = scripted_actor(&mut sys, "A", &[("A", false, 99)], 1);
    let log = drive(sys);
    assert_eq!(a_rx.try_iter().collect::<Vec<i32>>(), vec![99]);
    assert!(log.contains(&forward("A", "A", 0)));
}

#[test]
fn round_robin_cycles_without_repeats() {
    let senders: Vec<(String, Vec<u8>)> = vec![
        ("C".to_string(), vec![0, 0, 0]),
        ("D".to_string(), vec![0]),
    ];
    let mut rr = RoundRobin::new(&senders);
    let mut seen: Vec<usize> = Vec::new();
    for _ in 0..3 {
        seen.push(rr.next("C".to_string()));
    }
    assert_eq!(seen, vec![0, 1, 2]);
    assert_eq!(rr.next("C".to_string()), 0);
    assert_eq!(rr.next("D".to_string()), 0);
    assert_eq!(rr.next("D".to_string()), 0);
}

#[test]
fn round_robin_unknown_address_yields_zero_and_persists_nothing() {
    let senders: Vec<(String, Vec<u8>)> = vec![("C".to_string(), vec![0, 0])];
    let mut rr = RoundRobin::new(&senders);
    assert_eq!(rr.next("missing".to_string()), 0);
    assert_eq!(rr.next("missing".to_string()), 0);
    assert_eq!(rr.next("C".to_string()), 0);
}

#[test]
fn sender_wraps_envelope_with_own_address() {
    let (ctl_tx, ctl_rx) = sync_channel::<ActorEvent<i32>>(1);
    let sender = Sender::new("A".to_string(), ctl_tx);
    sender.send("B", 5).unwrap();
    match ctl_rx.recv().unwrap() {
        ActorEvent::Send(from, to, value) => {
            assert_eq!(from, "A");
            assert_eq!(to, "B");
            assert_eq!(value, 5);
        }
        _ => panic!("expected a send envelope"),
    }
    sender.publish("B", 7).unwrap();
    match ctl_rx.recv().unwrap() {
        ActorEvent::Publish(from, to, value) => {
            assert_eq!(from, "A");
            assert_eq!(to, "B");
            assert_eq!(value, 7);
        }
        _ => panic!("expected a publish envelope"),
    }
    let cloned = sender.clone();
    cloned.send("B", 8).unwrap();
    match ctl_rx.recv().unwrap() {
        ActorEvent::Send(from, to, value) => {
            assert_eq!(from, "A");
            assert_eq!(to, "B");
            assert_eq!(value, 8);
        }
        _ => panic!("expected a send envelope from the clone"),
    }
}

#[test]
fn sender_returns_envelope_when_routing_channel_closed() {
    let (ctl_tx, ctl_rx) = sync_channel::<ActorEvent<i32>>(1);
    let sender = Sender::new("A".to_string(), ctl_tx);
    drop(ctl_rx);
    let err = sender.send("B", 9).unwrap_err();
    match err.0 {
        ActorEvent::Send(from, to, value) => {
            assert_eq!(from, "A");
            assert_eq!(to, "B");
            assert_eq!(value, 9);
        }
        _ => panic!("expected the send envelope back"),
    }
}

fn registry_of(pools: &[(&str, usize)]) -> (Vec<(String, Vec<SyncSender<i32>>)>, Vec<Receiver<i32>>) {
    let mut entries = Vec::new();
    let mut receivers = Vec::new();
    for (addr, n) in pools {
        let mut pool = Vec::new();
        for _ in 0..*n {
            let (tx, rx) = sync_channel::<i32>(4);
            pool.push(tx);
            receivers.push(rx);
        }
        entries.push((addr.to_string(), pool));
    }
    (entries, receivers)
}

#[test]
fn dispatch_send_to_dead_endpoint_reports_send_error() {
    let (entries, receivers) = registry_of(&[("B", 1)]);
    let mut rr = RoundRobin::new(&entries);
    drop(receivers);
    let events = dispatch(
        &entries,
        &mut rr,
        ActorEvent::Send("A".to_string(), "B".to_string(), 1),
    );
    assert_eq!(events, vec![forward("A", "B", 0), error("B", "send error")]);
}

#[test]
fn dispatch_publish_continues_past_failed_endpoint() {
    let (entries, mut receivers) = registry_of(&[("H", 3)]);
    let mut rr = RoundRobin::new(&entries);
    // Kill the middle endpoint only.
    drop(receivers.remove(1));
    let events = dispatch(
        &entries,
        &mut rr,
        ActorEvent::Publish("G".to_string(), "H".to_string(), 42),
    );
    assert_eq!(events, vec![forward("G", "H", 0), error("H", "send error")]);
    assert_eq!(receivers[0].try_iter().collect::<Vec<i32>>(), vec![42]);
    assert_eq!(receivers[1].try_iter().collect::<Vec<i32>>(), vec![42]);
}

#[test]
fn dispatch_publish_to_unknown_address_reports_error() {
    let (entries, _receivers) = registry_of(&[("B", 1)]);
    let mut rr = RoundRobin::new(&entries);
    let events = dispatch(
        &entries,
        &mut rr,
        ActorEvent::Publish("A".to_string(), "X".to_string(), 3),
    );
    assert_eq!(events, vec![forward("A", "X", 0), error("X", "does not exist")]);
}

#[test]
fn dispatch_lifecycle_events_pass_through() {
    let (entries, _receivers) = registry_of(&[("B", 1)]);
    let mut rr = RoundRobin::new(&entries);
    let up = dispatch(&entries, &mut rr, ActorEvent::Started("B".to_string()));
    assert_eq!(up, vec![started("B")]);
    let down = dispatch(&entries, &mut rr, ActorEvent::Stopped("B".to_string()));
    assert_eq!(down, vec![stopped("B")]);
}
