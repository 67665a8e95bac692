use example_project::context::RoundContext;
use example_project::directory::{AddressDirectory, NodeAddress};
use example_project::error::DirectoryError;
use example_project::events::{EventKind, EventRecorder};
use example_project::metrics::MetricsRegistry;
use example_project::scheduler::{Action, Scheduler, TickOutcome};

fn addr(b: u8) -> NodeAddress {
    NodeAddress { node_id: [b; 32] }
}

fn directory(n: u8) -> AddressDirectory {
    AddressDirectory::from_addresses((0..n).map(addr).collect())
}

#[test]
fn directory_holds_one_entry_per_node() {
    let d = directory(8);
    assert_eq!(d.node_count(), 8);
    assert_eq!(d.address_of(5), Ok(addr(5)));
    assert_eq!(d.address_of(5), d.address_of(5));
    assert_eq!(d.address_of(8), Err(DirectoryError::UnknownNode { index: 8 }));
}

#[test]
fn addresses_except_skips_only_self() {
    let d = directory(4);
    assert_eq!(d.addresses_except(0), vec![addr(1), addr(2), addr(3)]);
    assert_eq!(d.addresses_except(2), vec![addr(0), addr(1), addr(3)]);
    assert_eq!(d.addresses_except(3), vec![addr(0), addr(1), addr(2)]);
    assert_eq!(d.addresses_except(9), vec![addr(0), addr(1), addr(2), addr(3)]);
    assert!(directory(1).addresses_except(0).is_empty());
}

#[test]
fn round_context_surface() {
    let d = directory(3);
    let setup = String::from("topic");
    assert!(RoundContext::new(&d, &setup, 0, 3).is_none());
    let ctx = RoundContext::new(&d, &setup, 7, 1).unwrap();
    assert_eq!(ctx.round_number(), 7);
    assert_eq!(ctx.node_index(), 1);
    assert_eq!(ctx.node_count(), 3);
    assert_eq!(ctx.self_address(), addr(1));
    assert_eq!(ctx.address_of(2), Ok(addr(2)));
    assert_eq!(ctx.address_of(3), Err(DirectoryError::UnknownNode { index: 3 }));
    assert_eq!(ctx.other_addresses(), vec![addr(0), addr(2)]);
    assert_eq!(ctx.setup_data(), "topic");
}

#[test]
fn counters_only_grow() {
    let mut m = MetricsRegistry::new();
    let a = m.register(0);
    let b = m.register(1);
    assert_eq!((a, b), (0, 1));
    assert_eq!(m.len(), 2);
    let mut last = 0;
    for step in 0..5u64 {
        m.add(a, step);
        let now = m.get(a).unwrap();
        assert!(now >= last);
        last = now;
    }
    assert_eq!(last, 10);
    assert_eq!(m.get(b), Some(0));
    assert_eq!(m.get(2), None);
}

#[test]
fn counters_saturate() {
    let mut m = MetricsRegistry::new();
    let a = m.register(3);
    m.add(a, u64::MAX - 1);
    m.add(a, 5);
    assert_eq!(m.get(a), Some(u64::MAX));
}

#[test]
fn totals_per_source() {
    let mut m = MetricsRegistry::new();
    let a = m.register(0);
    let b = m.register(1);
    let c = m.register(0);
    m.add(a, 2);
    m.add(b, 40);
    m.add(c, 3);
    assert_eq!(m.total_of(0), 5);
    assert_eq!(m.total_of(1), 40);
    assert_eq!(m.total_of(2), 0);
}

#[test]
fn events_are_recorded_in_order() {
    let mut r = EventRecorder::new();
    r.event_start("a".to_string(), "b".to_string(), "send ping (round 0)".to_string(), Some("ping".to_string()));
    r.event_end("a".to_string(), "b".to_string(), "ping done (round 0)".to_string(), None);
    assert_eq!(r.len(), 2);
    let events = r.drain();
    assert_eq!(r.len(), 0);
    assert_eq!(events[0].kind, EventKind::Start);
    assert_eq!(events[0].correlation_id.as_deref(), Some("ping"));
    assert_eq!(events[1].kind, EventKind::End);
    assert_eq!(events[1].label, "ping done (round 0)");
}

// Eight nodes, four rounds; every node but node 0 pings node 0 once per round.
#[test]
fn ping_counts_after_each_round() {
    let n: usize = 8;
    let d = directory(8);
    let mut m = MetricsRegistry::new();
    let sent: Vec<usize> = (0..n).map(|i| m.register(i)).collect();
    let received: Vec<usize> = (0..n).map(|i| m.register(i)).collect();
    let mut s = Scheduler::new(n, 4).unwrap();
    assert_eq!(s.setup_done(true), Action::SpawnAll);
    let mut a = s.spawn_done(&vec![true; n]);
    let mut checks = 0;
    loop {
        match a {
            Action::RunTicks { round } => {
                for i in 0..n {
                    let ctx = RoundContext::new(&d, &(), round, i).unwrap();
                    if ctx.node_index() != 0 {
                        let target = ctx.address_of(0).unwrap();
                        assert_eq!(target, addr(0));
                        m.add(sent[i], 1);
                        m.add(received[0], 1);
                    }
                }
                a = s.ticks_done(&vec![TickOutcome::Continue; n]);
            }
            Action::RunCheck { round, node } => {
                let k = round as u64;
                let ok = if node == 0 {
                    m.get(received[0]) == Some(7 * (k + 1))
                } else {
                    m.get(sent[node]) == Some(k + 1)
                };
                assert!(ok);
                checks += 1;
                a = s.check_done(ok);
            }
            Action::ShutdownAll => a = s.shutdown_done(&vec![false; n]),
            _ => break,
        }
    }
    assert_eq!(checks, 32);
    assert_eq!(s.outcome(), Ok(4));
}
