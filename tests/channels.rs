use parametric_eq::{CommandChannel, SnapshotCell, UIHandleMsg};

fn bits(x: f32) -> u32 {
    x.to_bits()
}

#[test]
fn fifo_within_capacity() {
    let mut q = CommandChannel::new(4);
    let msgs = vec![
        UIHandleMsg::SetGain(0, bits(0.25)),
        UIHandleMsg::SetFreq(1, bits(0.5)),
        UIHandleMsg::CloseWindow,
    ];
    for m in &msgs {
        assert!(q.push(*m));
    }
    assert_eq!(q.drain_all(), msgs);
    assert_eq!(q.drain_all(), Vec::new());
}

#[test]
fn full_queue_drops_only_the_excess() {
    let mut q = CommandChannel::new(2);
    assert!(q.push(UIHandleMsg::SetGain(0, bits(0.1))));
    assert!(q.push(UIHandleMsg::SetGain(1, bits(0.2))));
    assert!(!q.push(UIHandleMsg::SetGain(2, bits(0.3))));
    assert!(!q.push(UIHandleMsg::CloseWindow));
    assert_eq!(
        q.drain_all(),
        vec![UIHandleMsg::SetGain(0, bits(0.1)), UIHandleMsg::SetGain(1, bits(0.2))]
    );
    // room again after draining
    assert!(q.push(UIHandleMsg::SetFreq(2, bits(0.9))));
    assert_eq!(q.drain_all(), vec![UIHandleMsg::SetFreq(2, bits(0.9))]);
}

#[test]
fn zero_capacity_drops_everything() {
    let mut q = CommandChannel::new(0);
    assert!(!q.push(UIHandleMsg::CloseWindow));
    assert!(q.drain_all().is_empty());
}

#[test]
fn drain_of_empty_queue_is_empty() {
    let mut q = CommandChannel::new(8);
    assert!(q.drain_all().is_empty());
}

#[test]
fn latest_wins() {
    let s0 = vec![bits(0.0); 4];
    let s1 = vec![bits(1.0), bits(2.0), bits(3.0), bits(4.0)];
    let s2 = vec![bits(5.0), bits(6.0), bits(7.0), bits(8.0)];
    let mut cell = SnapshotCell::new(&s0);
    assert_eq!(cell.latest(), s0);
    cell.publish(s1.clone());
    cell.publish(s2.clone());
    assert_eq!(cell.latest(), s2);
    assert_ne!(cell.latest(), s1);
}

#[test]
fn repeated_reads_return_the_same_snapshot() {
    let mut cell = SnapshotCell::new(&vec![]);
    cell.publish(vec![bits(0.5), bits(-0.5)]);
    let a = cell.latest();
    let b = cell.latest();
    assert_eq!(a, b);
    assert_eq!(a, vec![bits(0.5), bits(-0.5)]);
}

#[test]
fn snapshots_of_other_lengths_replace_whole() {
    let mut cell = SnapshotCell::new(&vec![bits(1.0); 3]);
    cell.publish(vec![bits(9.0)]);
    assert_eq!(cell.latest(), vec![bits(9.0)]);
}
