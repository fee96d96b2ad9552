use some_global_executor::channel::ChannelState;

#[test]
fn a_sent_value_waits_for_a_receiver() {
    let mut c: ChannelState<u32, &str> = ChannelState::new();
    assert_eq!(c.offer(1), None);
    assert_eq!(c.buffered_len(), 1);
    assert_eq!(c.take(), Some(1));
    assert_eq!(c.take(), None);
}

#[test]
fn the_last_buffered_value_is_taken_first() {
    let mut c: ChannelState<u32, &str> = ChannelState::new();
    c.offer(1);
    c.offer(2);
    assert_eq!(c.take(), Some(2));
    assert_eq!(c.take(), Some(1));
}

#[test]
fn a_parked_receiver_gets_the_next_value() {
    let mut c: ChannelState<u32, &str> = ChannelState::new();
    c.park("r1");
    c.park("r2");
    assert_eq!(c.waiting_len(), 2);
    assert_eq!(c.offer(5), Some(("r2", 5)));
    assert_eq!(c.offer(6), Some(("r1", 6)));
    assert_eq!(c.waiting_len(), 0);
    assert_eq!(c.buffered_len(), 0);
    assert_eq!(c.offer(7), None);
    assert_eq!(c.buffered_len(), 1);
}

#[test]
fn every_sent_value_reaches_exactly_one_receiver_or_stays_buffered() {
    let mut c: ChannelState<u32, &str> = ChannelState::new();
    let mut delivered: Vec<u32> = Vec::new();
    c.park("r1");
    if let Some((_, v)) = c.offer(1) {
        delivered.push(v);
    }
    assert_eq!(c.offer(2), None);
    assert_eq!(c.offer(3), None);
    if let Some(v) = c.take() {
        delivered.push(v);
    }
    delivered.sort();
    assert_eq!(delivered, vec![1, 3]);
    assert_eq!(c.buffered_len(), 1);
    assert_eq!(c.take(), Some(2));
    assert_eq!(c.take(), None);
}
