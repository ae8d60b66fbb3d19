use kernel_core::event::{EventBuf, SysEvent, EVENT_BUF_SIZE};

#[test]
fn drain_returns_pushed_events_and_resets() {
    let mut q = EventBuf::new();
    q.push(SysEvent::Keyboard);
    q.push(SysEvent::Keyboard);
    q.push(SysEvent::Keyboard);
    assert_eq!(q.dropped_events(), 0);
    let drained = q.empty_event_buffer();
    assert_eq!(drained, vec![SysEvent::Keyboard; 3]);
    assert_eq!(q.len, 0);
    let empty = q.empty_event_buffer();
    assert_eq!(empty.len(), 0);
}

#[test]
fn drain_of_full_queue_returns_capacity_events() {
    let mut q = EventBuf::new();
    for _ in 0..EVENT_BUF_SIZE {
        q.push(SysEvent::Keyboard);
    }
    assert_eq!(q.dropped_events(), 0);
    let drained = q.empty_event_buffer();
    assert_eq!(drained.len(), EVENT_BUF_SIZE);
}

#[test]
fn overfilling_drops_oldest_and_counts_the_loss() {
    let mut q = EventBuf::new();
    for _ in 0..EVENT_BUF_SIZE + 1 {
        q.push(SysEvent::Keyboard);
    }
    assert_eq!(q.dropped_events(), 1);
    let drained = q.empty_event_buffer();
    assert_eq!(drained.len(), EVENT_BUF_SIZE);
    assert_eq!(q.dropped_events(), 0);
}

#[test]
fn queue_refills_from_slot_zero_after_drain() {
    let mut q = EventBuf::new();
    for _ in 0..EVENT_BUF_SIZE + 3 {
        q.push(SysEvent::Keyboard);
    }
    q.empty_event_buffer();
    q.push(SysEvent::Keyboard);
    let drained = q.empty_event_buffer();
    assert_eq!(drained.len(), 1);
}
