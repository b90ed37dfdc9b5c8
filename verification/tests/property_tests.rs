use mpsc_queue::channel::DequeueStep;
use mpsc_queue::channel::MpscQueue;

#[test]
fn empty_open_channel_would_block() {
    let (tx, mut rx, mut q) = MpscQueue::<u32>::new();
    assert_eq!(rx.dequeue(&mut q), DequeueStep::WouldBlock);
    // Wake event (a): a value is enqueued; the re-checked step delivers it.
    tx.enqueue(&mut q, 5);
    assert_eq!(rx.dequeue(&mut q), DequeueStep::Received(5));
    assert_eq!(rx.dequeue(&mut q), DequeueStep::WouldBlock);
}

#[test]
fn close_wakes_empty_channel() {
    let (tx, mut rx, mut q) = MpscQueue::<u32>::new();
    assert_eq!(rx.dequeue(&mut q), DequeueStep::WouldBlock);
    // Wake event (b): the last sender disconnects; the re-checked step
    // reports end-of-stream instead of blocking again.
    let wake = tx.disconnect(&mut q);
    assert!(wake);
    assert_eq!(rx.dequeue(&mut q), DequeueStep::EndOfStream);
    assert_eq!(rx.dequeue(&mut q), DequeueStep::EndOfStream);
}

#[test]
fn drain_before_close() {
    let (tx, mut rx, mut q) = MpscQueue::<u32>::new();
    tx.enqueue(&mut q, 10);
    tx.enqueue(&mut q, 20);
    tx.enqueue(&mut q, 30);
    let wake = tx.disconnect(&mut q);
    assert!(wake);
    // Every value enqueued before the close is still delivered, in order,
    // before end-of-stream is ever reported.
    assert_eq!(rx.dequeue(&mut q), DequeueStep::Received(10));
    assert_eq!(rx.dequeue(&mut q), DequeueStep::Received(20));
    assert_eq!(rx.dequeue(&mut q), DequeueStep::Received(30));
    assert_eq!(rx.dequeue(&mut q), DequeueStep::EndOfStream);
}

#[test]
fn close_exactly_once() {
    let (tx, _rx, mut q) = MpscQueue::<u32>::new();
    let tx2 = tx.clone_sender(&mut q);
    let tx3 = tx.clone_sender(&mut q);
    assert_eq!(q.sender_count(), 3);
    assert!(!q.closed());
    assert!(!tx2.disconnect(&mut q));
    assert_eq!(q.sender_count(), 2);
    assert!(!q.closed());
    assert!(!tx.disconnect(&mut q));
    assert_eq!(q.sender_count(), 1);
    assert!(!q.closed());
    // Only the disconnect of the last handle reports closing.
    assert!(tx3.disconnect(&mut q));
    assert_eq!(q.sender_count(), 0);
    assert!(q.closed());
}

#[test]
fn cache_keeps_order_across_refills() {
    let (tx, mut rx, mut q) = MpscQueue::<u32>::new();
    tx.enqueue(&mut q, 1);
    tx.enqueue(&mut q, 2);
    // This dequeue batch-drains both values into the receiver's cache.
    assert_eq!(rx.dequeue(&mut q), DequeueStep::Received(1));
    tx.enqueue(&mut q, 3);
    // The cached value is older than the freshly buffered one and comes out
    // first: the cache is drained before the shared buffer is consulted.
    assert_eq!(rx.dequeue(&mut q), DequeueStep::Received(2));
    assert_eq!(rx.dequeue(&mut q), DequeueStep::Received(3));
    let wake = tx.disconnect(&mut q);
    assert!(wake);
    assert_eq!(rx.dequeue(&mut q), DequeueStep::EndOfStream);
}

#[test]
fn fan_in_delivers_every_value_once() {
    let (tx, mut rx, mut q) = MpscQueue::<u64>::new();
    let senders = vec![
        tx.clone_sender(&mut q),
        tx.clone_sender(&mut q),
        tx.clone_sender(&mut q),
        tx.clone_sender(&mut q),
    ];
    let wake = tx.disconnect(&mut q);
    assert!(!wake);
    // Four senders, five values each, enqueued in interleaved turns.
    for round in 0u64..5u64 {
        for k in 0u64..4u64 {
            senders[k as usize].enqueue(&mut q, k * 100 + round);
        }
    }
    let mut last = false;
    for sender in senders {
        last = sender.disconnect(&mut q);
    }
    assert!(last);
    let mut received: Vec<u64> = Vec::new();
    loop {
        match rx.dequeue(&mut q) {
            DequeueStep::Received(data) => received.push(data),
            DequeueStep::EndOfStream => break,
            DequeueStep::WouldBlock => panic!("channel blocked after close"),
        }
    }
    assert_eq!(received.len(), 20);
    let mut sorted = received.clone();
    sorted.sort();
    let mut expected: Vec<u64> = Vec::new();
    for k in 0u64..4u64 {
        for round in 0u64..5u64 {
            expected.push(k * 100 + round);
        }
    }
    assert_eq!(sorted, expected);
}

#[test]
fn fresh_channel_state() {
    let (_tx, _rx, mut q) = MpscQueue::<u32>::new();
    assert_eq!(q.sender_count(), 1);
    assert!(!q.closed());
    assert_eq!(q.pop_front(), None);
}

#[test]
fn pop_front_is_fifo() {
    let (_tx, _rx, mut q) = MpscQueue::<u32>::new();
    q.push_back(7);
    q.push_back(8);
    assert_eq!(q.pop_front(), Some(7));
    assert_eq!(q.pop_front(), Some(8));
    assert_eq!(q.pop_front(), None);
}
