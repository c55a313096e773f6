//! The bounded sample hand-off: drop-on-full, queue order, bounded drain.

use spectrum_analyzer::transport::SampleTransport;

#[test]
fn push_drops_on_full_and_drain_keeps_queue_order() {
    let (source, transport) = SampleTransport::new(4);
    assert_eq!(transport.capacity(), 4);
    assert!(source.push(1.0f32.to_bits()));
    assert!(source.push(2.0f32.to_bits()));
    assert!(source.push(3.0f32.to_bits()));
    assert!(source.push(4.0f32.to_bits()));
    // the queue is full: further samples are silently dropped
    assert!(!source.push(5.0f32.to_bits()));
    assert!(!source.push(6.0f32.to_bits()));
    let drained = transport.drain_all();
    assert_eq!(
        drained,
        vec![1.0f32.to_bits(), 2.0f32.to_bits(), 3.0f32.to_bits(), 4.0f32.to_bits()]
    );
    assert!(transport.drain_all().is_empty());
}

#[test]
fn queue_accepts_again_after_a_drain() {
    let (source, transport) = SampleTransport::new(2);
    assert!(source.push(7));
    assert!(source.push(8));
    assert!(!source.push(9));
    assert_eq!(transport.drain_all(), vec![7, 8]);
    assert!(source.push(10));
    assert_eq!(transport.drain_all(), vec![10]);
}

#[test]
fn push_reports_a_gone_consumer() {
    let (source, transport) = SampleTransport::new(2);
    drop(transport);
    assert!(!source.push(1));
}
