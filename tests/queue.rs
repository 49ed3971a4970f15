use negicon::negicon_event::{NegiconEvent, NegiconEventType};
use negicon::ringbuf::{BufferError, RingBuffer};
use negicon::upstream::{SinkError, Upstream, UpstreamError};

fn ev(id: u16) -> NegiconEvent {
    NegiconEvent::new(NegiconEventType::Input, id, id as i16, 0, 0)
}

#[test]
fn queue_delivers_in_order() {
    let mut up = Upstream::new();
    for id in [1u16, 2, 3] {
        assert_eq!(up.enqueue(ev(id)), Ok(()));
    }
    let mut delivered = Vec::new();
    while let Some(frame) = up.outgoing() {
        delivered.push(frame);
        assert_eq!(up.send(Ok(())), Ok(()));
    }
    assert_eq!(delivered, vec![ev(1).serialize(), ev(2).serialize(), ev(3).serialize()]);
    assert_eq!(up.len(), 0);
    assert_eq!(up.send(Ok(())), Ok(()));
}

#[test]
fn would_block_keeps_head() {
    let mut up = Upstream::new();
    up.enqueue(ev(1)).unwrap();
    up.enqueue(ev(2)).unwrap();
    assert_eq!(up.send(Err(SinkError::WouldBlock)), Err(UpstreamError::WouldBlock));
    assert_eq!(up.outgoing(), Some(ev(1).serialize()));
    assert_eq!(up.len(), 2);
}

#[test]
fn sink_failure_drops_head() {
    let mut up = Upstream::new();
    up.enqueue(ev(1)).unwrap();
    up.enqueue(ev(2)).unwrap();
    assert_eq!(up.send(Err(SinkError::Failed)), Err(UpstreamError::SinkFailure));
    assert_eq!(up.outgoing(), Some(ev(2).serialize()));
}

#[test]
fn full_queue_evicts_oldest() {
    let mut up = Upstream::new();
    for id in 0..100u16 {
        assert_eq!(up.enqueue(ev(id)), Ok(()));
    }
    assert_eq!(up.dropped(), 0);
    assert_eq!(up.enqueue(ev(100)), Err(UpstreamError::Overflow));
    assert_eq!(up.len(), 100);
    assert_eq!(up.dropped(), 1);
    assert_eq!(up.outgoing(), Some(ev(1).serialize()));
    let mut last = None;
    while let Some(frame) = up.outgoing() {
        last = Some(frame);
        up.send(Ok(())).unwrap();
    }
    assert_eq!(last, Some(ev(100).serialize()));
}

#[test]
fn ring_buffer_wraps_around() {
    let mut rb: RingBuffer<u32> = RingBuffer::new();
    assert_eq!(rb.peek(), None);
    for round in 0..3u32 {
        for i in 0..100u32 {
            assert!(rb.push(round * 1000 + i).is_ok());
        }
        assert!(matches!(rb.push(7), Err(BufferError::Overflow)));
        for i in 0..100u32 {
            assert_eq!(rb.peek(), Some(round * 1000 + i));
            rb.discard();
        }
        assert_eq!(rb.peek(), None);
    }
    rb.discard();
    assert_eq!(rb.len(), 0);
}
