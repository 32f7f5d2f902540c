use mjpeg_stream::channel::Channel;
use mjpeg_stream::channel::ReadOutcome;

#[test]
fn fresh_channel_is_open_at_zero() {
    let c = Channel::new();
    assert_eq!(c.seq(), 0);
    assert!(!c.is_closed());
}

#[test]
fn publishing_with_no_clients_increments_the_counter() {
    // No session exists to consume: publication alone drives the counter.
    let mut c = Channel::new();
    c.publish(vec![1]);
    assert_eq!(c.seq(), 1);
    c.publish(vec![2]);
    assert_eq!(c.seq(), 2);
    c.publish(vec![3]);
    assert_eq!(c.seq(), 3);
    assert!(!c.is_closed());
}

#[test]
fn read_blocks_until_something_new() {
    let c = Channel::new();
    assert!(matches!(c.read_since(0), ReadOutcome::NotYet));
}

#[test]
fn read_delivers_the_published_frame() {
    let mut c = Channel::new();
    c.publish(vec![7, 8, 9]);
    match c.read_since(0) {
        ReadOutcome::Frame { bytes, seq } => {
            assert_eq!(bytes, vec![7, 8, 9]);
            assert_eq!(seq, 1);
        }
        _ => panic!("expected a frame"),
    }
}

#[test]
fn slow_reader_skips_to_the_latest_frame() {
    let mut c = Channel::new();
    c.publish(vec![1]);
    c.publish(vec![2]);
    c.publish(vec![3]);
    match c.read_since(0) {
        ReadOutcome::Frame { bytes, seq } => {
            assert_eq!(bytes, vec![3]);
            assert_eq!(seq, 3);
        }
        _ => panic!("expected a frame"),
    }
}

#[test]
fn caught_up_reader_waits() {
    let mut c = Channel::new();
    c.publish(vec![1]);
    assert!(matches!(c.read_since(1), ReadOutcome::NotYet));
}

#[test]
fn close_keeps_the_final_frame_available() {
    let mut c = Channel::new();
    c.publish(vec![4, 5]);
    c.close();
    match c.read_since(0) {
        ReadOutcome::Frame { bytes, seq } => {
            assert_eq!(bytes, vec![4, 5]);
            assert_eq!(seq, 1);
        }
        _ => panic!("expected the final frame"),
    }
}

#[test]
fn closed_channel_never_asks_a_reader_to_wait() {
    let mut c = Channel::new();
    c.publish(vec![1]);
    c.close();
    assert!(!matches!(c.read_since(0), ReadOutcome::NotYet));
    assert!(!matches!(c.read_since(1), ReadOutcome::NotYet));
    assert!(!matches!(c.read_since(5), ReadOutcome::NotYet));
}

#[test]
fn exhausted_closed_channel_ends_the_stream() {
    let mut c = Channel::new();
    c.publish(vec![1]);
    c.close();
    assert!(matches!(c.read_since(1), ReadOutcome::EndOfStream));
}

#[test]
fn try_publish_succeeds_while_open() {
    let mut c = Channel::new();
    assert!(c.try_publish(vec![1]));
    assert_eq!(c.seq(), 1);
}

#[test]
fn try_publish_refuses_after_close() {
    let mut c = Channel::new();
    c.publish(vec![1]);
    c.close();
    assert!(!c.try_publish(vec![2]));
    assert_eq!(c.seq(), 1);
    match c.read_since(0) {
        ReadOutcome::Frame { bytes, .. } => assert_eq!(bytes, vec![1]),
        _ => panic!("expected the final frame"),
    }
}
