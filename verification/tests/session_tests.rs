use mjpeg_stream::channel::Channel;
use mjpeg_stream::session::Session;
use mjpeg_stream::session::SessionAction;
use mjpeg_stream::session::SessionState;

#[test]
fn new_session_is_connected() {
    let s = Session::new();
    assert_eq!(s.state(), SessionState::Connected);
    assert_eq!(s.last_seen(), 0);
}

#[test]
fn begin_streaming_emits_the_header() {
    let mut s = Session::new();
    let header = s.begin_streaming();
    assert_eq!(
        header,
        "HTTP/1.1 200 OK\r\nContent-Type: multipart/x-mixed-replace; boundary=frame\r\n\r\n"
    );
    assert_eq!(s.state(), SessionState::Streaming);
}

#[test]
fn one_client_receives_a_well_formed_first_part() {
    let mut c = Channel::new();
    let mut s = Session::new();
    let header = s.begin_streaming();
    assert!(header.starts_with("HTTP/1.1 200 OK\r\n"));
    let jpeg = vec![0xFFu8, 0xD8, 0xFF, 0xD9];
    c.publish(jpeg.clone());
    match s.poll(&c) {
        SessionAction::Send(p) => {
            // Positive Content-Length matching the byte count that follows.
            assert_eq!(
                p.head,
                "--frame\r\nContent-Type: image/jpeg\r\nContent-Length: 4\r\n\r\n"
            );
            assert_eq!(p.body, jpeg);
            assert_eq!(p.tail, "\r\n");
            // The blank-line separator appears exactly once, right before
            // the image bytes.
            assert_eq!(p.head.matches("\r\n\r\n").count(), 1);
            assert!(p.head.ends_with("\r\n\r\n"));
        }
        _ => panic!("expected a part to send"),
    }
    assert_eq!(s.last_seen(), 1);
}

#[test]
fn session_waits_when_nothing_is_new() {
    let c = Channel::new();
    let mut s = Session::new();
    s.begin_streaming();
    assert!(matches!(s.poll(&c), SessionAction::Wait));
    assert_eq!(s.state(), SessionState::Streaming);
    assert_eq!(s.last_seen(), 0);
}

#[test]
fn delivered_sequence_numbers_strictly_increase() {
    let mut c = Channel::new();
    let mut s = Session::new();
    s.begin_streaming();
    let mut previous: u64 = 0;
    for k in 0..5u8 {
        c.publish(vec![k]);
        match s.poll(&c) {
            SessionAction::Send(_) => {
                assert!(s.last_seen() > previous);
                previous = s.last_seen();
            }
            _ => panic!("expected a part to send"),
        }
    }
    assert_eq!(previous, 5);
}

#[test]
fn two_clients_both_observe_the_feed_in_order() {
    let mut c = Channel::new();
    let mut a = Session::new();
    let mut b = Session::new();
    let ha = a.begin_streaming();
    let hb = b.begin_streaming();
    assert_eq!(ha, hb);
    // Frame 1 published once is observed by both.
    c.publish(vec![1]);
    match a.poll(&c) {
        SessionAction::Send(p) => assert_eq!(p.body, vec![1]),
        _ => panic!("expected a part"),
    }
    match b.poll(&c) {
        SessionAction::Send(p) => assert_eq!(p.body, vec![1]),
        _ => panic!("expected a part"),
    }
    // One client stalls; frames keep coming; the stalled one later skips
    // ahead, never backwards.
    c.publish(vec![2]);
    c.publish(vec![3]);
    match a.poll(&c) {
        SessionAction::Send(p) => assert_eq!(p.body, vec![3]),
        _ => panic!("expected a part"),
    }
    assert_eq!(a.last_seen(), 3);
    match b.poll(&c) {
        SessionAction::Send(p) => assert_eq!(p.body, vec![3]),
        _ => panic!("expected a part"),
    }
    assert_eq!(b.last_seen(), 3);
}

#[test]
fn write_failure_ends_one_session_and_touches_nothing_else() {
    let mut c = Channel::new();
    let mut doomed = Session::new();
    let mut healthy = Session::new();
    doomed.begin_streaming();
    healthy.begin_streaming();
    c.publish(vec![1]);
    assert!(matches!(doomed.poll(&c), SessionAction::Send(_)));
    assert!(matches!(healthy.poll(&c), SessionAction::Send(_)));
    let seq_at_failure = c.seq();
    // The doomed session's socket write fails on frame 1.
    doomed.on_write_failure();
    assert_eq!(doomed.state(), SessionState::Failed);
    // The channel's counter is unaffected and publication continues.
    assert_eq!(c.seq(), seq_at_failure);
    c.publish(vec![2]);
    c.publish(vec![3]);
    assert_eq!(c.seq(), seq_at_failure + 2);
    // The sibling session keeps receiving, unaffected.
    match healthy.poll(&c) {
        SessionAction::Send(p) => assert_eq!(p.body, vec![3]),
        _ => panic!("expected a part"),
    }
    assert_eq!(healthy.state(), SessionState::Streaming);
}

#[test]
fn stalled_consumer_does_not_slow_the_producer() {
    let mut c = Channel::new();
    let mut stalled = Session::new();
    stalled.begin_streaming();
    // The session stops consuming entirely; the counter still grows by one
    // per publish, exactly as with no session at all.
    let before = c.seq();
    for k in 0..100u8 {
        c.publish(vec![k]);
    }
    assert_eq!(c.seq(), before + 100);
    assert_eq!(stalled.last_seen(), 0);
}

#[test]
fn end_of_stream_closes_a_blocked_session() {
    let mut c = Channel::new();
    let mut s = Session::new();
    s.begin_streaming();
    c.publish(vec![1]);
    assert!(matches!(s.poll(&c), SessionAction::Send(_)));
    // Caught up: the session would block now. The producer terminates.
    c.close();
    match s.poll(&c) {
        SessionAction::End => {}
        _ => panic!("expected end of stream, not a hang"),
    }
    assert_eq!(s.state(), SessionState::Closed);
}

#[test]
fn late_session_still_gets_the_final_frame_after_close() {
    let mut c = Channel::new();
    let mut s = Session::new();
    s.begin_streaming();
    c.publish(vec![42]);
    c.close();
    match s.poll(&c) {
        SessionAction::Send(p) => assert_eq!(p.body, vec![42]),
        _ => panic!("expected the final frame"),
    }
    match s.poll(&c) {
        SessionAction::End => {}
        _ => panic!("expected end of stream"),
    }
    assert_eq!(s.state(), SessionState::Closed);
}
