use janeiro::Transport;

#[test]
pub fn test_transport() {
    let mut transport = Transport::new();
    transport.write(b"teleport");

    {
        let buf = &transport.buf();
        assert_eq!(&buf[..], b"teleport");
    }

    assert!(&transport.should_write());
    transport.clear();
    assert!(!&transport.should_write());

    assert!(!&transport.hup());
    transport.hang_up();
    assert!(&transport.hup());
}

#[test]
fn transport_starts_empty() {
    let transport = Transport::new();
    assert!(transport.buf().is_empty());
    assert!(!transport.should_write());
    assert!(!transport.hup());
}

#[test]
fn writes_are_queued_in_call_order() {
    let mut transport = Transport::new();
    transport.write(b"ab");
    transport.write(b"");
    transport.write(b"c");
    transport.write(b"def");
    assert_eq!(&transport.buf()[..], b"abcdef");
}

#[test]
fn hang_up_keeps_what_is_queued() {
    let mut transport = Transport::new();
    transport.write(b"last words");
    transport.hang_up();
    assert!(transport.hup());
    assert!(transport.should_write());
    assert_eq!(&transport.buf()[..], b"last words");
}

#[test]
fn clear_keeps_the_close_request() {
    let mut transport = Transport::new();
    transport.write(b"x");
    transport.hang_up();
    transport.clear();
    assert!(transport.hup());
    assert!(transport.buf().is_empty());
}

#[test]
fn write_after_clear_starts_over() {
    let mut transport = Transport::new();
    transport.write(b"one");
    transport.clear();
    transport.write(b"two");
    assert_eq!(&transport.buf()[..], b"two");
}
