use janeiro::session::{
    Action, Chunk, Interest, ReadPass, Readiness, Session, WriteOutcome, BUF_SIZE,
};
use janeiro::{Protocol, Reason, Transport};
use std::cell::RefCell;
use std::rc::Rc;

struct Recorder {
    made: Rc<RefCell<u32>>,
    data: Rc<RefCell<Vec<Vec<u8>>>>,
    lost: Rc<RefCell<Vec<Reason>>>,
    reply: Vec<Vec<u8>>,
    hang_up: bool,
}

impl Protocol for Recorder {
    fn connection_made(&self, _transport: &mut Transport) {
        *self.made.borrow_mut() += 1;
    }

    fn data_received(&self, data: &[u8], transport: &mut Transport) {
        self.data.borrow_mut().push(data.to_vec());
        for part in self.reply.iter() {
            transport.write(part);
        }
        if self.hang_up {
            transport.hang_up();
        }
    }

    fn connection_lost(&self, reason: Reason) {
        self.lost.borrow_mut().push(reason);
    }
}

struct Probe {
    made: Rc<RefCell<u32>>,
    data: Rc<RefCell<Vec<Vec<u8>>>>,
    lost: Rc<RefCell<Vec<Reason>>>,
}

fn recorder(reply: Vec<Vec<u8>>, hang_up: bool) -> (Session, Probe) {
    let made = Rc::new(RefCell::new(0));
    let data = Rc::new(RefCell::new(Vec::new()));
    let lost = Rc::new(RefCell::new(Vec::new()));
    let protocol = Recorder {
        made: made.clone(),
        data: data.clone(),
        lost: lost.clone(),
        reply,
        hang_up,
    };
    (Session::new(Box::new(protocol)), Probe { made, data, lost })
}

fn ready(readable: bool, writable: bool, hup: bool, error: bool) -> Readiness {
    Readiness { readable, writable, hup, error }
}

fn pass_of(chunks: Vec<Chunk>) -> ReadPass {
    let mut pass = ReadPass::new();
    for chunk in chunks {
        pass.push(chunk);
    }
    pass
}

#[test]
fn read_pass_starts_empty() {
    let pass = ReadPass::new();
    assert!(pass.bytes().is_empty());
    assert!(!pass.eof());
    assert!(!pass.failed());
    assert!(!pass.done());
}

#[test]
fn short_chunk_ends_the_pass() {
    let mut pass = ReadPass::new();
    assert!(!pass.push(Chunk::Data(b"hello\n".to_vec())));
    assert!(pass.done());
    assert!(!pass.eof());
    assert!(!pass.failed());
    assert_eq!(&pass.bytes()[..], b"hello\n");
}

#[test]
fn full_chunk_asks_for_more() {
    let mut pass = ReadPass::new();
    assert!(pass.push(Chunk::Data(vec![7u8; BUF_SIZE])));
    assert!(!pass.done());
    assert!(pass.push(Chunk::Data(vec![8u8; BUF_SIZE])));
    assert!(!pass.push(Chunk::Data(vec![9u8; 3])));
    assert!(pass.done());
    let mut expected = vec![7u8; BUF_SIZE];
    expected.extend(vec![8u8; BUF_SIZE]);
    expected.extend(vec![9u8; 3]);
    assert_eq!(pass.bytes(), &expected);
    assert_eq!(pass.bytes().len(), 2 * 4096 + 3);
}

#[test]
fn chunk_one_short_of_full_ends_the_pass() {
    let mut pass = ReadPass::new();
    assert!(!pass.push(Chunk::Data(vec![1u8; BUF_SIZE - 1])));
    assert!(pass.done());
    assert!(!pass.eof());
}

#[test]
fn empty_chunk_is_end_of_stream() {
    let mut pass = ReadPass::new();
    assert!(pass.push(Chunk::Data(vec![1u8; BUF_SIZE])));
    assert!(!pass.push(Chunk::Data(Vec::new())));
    assert!(pass.eof());
    assert!(pass.done());
    assert!(!pass.failed());
    assert_eq!(pass.bytes().len(), BUF_SIZE);
}

#[test]
fn would_block_ends_the_pass_quietly() {
    let mut pass = ReadPass::new();
    assert!(pass.push(Chunk::Data(vec![1u8; BUF_SIZE])));
    assert!(!pass.push(Chunk::WouldBlock));
    assert!(pass.done());
    assert!(!pass.eof());
    assert!(!pass.failed());
    assert_eq!(pass.bytes().len(), BUF_SIZE);
}

#[test]
fn failed_read_marks_the_pass() {
    let mut pass = ReadPass::new();
    assert!(!pass.push(Chunk::Failed));
    assert!(pass.failed());
    assert!(pass.done());
    assert!(!pass.eof());
}

#[test]
fn finished_pass_ignores_further_chunks() {
    let mut pass = ReadPass::new();
    pass.push(Chunk::Data(b"abc".to_vec()));
    assert!(!pass.push(Chunk::Data(b"def".to_vec())));
    assert!(!pass.push(Chunk::Failed));
    assert!(!pass.push(Chunk::Data(Vec::new())));
    assert_eq!(&pass.bytes()[..], b"abc");
    assert!(!pass.failed());
    assert!(!pass.eof());
}

#[test]
fn new_session_is_open_for_both_directions() {
    let (session, probe) = recorder(vec![], false);
    assert_eq!(session.interest(), Interest { readable: true, writable: true });
    assert!(!session.peer_closed());
    assert!(!session.is_closed());
    assert!(session.transport().buf().is_empty());
    assert_eq!(*probe.made.borrow(), 0);
}

#[test]
fn connection_made_reaches_the_protocol_once() {
    let (mut session, probe) = recorder(vec![], false);
    session.connection_made();
    assert_eq!(*probe.made.borrow(), 1);
    assert!(!session.is_closed());
}

#[test]
fn readable_event_asks_for_a_read() {
    let (mut session, _probe) = recorder(vec![], false);
    assert_eq!(session.dispatch(ready(true, true, false, false), true), Action::Read);
    assert!(!session.is_closed());
}

#[test]
fn writable_event_with_nothing_queued_rearms_for_reads() {
    let (mut session, probe) = recorder(vec![], false);
    let action = session.dispatch(ready(false, true, false, false), true);
    assert_eq!(action, Action::Rearm(Interest { readable: true, writable: false }));
    assert_eq!(session.interest(), Interest { readable: true, writable: false });
    assert!(probe.lost.borrow().is_empty());
}

#[test]
fn bytes_are_delivered_in_one_call_per_pass() {
    let (mut session, probe) = recorder(vec![], false);
    let pass = pass_of(vec![
        Chunk::Data(vec![1u8; BUF_SIZE]),
        Chunk::Data(vec![2u8; BUF_SIZE]),
        Chunk::Data(vec![3u8; 10]),
    ]);
    assert!(session.received(&pass));
    assert_eq!(probe.data.borrow().len(), 1);
    assert_eq!(probe.data.borrow()[0].len(), 2 * BUF_SIZE + 10);
    assert_eq!(probe.data.borrow()[0], *pass.bytes());
}

#[test]
fn empty_pass_is_not_delivered() {
    let (mut session, probe) = recorder(vec![b"never".to_vec()], false);
    let pass = pass_of(vec![Chunk::WouldBlock]);
    assert!(!session.received(&pass));
    assert!(probe.data.borrow().is_empty());
    assert!(session.transport().buf().is_empty());
    assert_eq!(
        session.progress(),
        Action::Rearm(Interest { readable: true, writable: false })
    );
}

#[test]
fn replies_are_flushed_then_the_session_rearms() {
    let (mut session, probe) = recorder(vec![b"ab".to_vec(), b"".to_vec(), b"cd".to_vec()], false);
    let pass = pass_of(vec![Chunk::Data(b"ping".to_vec())]);
    assert!(session.received(&pass));
    assert_eq!(&session.transport().buf()[..], b"abcd");
    assert_eq!(session.progress(), Action::Write);
    assert_eq!(
        session.wrote(WriteOutcome::Wrote(4)),
        Action::Rearm(Interest { readable: true, writable: false })
    );
    assert!(session.transport().buf().is_empty());
    assert!(probe.lost.borrow().is_empty());
}

#[test]
fn short_write_forces_connection_error() {
    let (mut session, probe) = recorder(vec![b"abcd".to_vec()], false);
    session.received(&pass_of(vec![Chunk::Data(b"x".to_vec())]));
    assert_eq!(session.progress(), Action::Write);
    assert_eq!(
        session.wrote(WriteOutcome::Wrote(3)),
        Action::Close(Reason::ConnectionError)
    );
    assert!(session.is_closed());
    assert_eq!(*probe.lost.borrow(), vec![Reason::ConnectionError]);
}

#[test]
fn failed_write_forces_connection_error() {
    let (mut session, probe) = recorder(vec![b"abcd".to_vec()], true);
    session.received(&pass_of(vec![Chunk::Data(b"x".to_vec())]));
    assert_eq!(session.progress(), Action::Write);
    assert_eq!(session.wrote(WriteOutcome::Failed), Action::Close(Reason::ConnectionError));
    assert_eq!(*probe.lost.borrow(), vec![Reason::ConnectionError]);
}

#[test]
fn blocked_write_keeps_the_bytes_and_asks_for_writable() {
    let (mut session, probe) = recorder(vec![b"abcd".to_vec()], false);
    session.received(&pass_of(vec![Chunk::Data(b"x".to_vec())]));
    assert_eq!(session.progress(), Action::Write);
    assert_eq!(
        session.wrote(WriteOutcome::WouldBlock),
        Action::Rearm(Interest { readable: true, writable: true })
    );
    assert_eq!(&session.transport().buf()[..], b"abcd");
    assert_eq!(session.dispatch(ready(false, true, false, false), true), Action::Write);
    assert_eq!(
        session.wrote(WriteOutcome::Wrote(4)),
        Action::Rearm(Interest { readable: true, writable: false })
    );
    assert!(probe.lost.borrow().is_empty());
}

#[test]
fn hang_up_closes_after_the_flush() {
    let (mut session, probe) = recorder(vec![b"bye\n".to_vec()], true);
    session.received(&pass_of(vec![Chunk::Data(b"bye\n".to_vec())]));
    assert_eq!(session.progress(), Action::Write);
    assert!(probe.lost.borrow().is_empty());
    assert_eq!(session.wrote(WriteOutcome::Wrote(4)), Action::Close(Reason::HangUp));
    assert_eq!(*probe.lost.borrow(), vec![Reason::HangUp]);
}

#[test]
fn hang_up_wins_over_peer_close() {
    let (mut session, probe) = recorder(vec![], true);
    let pass = pass_of(vec![Chunk::Data(b"bye".to_vec())]);
    session.received(&pass);
    let action = session.dispatch(ready(false, false, true, false), true);
    assert_eq!(action, Action::Close(Reason::HangUp));
    assert_eq!(*probe.lost.borrow(), vec![Reason::HangUp]);
}

#[test]
fn peer_end_of_stream_closes_with_connection_lost() {
    let (mut session, probe) = recorder(vec![], false);
    let pass = pass_of(vec![Chunk::Data(Vec::new())]);
    assert!(!session.received(&pass));
    assert!(session.peer_closed());
    assert_eq!(session.progress(), Action::Close(Reason::ConnectionLost));
    assert_eq!(*probe.lost.borrow(), vec![Reason::ConnectionLost]);
}

#[test]
fn peer_close_with_output_queued_keeps_writing() {
    let (mut session, probe) = recorder(vec![b"late".to_vec()], false);
    let pass = pass_of(vec![Chunk::Data(vec![5u8; BUF_SIZE]), Chunk::Data(Vec::new())]);
    assert!(session.received(&pass));
    assert!(session.peer_closed());
    assert_eq!(session.progress(), Action::Write);
    assert_eq!(
        session.wrote(WriteOutcome::WouldBlock),
        Action::Rearm(Interest { readable: false, writable: true })
    );
    assert_eq!(session.wrote(WriteOutcome::Wrote(4)), Action::Close(Reason::ConnectionLost));
    assert_eq!(*probe.lost.borrow(), vec![Reason::ConnectionLost]);
}

#[test]
fn hup_event_closes_an_idle_session() {
    let (mut session, probe) = recorder(vec![], false);
    let action = session.dispatch(ready(true, false, true, false), true);
    assert_eq!(action, Action::Close(Reason::ConnectionLost));
    assert_eq!(*probe.lost.borrow(), vec![Reason::ConnectionLost]);
}

#[test]
fn error_event_closes_with_connection_error() {
    let (mut session, probe) = recorder(vec![], true);
    let action = session.dispatch(ready(true, true, true, true), true);
    assert_eq!(action, Action::Close(Reason::ConnectionError));
    assert_eq!(*probe.lost.borrow(), vec![Reason::ConnectionError]);
}

#[test]
fn dead_socket_closes_with_connection_error() {
    let (mut session, probe) = recorder(vec![], false);
    let action = session.dispatch(ready(true, false, false, false), false);
    assert_eq!(action, Action::Close(Reason::ConnectionError));
    assert_eq!(*probe.lost.borrow(), vec![Reason::ConnectionError]);
}

#[test]
fn failed_read_closes_without_delivering() {
    let (mut session, probe) = recorder(vec![b"never".to_vec()], false);
    let pass = pass_of(vec![Chunk::Data(vec![1u8; BUF_SIZE]), Chunk::Failed]);
    assert!(!session.received(&pass));
    assert!(probe.data.borrow().is_empty());
    assert_eq!(session.progress(), Action::Close(Reason::ConnectionError));
    assert_eq!(*probe.lost.borrow(), vec![Reason::ConnectionError]);
}

#[test]
fn closed_session_ignores_every_further_event() {
    let (mut session, probe) = recorder(vec![b"x".to_vec()], true);
    assert_eq!(
        session.dispatch(ready(false, false, false, true), true),
        Action::Close(Reason::ConnectionError)
    );
    assert_eq!(session.dispatch(ready(true, true, true, true), false), Action::Skip);
    assert_eq!(session.progress(), Action::Skip);
    assert_eq!(session.settle(), Action::Skip);
    assert_eq!(session.wrote(WriteOutcome::Failed), Action::Skip);
    assert_eq!(session.wrote(WriteOutcome::Wrote(0)), Action::Skip);
    assert!(!session.received(&pass_of(vec![Chunk::Data(b"late".to_vec())])));
    assert!(probe.data.borrow().is_empty());
    assert_eq!(probe.lost.borrow().len(), 1);
    assert!(session.is_closed());
}
