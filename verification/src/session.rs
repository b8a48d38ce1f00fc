//! The state machine of one connected socket.
//!
//! A session never touches its socket. The loop reports what the socket did
//! (a readiness event, the chunks of a read pass, the outcome of a write) and
//! the session answers with the next thing to do.

use vstd::prelude::*;
use crate::interface::{Protocol, Reason};
use crate::transport::{
    concat, lemma_writes_concatenate, spec_write_all, Transport, TransportView,
};

verus! {

/// Size of the buffer that one read fills. A read that fills it whole is
/// followed by another one.
pub const BUF_SIZE: usize = 4096;

/// The readiness a session subscribes to.
#[derive(Clone, Copy, Debug, PartialEq, Eq, Structural)]
pub struct Interest {
    pub readable: bool,
    pub writable: bool,
}

/// What the poller reported for one socket.
#[derive(Clone, Copy, Debug, PartialEq, Eq, Structural)]
pub struct Readiness {
    pub readable: bool,
    pub writable: bool,
    pub hup: bool,
    pub error: bool,
}

/// What the loop has to do next for the token it reported on.
#[derive(Clone, Copy, Debug, PartialEq, Eq, Structural)]
pub enum Action {
    /// Nothing: the token stands for no live connection.
    Skip,
    /// The token is a listener: accept until the call would block.
    Accept,
    /// Read from the socket, chunk by chunk, and report the pass.
    Read,
    /// Offer the queued bytes to the socket in one write and report the outcome.
    Write,
    /// Register the socket again, one-shot, for this readiness.
    Rearm(Interest),
    /// The session is over: the protocol has been told why. Drop the socket.
    Close(Reason),
}

/// The outcome of one non-blocking write of the queued bytes.
#[derive(Clone, Copy, Debug, PartialEq, Eq, Structural)]
pub enum WriteOutcome {
    /// The socket took this many bytes.
    Wrote(usize),
    /// The socket took nothing for now.
    WouldBlock,
    /// The write failed.
    Failed,
}

/// The outcome of one non-blocking read into a buffer of `BUF_SIZE` bytes.
pub enum Chunk {
    /// The bytes read; none means that the peer closed its side.
    Data(Vec<u8>),
    /// Nothing to read for now.
    WouldBlock,
    /// The read failed.
    Failed,
}

/// A chunk as a plain value.
pub enum ChunkView {
    Data(Seq<u8>),
    WouldBlock,
    Failed,
}

impl View for Chunk {
    type V = ChunkView;

    open spec fn view(&self) -> ChunkView {
        match self {
            Chunk::Data(d) => ChunkView::Data(d@),
            Chunk::WouldBlock => ChunkView::WouldBlock,
            Chunk::Failed => ChunkView::Failed,
        }
    }
}

/// What a read pass has gathered so far.
pub struct ReadPassView {
    /// The bytes of the chunks read, end to end.
    pub bytes: Seq<u8>,
    /// The peer closed its side.
    pub eof: bool,
    /// A read failed.
    pub failed: bool,
    /// The pass is over: no further read is to be made.
    pub done: bool,
}

/// The pass after one more chunk. A pass that is over ignores it.
pub open spec fn spec_push(p: ReadPassView, chunk: ChunkView) -> ReadPassView {
    if p.done {
        p
    } else {
        match chunk {
            ChunkView::Data(d) => {
                if d.len() == 0 {
                    ReadPassView { eof: true, done: true, ..p }
                } else {
                    ReadPassView { bytes: p.bytes + d, done: d.len() < BUF_SIZE, ..p }
                }
            },
            ChunkView::WouldBlock => ReadPassView { done: true, ..p },
            ChunkView::Failed => ReadPassView { failed: true, done: true, ..p },
        }
    }
}

/// The pass after the outcomes of a run of reads, first to last.
pub open spec fn spec_push_all(p: ReadPassView, chunks: Seq<ChunkView>) -> ReadPassView
    decreases chunks.len(),
{
    if chunks.len() == 0 {
        p
    } else {
        spec_push(spec_push_all(p, chunks.drop_last()), chunks.last())
    }
}

/// The reads that brought these bytes, one chunk each.
pub open spec fn spec_data(chunks: Seq<Seq<u8>>) -> Seq<ChunkView> {
    chunks.map_values(|d: Seq<u8>| ChunkView::Data(d))
}

/// A pass hands on the bytes of its chunks end to end, in the order they
/// were read: of chunks that all hold bytes, and all but the last fill the
/// buffer, none is dropped, split or moved. The pass is over as soon as the
/// last one falls short of the buffer.
pub proof fn lemma_pass_concatenates(p: ReadPassView, chunks: Seq<Seq<u8>>)
    requires
        !p.done,
        forall|i: int| 0 <= i < chunks.len() ==> (#[trigger] chunks[i]).len() > 0,
        forall|i: int| 0 <= i < chunks.len() - 1 ==> (#[trigger] chunks[i]).len() >= BUF_SIZE,
    ensures
        spec_push_all(p, spec_data(chunks)).bytes == p.bytes + concat(chunks),
        spec_push_all(p, spec_data(chunks)).eof == p.eof,
        spec_push_all(p, spec_data(chunks)).failed == p.failed,
        spec_push_all(p, spec_data(chunks)).done == (chunks.len() > 0 && chunks.last().len()
            < BUF_SIZE),
    decreases chunks.len(),
{
    if chunks.len() == 0 {
        assert(p.bytes + concat(chunks) =~= p.bytes);
    } else {
        let front = chunks.drop_last();
        lemma_pass_concatenates(p, front);
        assert(spec_data(chunks).drop_last() =~= spec_data(front));
        assert(spec_data(chunks).last() == ChunkView::Data(chunks.last()));
        if front.len() > 0 {
            assert(front.last() == chunks[chunks.len() - 2]);
        }
        assert((p.bytes + concat(front)) + chunks.last() =~= p.bytes + (concat(front)
            + chunks.last()));
    }
}

/// The bytes that one readable event brings, gathered chunk by chunk.
pub struct ReadPass {
    bytes: Vec<u8>,
    eof: bool,
    failed: bool,
    done: bool,
}

impl View for ReadPass {
    type V = ReadPassView;

    closed spec fn view(&self) -> ReadPassView {
        ReadPassView { bytes: self.bytes@, eof: self.eof, failed: self.failed, done: self.done }
    }
}

impl ReadPass {
    /// A pass that has read nothing yet.
    pub fn new() -> (p: ReadPass)
        ensures
            p@ == (ReadPassView { bytes: Seq::<u8>::empty(), eof: false, failed: false, done: false }),
    {
        ReadPass { bytes: Vec::new(), eof: false, failed: false, done: false }
    }

    /// Takes the outcome of one read. Returns whether another read is to be
    /// made: after a chunk that filled the buffer, and only then.
    pub fn push(&mut self, chunk: Chunk) -> (more: bool)
        ensures
            final(self)@ == spec_push(old(self)@, chunk@),
            more == !final(self)@.done,
    {
        if self.done {
            return false;
        }
        match chunk {
            Chunk::Data(d) => {
                if d.len() == 0 {
                    self.eof = true;
                    self.done = true;
                } else {
                    self.bytes.extend_from_slice(d.as_slice());
                    self.done = d.len() < BUF_SIZE;
                    assert(self@.bytes =~= old(self)@.bytes + d@);
                }
            },
            Chunk::WouldBlock => {
                self.done = true;
            },
            Chunk::Failed => {
                self.failed = true;
                self.done = true;
            },
        }
        !self.done
    }

    /// The bytes gathered so far.
    pub fn bytes(&self) -> (b: &Vec<u8>)
        ensures
            b@ == self@.bytes,
    {
        &self.bytes
    }

    /// Whether the peer closed its side.
    pub fn eof(&self) -> (e: bool)
        ensures
            e == self@.eof,
    {
        self.eof
    }

    /// Whether a read failed.
    pub fn failed(&self) -> (f: bool)
        ensures
            f == self@.failed,
    {
        self.failed
    }

    /// Whether the pass is over.
    pub fn done(&self) -> (d: bool)
        ensures
            d == self@.done,
    {
        self.done
    }
}

/// A session as a plain value.
pub struct SessionView {
    /// The output queued by the protocol, and its close request.
    pub transport: TransportView,
    /// The readiness the socket was last registered for.
    pub interest: Interest,
    /// The peer closed its side.
    pub peer_closed: bool,
    /// A read or a write failed, or the socket became invalid.
    pub failed: bool,
    /// The session is over and the protocol has been told.
    pub closed: bool,
}

/// Both directions: what a socket is registered for when its session starts.
pub open spec fn spec_all_interest() -> Interest {
    Interest { readable: true, writable: true }
}

/// A session that has just been made, before the protocol hears of it.
pub open spec fn spec_fresh() -> SessionView {
    SessionView {
        transport: TransportView { pending: Seq::<u8>::empty(), hup: false },
        interest: spec_all_interest(),
        peer_closed: false,
        failed: false,
        closed: false,
    }
}

/// The readiness to subscribe to: reads until the peer has closed its side,
/// writes while output is queued.
pub open spec fn spec_interest(s: SessionView) -> Interest {
    Interest { readable: !s.peer_closed, writable: s.transport.pending.len() > 0 }
}

/// Whether the session is to end: after a failure, or once nothing is queued
/// and either side has closed.
pub open spec fn spec_finished(s: SessionView) -> bool {
    s.failed || (s.transport.pending.len() == 0 && (s.peer_closed || s.transport.hup))
}

/// Why a session that is to end does so.
pub open spec fn spec_reason(s: SessionView) -> Reason {
    if s.failed {
        Reason::ConnectionError
    } else if s.transport.hup {
        Reason::HangUp
    } else {
        Reason::ConnectionLost
    }
}

/// The end of an event's handling: the session closes or is armed again.
pub open spec fn spec_settle(s: SessionView) -> (SessionView, Action) {
    if s.closed {
        (s, Action::Skip)
    } else if spec_finished(s) {
        (SessionView { closed: true, ..s }, Action::Close(spec_reason(s)))
    } else {
        (SessionView { interest: spec_interest(s), ..s }, Action::Rearm(spec_interest(s)))
    }
}

/// What to do with a session as it stands: flush what is queued, else settle.
pub open spec fn spec_progress(s: SessionView) -> (SessionView, Action) {
    if !s.closed && !s.failed && s.transport.pending.len() > 0 {
        (s, Action::Write)
    } else {
        spec_settle(s)
    }
}

/// The answer to a readiness event. `alive` says whether the socket still
/// has a peer address.
pub open spec fn spec_dispatch(s: SessionView, ready: Readiness, alive: bool) -> (
    SessionView,
    Action,
) {
    if s.closed {
        (s, Action::Skip)
    } else if !alive || ready.error {
        spec_settle(SessionView { failed: true, ..s })
    } else if ready.hup {
        spec_progress(SessionView { peer_closed: true, ..s })
    } else if ready.readable {
        (s, Action::Read)
    } else {
        spec_progress(s)
    }
}

/// Whether a read pass is handed to the protocol: when it brought bytes and
/// no read failed, to a session that is not over.
pub open spec fn spec_delivers(s: SessionView, pass: ReadPassView) -> bool {
    !s.closed && !pass.failed && pass.bytes.len() > 0
}

/// The session after a read pass, before the protocol sees the bytes.
pub open spec fn spec_received(s: SessionView, pass: ReadPassView) -> SessionView {
    if s.closed {
        s
    } else if pass.failed {
        SessionView { failed: true, ..s }
    } else {
        SessionView { peer_closed: s.peer_closed || pass.eof, ..s }
    }
}

/// The answer to the outcome of a write of all that was queued.
pub open spec fn spec_wrote(s: SessionView, outcome: WriteOutcome) -> (SessionView, Action) {
    if s.closed {
        (s, Action::Skip)
    } else {
        match outcome {
            WriteOutcome::Wrote(n) => {
                if n == s.transport.pending.len() {
                    spec_settle(
                        SessionView {
                            transport: TransportView { pending: Seq::<u8>::empty(), ..s.transport },
                            ..s
                        },
                    )
                } else {
                    spec_settle(SessionView { failed: true, ..s })
                }
            },
            WriteOutcome::WouldBlock => spec_settle(s),
            WriteOutcome::Failed => spec_settle(SessionView { failed: true, ..s }),
        }
    }
}

/// One thing that can happen to a session. A read pass comes with the
/// transport as the protocol leaves it, should the bytes be handed over.
pub enum Step {
    Dispatch(Readiness, bool),
    Received(ReadPassView, TransportView),
    Progress,
    Wrote(WriteOutcome),
}

/// The session after one step.
pub open spec fn spec_step(s: SessionView, step: Step) -> SessionView {
    match step {
        Step::Dispatch(ready, alive) => spec_dispatch(s, ready, alive).0,
        Step::Received(pass, after) => SessionView {
            transport: if spec_delivers(s, pass) {
                after
            } else {
                s.transport
            },
            ..spec_received(s, pass)
        },
        Step::Progress => spec_progress(s).0,
        Step::Wrote(outcome) => spec_wrote(s, outcome).0,
    }
}

/// The action that one step answers with; a read pass answers with none.
pub open spec fn spec_step_action(s: SessionView, step: Step) -> Action {
    match step {
        Step::Dispatch(ready, alive) => spec_dispatch(s, ready, alive).1,
        Step::Received(pass, after) => Action::Skip,
        Step::Progress => spec_progress(s).1,
        Step::Wrote(outcome) => spec_wrote(s, outcome).1,
    }
}

/// The session after a run of steps.
pub open spec fn spec_run(s: SessionView, steps: Seq<Step>) -> SessionView
    decreases steps.len(),
{
    if steps.len() == 0 {
        s
    } else {
        spec_run(spec_step(s, steps.first()), steps.drop_first())
    }
}

/// How many steps of a run answer that the session is over, which is how
/// often the protocol is told that its connection is lost.
pub open spec fn spec_closes(s: SessionView, steps: Seq<Step>) -> nat
    decreases steps.len(),
{
    if steps.len() == 0 {
        0
    } else {
        let here: nat = if spec_step_action(s, steps.first()) is Close {
            1
        } else {
            0
        };
        here + spec_closes(spec_step(s, steps.first()), steps.drop_first())
    }
}

/// A step answers that the session is over exactly when it takes a live
/// session to its end; a session that is over stays as it is.
pub proof fn lemma_step_closes(s: SessionView, step: Step)
    ensures
        spec_step_action(s, step) is Close <==> !s.closed && spec_step(s, step).closed,
        s.closed ==> spec_step(s, step) == s,
{
}

/// However many events follow, the protocol is told at most once that its
/// connection is lost: once if the run ends with the session over, never
/// otherwise, and never again by a session that was over before the run.
pub proof fn lemma_lost_once(s: SessionView, steps: Seq<Step>)
    ensures
        spec_closes(s, steps) <= 1,
        spec_closes(s, steps) == 1 <==> !s.closed && spec_run(s, steps).closed,
        s.closed ==> spec_run(s, steps) == s,
    decreases steps.len(),
{
    if steps.len() > 0 {
        lemma_step_closes(s, steps.first());
        lemma_lost_once(spec_step(s, steps.first()), steps.drop_first());
    }
}

/// What a protocol writes during one call reaches the socket whole and in
/// the order of the calls: with nothing queued before, the next write offers
/// exactly the chunks end to end, and once the socket has taken them all
/// nothing is left queued.
pub proof fn lemma_flush_offers_writes(s: SessionView, chunks: Seq<Seq<u8>>, n: usize)
    requires
        !s.closed,
        !s.failed,
        s.transport.pending.len() == 0,
        concat(chunks).len() == n,
        n > 0,
    ensures
        ({
            let queued = SessionView { transport: spec_write_all(s.transport, chunks), ..s };
            &&& queued.transport.pending == concat(chunks)
            &&& spec_progress(queued) == (queued, Action::Write)
            &&& spec_wrote(queued, WriteOutcome::Wrote(n)).0.transport.pending.len() == 0
            &&& !(spec_wrote(queued, WriteOutcome::Wrote(n)).1 is Write)
        }),
{
    lemma_writes_concatenate(s.transport, chunks);
    assert(s.transport.pending + concat(chunks) =~= concat(chunks));
}

/// One connected socket's protocol instance, its queued output and its
/// half-close bookkeeping.
pub struct Session {
    protocol: Box<dyn Protocol>,
    transport: Transport,
    interest: Interest,
    peer_closed: bool,
    failed: bool,
    closed: bool,
}

impl View for Session {
    type V = SessionView;

    closed spec fn view(&self) -> SessionView {
        SessionView {
            transport: self.transport@,
            interest: self.interest,
            peer_closed: self.peer_closed,
            failed: self.failed,
            closed: self.closed,
        }
    }
}

impl Session {
    /// A session for a socket that has just connected or been accepted.
    pub fn new(protocol: Box<dyn Protocol>) -> (s: Session)
        ensures
            s@ == spec_fresh(),
    {
        Session {
            protocol,
            transport: Transport::new(),
            interest: Interest { readable: true, writable: true },
            peer_closed: false,
            failed: false,
            closed: false,
        }
    }

    /// Tells the protocol that the connection is made, so that it can queue a
    /// greeting. Only what the protocol did to the transport changes: a
    /// protocol that keeps the hook's default leaves the session as it was.
    /// What the hook queued is what `progress` then asks to flush.
    pub fn connection_made(&mut self)
        ensures
            final(self)@ == (SessionView { transport: final(self)@.transport, ..old(self)@ }),
    {
        self.protocol.connection_made(&mut self.transport);
    }

    /// The output queued and not yet flushed: what the next write offers.
    pub fn transport(&self) -> (t: &Transport)
        ensures
            t@ == self@.transport,
    {
        &self.transport
    }

    /// The readiness the socket was last registered for.
    pub fn interest(&self) -> (i: Interest)
        ensures
            i == self@.interest,
    {
        self.interest
    }

    /// Whether the peer closed its side.
    pub fn peer_closed(&self) -> (c: bool)
        ensures
            c == self@.peer_closed,
    {
        self.peer_closed
    }

    /// Whether the session is over.
    pub fn is_closed(&self) -> (c: bool)
        ensures
            c == self@.closed,
    {
        self.closed
    }

    /// Ends the handling of an event: closes the session, telling the
    /// protocol why, or says what to register the socket for.
    pub fn settle(&mut self) -> (action: Action)
        ensures
            (final(self)@, action) == spec_settle(old(self)@),
    {
        if self.closed {
            return Action::Skip;
        }
        let queued = self.transport.should_write();
        let hup = self.transport.hup();
        if self.failed || (!queued && (self.peer_closed || hup)) {
            let reason = if self.failed {
                Reason::ConnectionError
            } else if hup {
                Reason::HangUp
            } else {
                Reason::ConnectionLost
            };
            self.protocol.connection_lost(reason);
            self.closed = true;
            Action::Close(reason)
        } else {
            let interest = Interest { readable: !self.peer_closed, writable: queued };
            self.interest = interest;
            Action::Rearm(interest)
        }
    }

    /// Says what to do with the session as it stands.
    pub fn progress(&mut self) -> (action: Action)
        ensures
            (final(self)@, action) == spec_progress(old(self)@),
    {
        if !self.closed && !self.failed && self.transport.should_write() {
            Action::Write
        } else {
            self.settle()
        }
    }

    /// Answers a readiness event.
    pub fn dispatch(&mut self, ready: Readiness, alive: bool) -> (action: Action)
        ensures
            (final(self)@, action) == spec_dispatch(old(self)@, ready, alive),
    {
        if self.closed {
            Action::Skip
        } else if !alive || ready.error {
            self.failed = true;
            self.settle()
        } else if ready.hup {
            self.peer_closed = true;
            self.progress()
        } else if ready.readable {
            Action::Read
        } else {
            self.progress()
        }
    }

    /// Takes a finished read pass. The bytes go to the protocol in one call,
    /// if there are any and no read failed; the result says whether they did.
    /// Only the protocol changes the transport.
    pub fn received(&mut self, pass: &ReadPass) -> (delivered: bool)
        ensures
            delivered == spec_delivers(old(self)@, pass@),
            final(self)@ == (SessionView {
                transport: final(self)@.transport,
                ..spec_received(old(self)@, pass@)
            }),
            !delivered ==> final(self)@.transport == old(self)@.transport,
    {
        if self.closed {
            return false;
        }
        if pass.failed() {
            self.failed = true;
            return false;
        }
        if pass.eof() {
            self.peer_closed = true;
        }
        let bytes = pass.bytes();
        if bytes.len() > 0 {
            self.protocol.data_received(bytes.as_slice(), &mut self.transport);
            true
        } else {
            false
        }
    }

    /// Answers the outcome of one write that offered all the queued bytes.
    pub fn wrote(&mut self, outcome: WriteOutcome) -> (action: Action)
        ensures
            (final(self)@, action) == spec_wrote(old(self)@, outcome),
    {
        if self.closed {
            return Action::Skip;
        }
        match outcome {
            WriteOutcome::Wrote(n) => {
                if n == self.transport.buf().len() {
                    self.transport.clear();
                } else {
                    self.failed = true;
                }
            },
            WriteOutcome::WouldBlock => {},
            WriteOutcome::Failed => {
                self.failed = true;
            },
        }
        self.settle()
    }
}

} // verus!
