//! The driver: the table of connections and the decisions of the loop.
//!
//! The loop itself belongs to the caller, who owns the poller and the
//! sockets. For every readiness event it asks `dispatch` what to do, does it,
//! reports the outcome and is given the next action, until the session is
//! armed again or closed.

use vstd::prelude::*;
use crate::interface::{Protocol, ServerFactory};
use crate::session::{
    spec_delivers, spec_dispatch, spec_fresh, spec_progress, spec_received, spec_wrote, Action,
    Interest, ReadPass, ReadPassView, Readiness, Session, SessionView, WriteOutcome,
};
use crate::slots::{
    spec_apply, spec_counted, spec_insert, spec_issued_only, spec_next_token, spec_remove,
    spec_retired, spec_vacant, ConnView, Connection, SlotError, SlotTable, TableOp, TableView,
    Token, CONNS_MAX,
};
use crate::transport::TransportView;

verus! {

/// Why an accepted socket got no session.
#[derive(Clone, Copy, Debug, PartialEq, Eq, Structural)]
pub enum AcceptError {
    /// The token stands for no listener.
    NotListening,
    /// The table took no further connection.
    Slot(SlotError),
}

/// The table once the session of `token` has answered `action` and become
/// `s`: a session that is over leaves the table, any other takes its place.
pub open spec fn spec_put(v: TableView, token: Token, s: SessionView, action: Action) -> TableView {
    if action is Close {
        spec_remove(v, token)
    } else {
        TableView { map: v.map.insert(token, ConnView::Session(s)), ..v }
    }
}

/// Whether the token stands for a live session.
pub open spec fn spec_is_session(v: TableView, token: Token) -> bool {
    v.map.contains_key(token) && v.map[token] is Session
}

/// The session of a token that stands for one.
pub open spec fn spec_session(v: TableView, token: Token) -> SessionView {
    v.map[token]->Session_0
}

/// The table and the action after a readiness event for `token`: nothing
/// for a token that is not live, an accept for a listener, and for a session
/// what the session answers.
pub open spec fn spec_rio_dispatch(v: TableView, token: Token, ready: Readiness, alive: bool) -> (
    TableView,
    Action,
) {
    if !v.map.contains_key(token) {
        (v, Action::Skip)
    } else if v.map[token] is Listener {
        (v, Action::Accept)
    } else {
        let (s, action) = spec_dispatch(spec_session(v, token), ready, alive);
        (spec_put(v, token, s, action), action)
    }
}

/// The table and the action when the loop asks what to do with `token`.
pub open spec fn spec_rio_progress(v: TableView, token: Token) -> (TableView, Action) {
    if !spec_is_session(v, token) {
        (v, Action::Skip)
    } else {
        let (s, action) = spec_progress(spec_session(v, token));
        (spec_put(v, token, s, action), action)
    }
}

/// The table and the action after a write for `token`.
pub open spec fn spec_rio_wrote(v: TableView, token: Token, outcome: WriteOutcome) -> (
    TableView,
    Action,
) {
    if !spec_is_session(v, token) {
        (v, Action::Skip)
    } else {
        let (s, action) = spec_wrote(spec_session(v, token), outcome);
        (spec_put(v, token, s, action), action)
    }
}

/// The table after a read pass for `token`, where `after` is the transport
/// as the protocol leaves it, should the bytes be handed over.
pub open spec fn spec_rio_received(
    v: TableView,
    token: Token,
    pass: ReadPassView,
    after: TransportView,
) -> TableView {
    if !spec_is_session(v, token) {
        v
    } else {
        let s = spec_session(v, token);
        let transport = if spec_delivers(s, pass) {
            after
        } else {
            s.transport
        };
        TableView {
            map: v.map.insert(
                token,
                ConnView::Session(SessionView { transport, ..spec_received(s, pass) }),
            ),
            ..v
        }
    }
}

/// What holds of the plain value of every sound driver: every live token
/// has been handed out, and no live session is over.
pub open spec fn spec_rio_sound(v: TableView) -> bool {
    &&& spec_issued_only(v)
    &&& forall|t: Token| #[trigger]
        v.map.contains_key(t) && v.map[t] is Session ==> !spec_session(v, t).closed
}

/// One thing that can happen to a driver. A session that opens, or that is
/// handed a read pass, comes with the transport as its protocol leaves it.
pub enum Event {
    /// A listener goes into this slot.
    Listen(usize),
    /// A session goes into this slot and its protocol is told.
    Open(usize, TransportView),
    Dispatch(Token, Readiness, bool),
    Received(Token, ReadPassView, TransportView),
    Progress(Token),
    Wrote(Token, WriteOutcome),
}

/// The driver after one event.
pub open spec fn spec_rio_apply(v: TableView, event: Event) -> TableView {
    match event {
        Event::Listen(index) => spec_apply(v, TableOp::Insert(index, ConnView::Listener)),
        Event::Open(index, transport) => spec_apply(
            v,
            TableOp::Insert(index, ConnView::Session(SessionView { transport, ..spec_fresh() })),
        ),
        Event::Dispatch(token, ready, alive) => spec_rio_dispatch(v, token, ready, alive).0,
        Event::Received(token, pass, after) => spec_rio_received(v, token, pass, after),
        Event::Progress(token) => spec_rio_progress(v, token).0,
        Event::Wrote(token, outcome) => spec_rio_wrote(v, token, outcome).0,
    }
}

/// Whether an event ends the session of `token`, which is when its protocol
/// is told that the connection is lost.
pub open spec fn spec_rio_closes(v: TableView, event: Event, token: Token) -> bool {
    match event {
        Event::Dispatch(t, ready, alive) => t == token && spec_rio_dispatch(
            v,
            t,
            ready,
            alive,
        ).1 is Close,
        Event::Progress(t) => t == token && spec_rio_progress(v, t).1 is Close,
        Event::Wrote(t, outcome) => t == token && spec_rio_wrote(v, t, outcome).1 is Close,
        _ => false,
    }
}

/// The driver after a run of events.
pub open spec fn spec_rio_run(v: TableView, events: Seq<Event>) -> TableView
    decreases events.len(),
{
    if events.len() == 0 {
        v
    } else {
        spec_rio_run(spec_rio_apply(v, events.first()), events.drop_first())
    }
}

/// How often a run of events ends the session of `token`.
pub open spec fn spec_rio_lost(v: TableView, events: Seq<Event>, token: Token) -> nat
    decreases events.len(),
{
    if events.len() == 0 {
        0
    } else {
        let here: nat = if spec_rio_closes(v, events.first(), token) {
            1
        } else {
            0
        };
        here + spec_rio_lost(spec_rio_apply(v, events.first()), events.drop_first(), token)
    }
}

/// One event keeps a sound driver sound. It ends the session of a token
/// only if that session is live, and the token is retired from then on; a
/// token that is retired stays so.
pub proof fn lemma_rio_event(v: TableView, event: Event, token: Token)
    requires
        spec_rio_sound(v),
    ensures
        spec_rio_sound(spec_rio_apply(v, event)),
        spec_rio_closes(v, event, token) ==> spec_is_session(v, token) && spec_retired(
            spec_rio_apply(v, event),
            token,
        ),
        spec_retired(v, token) ==> spec_retired(spec_rio_apply(v, event), token),
{
}

/// A token that is retired is passed over by every later event: its
/// protocol is not told again.
pub proof fn lemma_rio_retired_is_silent(v: TableView, events: Seq<Event>, token: Token)
    requires
        spec_rio_sound(v),
        spec_retired(v, token),
    ensures
        spec_rio_lost(v, events, token) == 0,
        spec_retired(spec_rio_run(v, events), token),
    decreases events.len(),
{
    if events.len() > 0 {
        lemma_rio_event(v, events.first(), token);
        lemma_rio_retired_is_silent(spec_rio_apply(v, events.first()), events.drop_first(), token);
    }
}

/// Whatever events arrive, and in whatever order, the protocol of a session
/// is told at most once that its connection is lost; once it has been told,
/// the token is live no more.
pub proof fn lemma_rio_lost_once(v: TableView, events: Seq<Event>, token: Token)
    requires
        spec_rio_sound(v),
    ensures
        spec_rio_sound(spec_rio_run(v, events)),
        spec_rio_lost(v, events, token) <= 1,
        spec_rio_lost(v, events, token) == 1 ==> !spec_rio_run(v, events).map.contains_key(token),
    decreases events.len(),
{
    if events.len() > 0 {
        let next = spec_rio_apply(v, events.first());
        lemma_rio_event(v, events.first(), token);
        if spec_rio_closes(v, events.first(), token) {
            lemma_rio_retired_is_silent(next, events.drop_first(), token);
        }
        lemma_rio_lost_once(next, events.drop_first(), token);
    }
}

/// The I/O loop's state: every listener and every session, by token.
pub struct Rio {
    connections: SlotTable,
}

impl View for Rio {
    type V = TableView;

    closed spec fn view(&self) -> TableView {
        self.connections@
    }
}

impl Rio {
    /// What holds of every driver: its table is sound, and a session that
    /// is over has left it.
    pub closed spec fn wf(&self) -> bool {
        &&& self.connections.wf()
        &&& forall|t: Token| #[trigger]
            self@.map.contains_key(t) && self@.map[t] is Session ==> !spec_session(self@, t).closed
    }

    /// What `wf` means for the driver as a plain value.
    pub proof fn lemma_wf(&self)
        requires
            self.wf(),
        ensures
            self@.capacity <= CONNS_MAX,
            spec_counted(self@),
            spec_rio_sound(self@),
    {
        self.connections.lemma_wf();
    }

    /// A driver with room for `CONNS_MAX` connections and none yet.
    pub fn new() -> (rio: Rio)
        ensures
            rio.wf(),
            rio@.map == Map::<Token, ConnView>::empty(),
            rio@.issued == 0,
            rio@.len == 0,
            rio@.capacity == CONNS_MAX,
    {
        Rio { connections: SlotTable::new(CONNS_MAX) }
    }

    /// A driver with room for `capacity` connections and none yet.
    pub fn with_capacity(capacity: usize) -> (rio: Rio)
        requires
            capacity <= CONNS_MAX,
        ensures
            rio.wf(),
            rio@.map == Map::<Token, ConnView>::empty(),
            rio@.issued == 0,
            rio@.len == 0,
            rio@.capacity == capacity,
    {
        Rio { connections: SlotTable::new(capacity) }
    }

    /// Whether the token stands for a live connection.
    pub fn contains(&self, token: Token) -> (b: bool)
        ensures
            b == self@.map.contains_key(token),
    {
        self.connections.contains(token)
    }

    /// The number of live connections.
    pub fn len(&self) -> (n: usize)
        ensures
            n == self@.len,
    {
        self.connections.len()
    }

    /// Takes a bound listening socket's factory into the table. The socket is
    /// then to be registered for reads under the token.
    pub fn listen(&mut self, factory: Box<dyn ServerFactory>) -> (r: Result<Token, SlotError>)
        requires
            old(self).wf(),
        ensures
            final(self).wf(),
            match r {
                Ok(token) => {
                    &&& old(self)@.len < old(self)@.capacity
                    &&& old(self)@.issued < u64::MAX
                    &&& token == spec_next_token(old(self)@, token.index)
                    &&& spec_vacant(old(self)@, token.index)
                    &&& final(self)@ == spec_insert(old(self)@, token.index, ConnView::Listener)
                },
                Err(SlotError::CapacityExceeded) => {
                    &&& old(self)@.len == old(self)@.capacity
                    &&& final(self)@ == old(self)@
                },
                Err(SlotError::Exhausted) => {
                    &&& old(self)@.len < old(self)@.capacity
                    &&& old(self)@.issued == u64::MAX
                    &&& final(self)@ == old(self)@
                },
            },
    {
        self.connections.insert(Connection::Listener(factory))
    }

    /// Takes a connected socket's protocol into the table as a session and
    /// tells the protocol that the connection is made, so that it can queue
    /// a greeting before the first poll. The socket is then to be registered
    /// under the token for the session's interest. A table that takes no
    /// more leaves the protocol untold.
    pub fn connect(&mut self, protocol: Box<dyn Protocol>) -> (r: Result<Token, SlotError>)
        requires
            old(self).wf(),
        ensures
            final(self).wf(),
            match r {
                Ok(token) => {
                    &&& old(self)@.len < old(self)@.capacity
                    &&& old(self)@.issued < u64::MAX
                    &&& token == spec_next_token(old(self)@, token.index)
                    &&& spec_vacant(old(self)@, token.index)
                    &&& spec_is_session(final(self)@, token)
                    &&& spec_session(final(self)@, token) == (SessionView {
                        transport: spec_session(final(self)@, token).transport,
                        ..spec_fresh()
                    })
                    &&& final(self)@ == spec_insert(
                        old(self)@,
                        token.index,
                        final(self)@.map[token],
                    )
                },
                Err(SlotError::CapacityExceeded) => {
                    &&& old(self)@.len == old(self)@.capacity
                    &&& final(self)@ == old(self)@
                },
                Err(SlotError::Exhausted) => {
                    &&& old(self)@.len < old(self)@.capacity
                    &&& old(self)@.issued == u64::MAX
                    &&& final(self)@ == old(self)@
                },
            },
    {
        match self.connections.insert(Connection::Session(Session::new(protocol))) {
            Ok(token) => {
                match self.connections.get_mut(token) {
                    Some(Connection::Session(session)) => {
                        session.connection_made();
                    },
                    _ => {},
                }
                proof {
                    assert(self@.map =~= old(self)@.map.insert(token, self@.map[token]));
                }
                Ok(token)
            },
            Err(e) => Err(e),
        }
    }

    /// Makes the session of a socket that the listener `listener` accepted:
    /// asks the listener's factory for a protocol, takes it into the table
    /// and tells it that the connection is made. The socket is then to be
    /// registered under the new token for the session's interest. A table
    /// that takes no more leaves the protocol untold, and the socket is to
    /// be dropped.
    pub fn accept(&mut self, listener: Token) -> (r: Result<Token, AcceptError>)
        requires
            old(self).wf(),
        ensures
            final(self).wf(),
            match r {
                Ok(token) => {
                    &&& old(self)@.map.contains_key(listener)
                    &&& old(self)@.map[listener] is Listener
                    &&& old(self)@.len < old(self)@.capacity
                    &&& old(self)@.issued < u64::MAX
                    &&& token == spec_next_token(old(self)@, token.index)
                    &&& spec_vacant(old(self)@, token.index)
                    &&& spec_is_session(final(self)@, token)
                    &&& spec_session(final(self)@, token) == (SessionView {
                        transport: spec_session(final(self)@, token).transport,
                        ..spec_fresh()
                    })
                    &&& final(self)@ == spec_insert(
                        old(self)@,
                        token.index,
                        final(self)@.map[token],
                    )
                },
                Err(AcceptError::NotListening) => {
                    &&& !(old(self)@.map.contains_key(listener)
                        && old(self)@.map[listener] is Listener)
                    &&& final(self)@ == old(self)@
                },
                Err(AcceptError::Slot(SlotError::CapacityExceeded)) => {
                    &&& old(self)@.map.contains_key(listener)
                    &&& old(self)@.map[listener] is Listener
                    &&& old(self)@.len == old(self)@.capacity
                    &&& final(self)@ == old(self)@
                },
                Err(AcceptError::Slot(SlotError::Exhausted)) => {
                    &&& old(self)@.map.contains_key(listener)
                    &&& old(self)@.map[listener] is Listener
                    &&& old(self)@.len < old(self)@.capacity
                    &&& old(self)@.issued == u64::MAX
                    &&& final(self)@ == old(self)@
                },
            },
    {
        let built = match self.connections.get(listener) {
            Some(Connection::Listener(factory)) => factory.build_protocol(),
            _ => {
                return Err(AcceptError::NotListening);
            },
        };
        match self.connect(built.inner) {
            Ok(token) => Ok(token),
            Err(e) => Err(AcceptError::Slot(e)),
        }
    }

    /// The bytes that the session of `token` has queued: what the next write
    /// is to offer to the socket, all of it in one call.
    pub fn pending(&self, token: Token) -> (r: Option<&Vec<u8>>)
        ensures
            r is Some <==> spec_is_session(self@, token),
            r is Some ==> r.unwrap()@ == spec_session(self@, token).transport.pending,
    {
        match self.connections.get(token) {
            Some(Connection::Session(session)) => Some(session.transport().buf()),
            _ => None,
        }
    }

    /// The readiness that the socket of the session of `token` was last to
    /// be registered for.
    pub fn interest(&self, token: Token) -> (r: Option<Interest>)
        ensures
            r is Some <==> spec_is_session(self@, token),
            r is Some ==> r.unwrap() == spec_session(self@, token).interest,
    {
        match self.connections.get(token) {
            Some(Connection::Session(session)) => Some(session.interest()),
            _ => None,
        }
    }

    /// Answers a readiness event that the poller reported for `token`.
    /// `alive` says whether the socket still has a peer address. A token
    /// that is no longer live is passed over; a session that ends here has
    /// told its protocol and left the table.
    pub fn dispatch(&mut self, token: Token, ready: Readiness, alive: bool) -> (action: Action)
        requires
            old(self).wf(),
        ensures
            final(self).wf(),
            (final(self)@, action) == spec_rio_dispatch(old(self)@, token, ready, alive),
    {
        let action = match self.connections.get_mut(token) {
            Some(Connection::Session(session)) => session.dispatch(ready, alive),
            Some(Connection::Listener(_)) => Action::Accept,
            None => Action::Skip,
        };
        proof {
            if !spec_is_session(old(self)@, token) {
                assert(self@.map =~= old(self)@.map);
            }
        }
        let action = self.finish(token, action);
        proof {
            assert(self@.map =~= spec_rio_dispatch(old(self)@, token, ready, alive).0.map);
        }
        action
    }

    /// Says what to do next for the session of `token`: flush what is
    /// queued, arm the socket again, or drop it because the session ended
    /// here.
    pub fn progress(&mut self, token: Token) -> (action: Action)
        requires
            old(self).wf(),
        ensures
            final(self).wf(),
            (final(self)@, action) == spec_rio_progress(old(self)@, token),
    {
        let action = match self.connections.get_mut(token) {
            Some(Connection::Session(session)) => session.progress(),
            _ => Action::Skip,
        };
        proof {
            if !spec_is_session(old(self)@, token) {
                assert(self@.map =~= old(self)@.map);
            }
        }
        let action = self.finish(token, action);
        proof {
            assert(self@.map =~= spec_rio_progress(old(self)@, token).0.map);
        }
        action
    }

    /// Answers the outcome of the write that offered all the queued bytes of
    /// the session of `token`. Unless the socket took them all, or would
    /// take none for now, the session ends with `ConnectionError`.
    pub fn wrote(&mut self, token: Token, outcome: WriteOutcome) -> (action: Action)
        requires
            old(self).wf(),
        ensures
            final(self).wf(),
            (final(self)@, action) == spec_rio_wrote(old(self)@, token, outcome),
    {
        let action = match self.connections.get_mut(token) {
            Some(Connection::Session(session)) => session.wrote(outcome),
            _ => Action::Skip,
        };
        proof {
            if !spec_is_session(old(self)@, token) {
                assert(self@.map =~= old(self)@.map);
            }
        }
        let action = self.finish(token, action);
        proof {
            assert(self@.map =~= spec_rio_wrote(old(self)@, token, outcome).0.map);
        }
        action
    }

    /// Takes a finished read pass for the session of `token` and hands its
    /// bytes to the protocol, in one call, if there are any and no read
    /// failed; the result says whether it did. `progress` then says what to
    /// do next.
    pub fn received(&mut self, token: Token, pass: &ReadPass) -> (delivered: bool)
        requires
            old(self).wf(),
        ensures
            final(self).wf(),
            delivered == (spec_is_session(old(self)@, token) && spec_delivers(
                spec_session(old(self)@, token),
                pass@,
            )),
            spec_is_session(old(self)@, token) ==> spec_is_session(final(self)@, token),
            final(self)@ == spec_rio_received(
                old(self)@,
                token,
                pass@,
                spec_session(final(self)@, token).transport,
            ),
    {
        let delivered = match self.connections.get_mut(token) {
            Some(Connection::Session(session)) => session.received(pass),
            _ => false,
        };
        proof {
            assert(self@.map =~= spec_rio_received(
                old(self)@,
                token,
                pass@,
                spec_session(self@, token).transport,
            ).map);
        }
        delivered
    }

    /// Takes a session that has answered `Close` out of the table.
    fn finish(&mut self, token: Token, action: Action) -> (same: Action)
        requires
            old(self).connections.wf(),
            action is Close ==> spec_is_session(old(self)@, token),
            forall|t: Token| #[trigger]
                old(self)@.map.contains_key(t) && old(self)@.map[t] is Session && spec_session(
                    old(self)@,
                    t,
                ).closed ==> t == token && action is Close,
        ensures
            final(self).wf(),
            same == action,
            action is Close ==> final(self)@ == spec_remove(old(self)@, token),
            !(action is Close) ==> final(self)@ == old(self)@,
    {
        match action {
            Action::Close(_) => {
                let _ = self.connections.remove(token);
            },
            _ => {},
        }
        action
    }
}

} // verus!
