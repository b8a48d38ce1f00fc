//! The bounded table that hands out tokens for connections.

use vstd::prelude::*;
use crate::interface::ServerFactory;
use crate::session::{Session, SessionView};

verus! {

/// The number of connections that a table holds at most.
pub const CONNS_MAX: usize = 65_536;

/// The handle of one connection. The index is the slot, which is used again
/// once it is free; the generation tells the connections apart that held it.
#[derive(Clone, Copy, Debug, PartialEq, Eq, Structural)]
pub struct Token {
    pub index: usize,
    pub generation: u64,
}

/// Why no token was handed out.
#[derive(Clone, Copy, Debug, PartialEq, Eq, Structural)]
pub enum SlotError {
    /// Every slot is taken.
    CapacityExceeded,
    /// The table has handed out all the generations it can count.
    Exhausted,
}

/// A listening socket's factory, or a connected socket's session.
pub enum Connection {
    Listener(Box<dyn ServerFactory>),
    Session(Session),
}

/// A connection as a plain value.
pub enum ConnView {
    Listener,
    Session(SessionView),
}

impl View for Connection {
    type V = ConnView;

    open spec fn view(&self) -> ConnView {
        match self {
            Connection::Listener(_) => ConnView::Listener,
            Connection::Session(s) => ConnView::Session(s@),
        }
    }
}

/// What one slot holds.
pub struct Slot {
    pub generation: u64,
    pub conn: Connection,
}

/// `slab::Slab`, a preallocated arena. Nothing is known of a slab but what
/// the functions below say of it.
#[verifier::external_type_specification]
#[verifier::external_body]
#[verifier::reject_recursive_types(T)]
#[verifier::reject_recursive_types(I)]
pub struct ExSlab<T, I>(slab::Slab<T, I>);

/// The occupied slots of a slab, by index.
pub uninterp spec fn slab_entries(s: slab::Slab<Slot, usize>) -> Map<usize, Slot>;

/// The number of slots that a slab was made with.
pub uninterp spec fn slab_limit(s: slab::Slab<Slot, usize>) -> nat;

/// A slab with every slot free.
pub open spec fn spec_no_slots() -> Map<usize, Slot> {
    Map::empty()
}

/// `slab::Slab::with_capacity`: a slab of `capacity` slots, all of them free.
#[verifier::external_body]
fn slab_with_capacity(capacity: usize) -> (s: slab::Slab<Slot, usize>)
    requires
        capacity < usize::MAX,
    ensures
        slab_entries(s) == spec_no_slots(),
        slab_limit(s) == capacity,
{
    slab::Slab::with_capacity(capacity)
}

/// `slab::Slab::len`: the number of occupied slots.
#[verifier::external_body]
fn slab_len(s: &slab::Slab<Slot, usize>) -> (n: usize)
    ensures
        n == slab_entries(*s).dom().len(),
{
    s.len()
}

/// `slab::Slab::insert`: while a slot is free the value goes into one that
/// was free, whose index is returned; a full slab hands the value back and
/// stays as it was.
#[verifier::external_body]
fn slab_insert(s: &mut slab::Slab<Slot, usize>, val: Slot) -> (r: Result<usize, Slot>)
    ensures
        slab_limit(*final(s)) == slab_limit(*old(s)),
        slab_entries(*old(s)).dom().len() < slab_limit(*old(s)) ==> r is Ok
            && r->Ok_0 < slab_limit(*old(s))
            && !slab_entries(*old(s)).dom().contains(r->Ok_0)
            && slab_entries(*final(s)) == slab_entries(*old(s)).insert(r->Ok_0, val),
        slab_entries(*old(s)).dom().len() >= slab_limit(*old(s)) ==> r is Err
            && r->Err_0 == val
            && slab_entries(*final(s)) == slab_entries(*old(s)),
{
    s.insert(val)
}

/// `slab::Slab::remove`: frees an occupied slot and returns what it held;
/// for any other index nothing changes.
#[verifier::external_body]
fn slab_remove(s: &mut slab::Slab<Slot, usize>, idx: usize) -> (r: Option<Slot>)
    ensures
        slab_limit(*final(s)) == slab_limit(*old(s)),
        slab_entries(*old(s)).dom().contains(idx) ==> r == Some(slab_entries(*old(s))[idx])
            && slab_entries(*final(s)) == slab_entries(*old(s)).remove(idx),
        !slab_entries(*old(s)).dom().contains(idx) ==> r is None
            && slab_entries(*final(s)) == slab_entries(*old(s)),
{
    s.remove(idx)
}

/// `slab::Slab::get`: what an occupied slot holds.
#[verifier::external_body]
fn slab_get(s: &slab::Slab<Slot, usize>, idx: usize) -> (r: Option<&Slot>)
    ensures
        slab_entries(*s).dom().contains(idx) ==> r == Some(&slab_entries(*s)[idx]),
        !slab_entries(*s).dom().contains(idx) ==> r is None,
{
    s.get(idx)
}

/// `slab::Slab::get_mut`: access to what an occupied slot holds; the slab
/// ends up with whatever the caller leaves in that slot, and is otherwise
/// untouched.
#[verifier::external_body]
fn slab_get_mut(s: &mut slab::Slab<Slot, usize>, idx: usize) -> (r: Option<&mut Slot>)
    ensures
        slab_limit(*final(s)) == slab_limit(*old(s)),
        slab_entries(*old(s)).dom().contains(idx) ==> r is Some
            && *r.unwrap() == slab_entries(*old(s))[idx]
            && slab_entries(*final(s)) == slab_entries(*old(s)).insert(idx, *final(r.unwrap())),
        !slab_entries(*old(s)).dom().contains(idx) ==> r is None
            && slab_entries(*final(s)) == slab_entries(*old(s)),
{
    s.get_mut(idx)
}

/// A table as a plain value.
pub struct TableView {
    /// The live connections, by token.
    pub map: Map<Token, ConnView>,
    /// The number of tokens handed out so far, which is the generation of
    /// the next one.
    pub issued: u64,
    /// The number of occupied slots.
    pub len: nat,
    /// The number of slots.
    pub capacity: nat,
}

/// Whether no live token has this index.
pub open spec fn spec_vacant(v: TableView, index: usize) -> bool {
    forall|t: Token| #[trigger] v.map.contains_key(t) ==> t.index != index
}

/// The table after a connection has gone into the slot `index`.
pub open spec fn spec_insert(v: TableView, index: usize, conn: ConnView) -> TableView {
    TableView {
        map: v.map.insert(Token { index, generation: v.issued }, conn),
        issued: (v.issued + 1) as u64,
        len: v.len + 1,
        capacity: v.capacity,
    }
}

/// The token that `spec_insert` hands out.
pub open spec fn spec_next_token(v: TableView, index: usize) -> Token {
    Token { index, generation: v.issued }
}

/// The table after the connection of a live token has left.
pub open spec fn spec_remove(v: TableView, token: Token) -> TableView {
    TableView { map: v.map.remove(token), len: (v.len - 1) as nat, ..v }
}

/// What holds of the plain value of every sound table: every live token is
/// of a generation that has been handed out.
pub open spec fn spec_issued_only(v: TableView) -> bool {
    forall|t: Token| #[trigger] v.map.contains_key(t) ==> t.generation < v.issued
}

/// What holds of the plain value of every sound table: it counts its live
/// tokens, and holds no more of them than it has slots.
pub open spec fn spec_counted(v: TableView) -> bool {
    &&& v.map.dom().finite()
    &&& v.map.dom().len() == v.len
    &&& v.len <= v.capacity
}

/// Whether the token was handed out once and is live no longer.
pub open spec fn spec_retired(v: TableView, token: Token) -> bool {
    token.generation < v.issued && !v.map.contains_key(token)
}

/// One change to a table. An insert names the slot that the connection goes
/// into; an update leaves a live token's connection in another state.
pub enum TableOp {
    Insert(usize, ConnView),
    Remove(Token),
    Update(Token, ConnView),
}

/// The table after one change. A change that the table does not take (an
/// insert into a full table, an exhausted one or a taken slot; a remove or
/// an update of a token that is not live) leaves it as it was.
pub open spec fn spec_apply(v: TableView, op: TableOp) -> TableView {
    match op {
        TableOp::Insert(index, conn) => {
            if v.len < v.capacity && v.issued < u64::MAX && spec_vacant(v, index) {
                spec_insert(v, index, conn)
            } else {
                v
            }
        },
        TableOp::Remove(token) => {
            if v.map.contains_key(token) {
                spec_remove(v, token)
            } else {
                v
            }
        },
        TableOp::Update(token, conn) => {
            if v.map.contains_key(token) {
                TableView { map: v.map.insert(token, conn), ..v }
            } else {
                v
            }
        },
    }
}

/// The table after a run of changes.
pub open spec fn spec_apply_all(v: TableView, ops: Seq<TableOp>) -> TableView
    decreases ops.len(),
{
    if ops.len() == 0 {
        v
    } else {
        spec_apply_all(spec_apply(v, ops.first()), ops.drop_first())
    }
}

/// Every change keeps the count of a table right and within its bound.
pub proof fn lemma_apply_keeps_count(v: TableView, op: TableOp)
    requires
        spec_issued_only(v),
        spec_counted(v),
    ensures
        spec_issued_only(spec_apply(v, op)),
        spec_counted(spec_apply(v, op)),
{
    match op {
        TableOp::Update(token, conn) => {
            if v.map.contains_key(token) {
                assert(v.map.insert(token, conn).dom() =~= v.map.dom());
            }
        },
        _ => {},
    }
}

/// A token whose connection has been removed is live no more.
pub proof fn lemma_remove_retires(v: TableView, token: Token)
    requires
        spec_issued_only(v),
        v.map.contains_key(token),
    ensures
        spec_retired(spec_remove(v, token), token),
        spec_issued_only(spec_remove(v, token)),
{
}

/// A token that is live no longer never becomes live again, whatever is
/// inserted and removed afterwards, and also when its slot is given to
/// another connection: that one's token is of a later generation.
pub proof fn lemma_retired_forever(v: TableView, token: Token, ops: Seq<TableOp>)
    requires
        spec_issued_only(v),
        spec_retired(v, token),
    ensures
        spec_retired(spec_apply_all(v, ops), token),
        spec_issued_only(spec_apply_all(v, ops)),
    decreases ops.len(),
{
    if ops.len() > 0 {
        let next = spec_apply(v, ops.first());
        assert(spec_issued_only(next) && spec_retired(next, token));
        lemma_retired_forever(next, token, ops.drop_first());
    }
}

/// A slot that is given out again gets a token that differs from every
/// token it had before, so the new connection is never taken for an old one.
pub proof fn lemma_reuse_is_told_apart(v: TableView, token: Token, conn: ConnView)
    requires
        spec_issued_only(v),
        spec_retired(v, token),
        v.len < v.capacity,
        v.issued < u64::MAX,
        spec_vacant(v, token.index),
    ensures
        spec_next_token(v, token.index) != token,
        spec_insert(v, token.index, conn).map.contains_key(spec_next_token(v, token.index)),
        !spec_insert(v, token.index, conn).map.contains_key(token),
{
}

/// The bounded table of connections. A token is valid from the `insert`
/// that returned it to the `remove` that takes it.
pub struct SlotTable {
    slab: slab::Slab<Slot, usize>,
    issued: u64,
    capacity: usize,
}

impl View for SlotTable {
    type V = TableView;

    closed spec fn view(&self) -> TableView {
        TableView {
            map: Map::new(
                |t: Token|
                    slab_entries(self.slab).dom().contains(t.index) && slab_entries(
                        self.slab,
                    )[t.index].generation == t.generation,
                |t: Token| slab_entries(self.slab)[t.index].conn@,
            ),
            issued: self.issued,
            len: slab_entries(self.slab).dom().len(),
            capacity: self.capacity as nat,
        }
    }
}

impl SlotTable {
    /// What holds of every table: it is never over-full, and every live
    /// token is of a generation that has been handed out.
    pub closed spec fn wf(&self) -> bool {
        &&& slab_entries(self.slab).dom().finite()
        &&& slab_limit(self.slab) == self.capacity
        &&& slab_entries(self.slab).dom().len() <= self.capacity
        &&& self.capacity <= CONNS_MAX
        &&& forall|i: usize|
            slab_entries(self.slab).dom().contains(i) ==> (#[trigger] slab_entries(
                self.slab,
            )[i]).generation < self.issued
    }

    /// What `wf` means for the table as a plain value.
    pub proof fn lemma_wf(&self)
        requires
            self.wf(),
        ensures
            self@.capacity <= CONNS_MAX,
            spec_issued_only(self@),
            spec_counted(self@),
            forall|t: Token, u: Token|
                #![trigger self@.map.contains_key(t), self@.map.contains_key(u)]
                self@.map.contains_key(t) && self@.map.contains_key(u) && t.index == u.index ==> t
                    == u,
    {
        let entries = slab_entries(self.slab);
        let token_of = |i: usize| Token { index: i, generation: entries[i].generation };
        assert forall|t: Token| self@.map.dom().contains(t) implies entries.dom().map(
            token_of,
        ).contains(t) by {
            assert(entries.dom().contains(t.index) && token_of(t.index) == t);
        }
        assert(entries.dom().map(token_of) =~= self@.map.dom());
        vstd::set_lib::lemma_map_size(entries.dom(), self@.map.dom(), token_of);
    }

    /// An empty table of `capacity` slots.
    pub fn new(capacity: usize) -> (t: SlotTable)
        requires
            capacity <= CONNS_MAX,
        ensures
            t.wf(),
            t@.map == Map::<Token, ConnView>::empty(),
            t@.issued == 0,
            t@.len == 0,
            t@.capacity == capacity,
    {
        let t = SlotTable { slab: slab_with_capacity(capacity), issued: 0, capacity };
        assert(t@.map =~= Map::<Token, ConnView>::empty());
        t
    }

    /// The number of live connections.
    pub fn len(&self) -> (n: usize)
        ensures
            n == self@.len,
    {
        slab_len(&self.slab)
    }

    /// The number of slots.
    pub fn capacity(&self) -> (n: usize)
        ensures
            n == self@.capacity,
    {
        self.capacity
    }

    /// Whether the token stands for a live connection.
    pub fn contains(&self, token: Token) -> (b: bool)
        ensures
            b == self@.map.contains_key(token),
    {
        match slab_get(&self.slab, token.index) {
            Some(slot) => slot.generation == token.generation,
            None => false,
        }
    }

    /// The connection of a live token.
    pub fn get(&self, token: Token) -> (r: Option<&Connection>)
        ensures
            r is Some <==> self@.map.contains_key(token),
            r is Some ==> r.unwrap()@ == self@.map[token],
    {
        match slab_get(&self.slab, token.index) {
            Some(slot) => {
                if slot.generation == token.generation {
                    Some(&slot.conn)
                } else {
                    None
                }
            },
            None => None,
        }
    }

    /// Puts a connection into a free slot and hands out its token, of a
    /// generation that no token had before. A full table takes nothing.
    pub fn insert(&mut self, conn: Connection) -> (r: Result<Token, SlotError>)
        requires
            old(self).wf(),
        ensures
            final(self).wf(),
            match r {
                Ok(token) => {
                    &&& old(self)@.len < old(self)@.capacity
                    &&& old(self)@.issued < u64::MAX
                    &&& token == spec_next_token(old(self)@, token.index)
                    &&& token.index < old(self)@.capacity
                    &&& spec_vacant(old(self)@, token.index)
                    &&& final(self)@ == spec_insert(old(self)@, token.index, conn@)
                },
                Err(SlotError::CapacityExceeded) => {
                    &&& old(self)@.len == old(self)@.capacity
                    &&& final(self)@ == old(self)@
                },
                Err(SlotError::Exhausted) => {
                    &&& old(self)@.len < old(self)@.capacity
                    &&& old(self)@.issued == u64::MAX
                    &&& final(self)@ == old(self)@
                },
            },
    {
        if slab_len(&self.slab) >= self.capacity {
            return Err(SlotError::CapacityExceeded);
        }
        if self.issued == u64::MAX {
            return Err(SlotError::Exhausted);
        }
        let generation = self.issued;
        let ghost view = conn@;
        match slab_insert(&mut self.slab, Slot { generation, conn }) {
            Ok(index) => {
                self.issued = generation + 1;
                let token = Token { index, generation };
                proof {
                    assert(final(self)@.map =~= old(self)@.map.insert(token, view));
                }
                Ok(token)
            },
            Err(_) => Err(SlotError::CapacityExceeded),
        }
    }

    /// Takes the connection of a live token out of the table, which frees
    /// its slot. Any other token changes nothing.
    pub fn remove(&mut self, token: Token) -> (r: Option<Connection>)
        requires
            old(self).wf(),
        ensures
            final(self).wf(),
            r is Some <==> old(self)@.map.contains_key(token),
            r is Some ==> r.unwrap()@ == old(self)@.map[token] && final(self)@ == spec_remove(
                old(self)@,
                token,
            ),
            r is None ==> final(self)@ == old(self)@,
    {
        if !self.contains(token) {
            return None;
        }
        match slab_remove(&mut self.slab, token.index) {
            Some(slot) => {
                proof {
                    assert(final(self)@.map =~= old(self)@.map.remove(token));
                }
                Some(slot.conn)
            },
            None => None,
        }
    }

    /// Access to the connection of a live token. The table ends up with
    /// whatever the caller leaves there, and is otherwise untouched.
    pub fn get_mut(&mut self, token: Token) -> (r: Option<&mut Connection>)
        requires
            old(self).wf(),
        ensures
            final(self).wf(),
            r is Some <==> old(self)@.map.contains_key(token),
            r is Some ==> r.unwrap()@ == old(self)@.map[token] && final(self)@.map
                =~= old(self)@.map.insert(token, final(r.unwrap())@),
            r is None ==> final(self)@.map == old(self)@.map,
            final(self)@.issued == old(self)@.issued,
            final(self)@.len == old(self)@.len,
            final(self)@.capacity == old(self)@.capacity,
    {
        if !self.contains(token) {
            return None;
        }
        match slab_get_mut(&mut self.slab, token.index) {
            Some(slot) => Some(&mut slot.conn),
            None => None,
        }
    }
}

} // verus!
