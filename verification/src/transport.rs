//! The queue of bytes that a session still has to send.

use vstd::prelude::*;

verus! {

/// What a transport holds: the bytes queued and not yet flushed, and whether
/// the protocol has asked to close the connection.
pub struct TransportView {
    pub pending: Seq<u8>,
    pub hup: bool,
}

/// Transport is a proxy for the socket write access.
/// Instances are passed as arguments of the `Protocol` event methods.
pub struct Transport {
    buf: Vec<u8>,
    hup: bool,
}

impl View for Transport {
    type V = TransportView;

    closed spec fn view(&self) -> TransportView {
        TransportView { pending: self.buf@, hup: self.hup }
    }
}

/// The transport after one `write` of `data`.
pub open spec fn spec_write(t: TransportView, data: Seq<u8>) -> TransportView {
    TransportView { pending: t.pending + data, hup: t.hup }
}

/// The transport after the writes of `chunks`, first to last.
pub open spec fn spec_write_all(t: TransportView, chunks: Seq<Seq<u8>>) -> TransportView
    decreases chunks.len(),
{
    if chunks.len() == 0 {
        t
    } else {
        spec_write(spec_write_all(t, chunks.drop_last()), chunks.last())
    }
}

/// The chunks laid end to end.
pub open spec fn concat(chunks: Seq<Seq<u8>>) -> Seq<u8>
    decreases chunks.len(),
{
    if chunks.len() == 0 {
        Seq::<u8>::empty()
    } else {
        concat(chunks.drop_last()) + chunks.last()
    }
}

/// Any run of writes queues the chunks end to end, in the order of the calls,
/// behind what was queued before, and leaves the close request as it was.
pub proof fn lemma_writes_concatenate(t: TransportView, chunks: Seq<Seq<u8>>)
    ensures
        spec_write_all(t, chunks).pending == t.pending + concat(chunks),
        spec_write_all(t, chunks).hup == t.hup,
    decreases chunks.len(),
{
    if chunks.len() == 0 {
        assert(t.pending + concat(chunks) =~= t.pending);
    } else {
        lemma_writes_concatenate(t, chunks.drop_last());
        assert((t.pending + concat(chunks.drop_last())) + chunks.last() =~= t.pending + (concat(
            chunks.drop_last(),
        ) + chunks.last()));
    }
}

impl Transport {
    /// A transport with nothing queued and no close request.
    pub fn new() -> (t: Transport)
        ensures
            t@.pending == Seq::<u8>::empty(),
            !t@.hup,
    {
        Transport { buf: Vec::new(), hup: false }
    }

    /// Queues `data` behind what is already queued. Nothing is sent here.
    pub fn write(&mut self, data: &[u8])
        ensures
            final(self)@ == spec_write(old(self)@, data@),
    {
        self.buf.extend_from_slice(data);
        assert(self@.pending =~= old(self)@.pending + data@);
    }

    /// Asks to close the connection once the queued bytes have been flushed.
    pub fn hang_up(&mut self)
        ensures
            final(self)@.pending == old(self)@.pending,
            final(self)@.hup,
    {
        self.hup = true;
    }

    /// Whether the protocol has asked to close the connection.
    pub fn hup(&self) -> (h: bool)
        ensures
            h == self@.hup,
    {
        self.hup
    }

    /// The bytes queued and not yet flushed.
    pub fn buf(&self) -> (b: &Vec<u8>)
        ensures
            b@ == self@.pending,
    {
        &self.buf
    }

    /// Whether any byte waits to be flushed.
    pub fn should_write(&self) -> (w: bool)
        ensures
            w == (self@.pending.len() > 0),
    {
        !self.buf.is_empty()
    }

    /// Forgets the queued bytes; the close request stays.
    pub fn clear(&mut self)
        ensures
            final(self)@.pending == Seq::<u8>::empty(),
            final(self)@.hup == old(self)@.hup,
    {
        self.buf.clear();
    }
}

} // verus!
