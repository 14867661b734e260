use vstd::prelude::*;
use vstd::slice::{slice_subrange, slice_to_vec};

verus! {

/// How many bytes one read from the sending socket asks for: the size of a
/// typical network frame.
pub const CHUNK_SIZE: usize = 1500;

/// Why a forwarding direction stopped.
#[derive(PartialEq, Eq, Structural, Clone, Copy, Debug)]
pub enum CloseReason {
    /// The sender returned end of stream.
    SenderClosed,
    /// Reading from the sender failed.
    ReadFailed,
    /// The receiver took no bytes of a write.
    ReceiverRefused,
    /// Writing to the receiver failed.
    WriteFailed,
    /// The other direction of the connection had already stopped.
    Cancelled,
}

/// What a forwarding direction does next.
#[derive(PartialEq, Eq, Structural, Clone, Copy, Debug)]
pub enum ForwardAction {
    /// Read one chunk from the sender.
    Read,
    /// Write the pending bytes to the receiver.
    Write,
    /// Leave the loop: mark the connection as closed and shut the receiver.
    Stop(CloseReason),
}

/// The state of one forwarding direction, seen as the bytes it has taken
/// from the sender, the bytes it has handed to the receiver and the bytes
/// read but not yet written.
pub struct ForwarderView {
    pub received: Seq<u8>,
    pub delivered: Seq<u8>,
    pub pending: Seq<u8>,
    pub stopped: Option<CloseReason>,
}

/// The step a forwarding direction in state `v` takes after reading the
/// shared connection flag.
pub open spec fn action_for(v: ForwarderView, connected: bool) -> ForwardAction {
    match v.stopped {
        Some(reason) => ForwardAction::Stop(reason),
        None => if !connected {
            ForwardAction::Stop(CloseReason::Cancelled)
        } else if v.pending.len() == 0 {
            ForwardAction::Read
        } else {
            ForwardAction::Write
        },
    }
}

/// One direction of a relayed connection: a loop that reads a chunk from
/// one socket and writes it to the other until either side gives out.
pub struct Forwarder {
    chunk: Vec<u8>,
    start: usize,
    stopped: Option<CloseReason>,
    received: Ghost<Seq<u8>>,
    delivered: Ghost<Seq<u8>>,
}

impl View for Forwarder {
    type V = ForwarderView;

    closed spec fn view(&self) -> ForwarderView {
        ForwarderView {
            received: self.received@,
            delivered: self.delivered@,
            pending: self.chunk@.subrange(self.start as int, self.chunk@.len() as int),
            stopped: self.stopped,
        }
    }
}

impl Forwarder {
    /// Every byte received is either delivered or pending, in the order it
    /// came; at most one chunk is pending; a sender that closed left nothing
    /// pending.
    pub open spec fn wf(&self) -> bool {
        &&& self.chunk_in_bounds()
        &&& self@.pending.len() <= CHUNK_SIZE
        &&& self@.delivered + self@.pending == self@.received
        &&& self@.stopped == Some(CloseReason::SenderClosed) ==> self@.pending.len() == 0
    }

    /// The unwritten part of the current chunk starts inside it.
    pub closed spec fn chunk_in_bounds(&self) -> bool {
        self.start <= self.chunk@.len()
    }

    /// A direction that has moved no bytes yet.
    pub fn new() -> (r: Self)
        ensures
            r.wf(),
            r@.received.len() == 0,
            r@.delivered.len() == 0,
            r@.pending.len() == 0,
            r@.stopped is None,
    {
        let r = Forwarder {
            chunk: Vec::new(),
            start: 0,
            stopped: None,
            received: Ghost(Seq::empty()),
            delivered: Ghost(Seq::empty()),
        };
        proof {
            assert(r@.pending =~= Seq::<u8>::empty());
            assert(r@.delivered + r@.pending =~= r@.received);
        }
        r
    }

    /// The step after checking the shared connection flag: stop for good once
    /// stopped, stop as cancelled when the connection is no longer marked
    /// open, else write what is pending or read more.
    pub fn next_action(&mut self, connected: bool) -> (r: ForwardAction)
        requires
            old(self).wf(),
        ensures
            final(self).wf(),
            final(self)@.received == old(self)@.received,
            final(self)@.delivered == old(self)@.delivered,
            final(self)@.pending == old(self)@.pending,
            r == action_for(old(self)@, connected),
            final(self)@.stopped == (match r {
                ForwardAction::Stop(reason) => Some(reason),
                _ => None,
            }),
    {
        match self.stopped {
            Some(reason) => ForwardAction::Stop(reason),
            None => {
                if !connected {
                    self.stopped = Some(CloseReason::Cancelled);
                    ForwardAction::Stop(CloseReason::Cancelled)
                } else if self.start == self.chunk.len() {
                    ForwardAction::Read
                } else {
                    ForwardAction::Write
                }
            },
        }
    }

    /// The bytes read but not yet written.
    pub fn pending(&self) -> (r: &[u8])
        requires
            self.wf(),
        ensures
            r@ == self@.pending,
    {
        slice_subrange(self.chunk.as_slice(), self.start, self.chunk.len())
    }

    /// Why this direction stopped, if it has.
    pub fn stop_reason(&self) -> (r: Option<CloseReason>)
        ensures
            r == self@.stopped,
    {
        self.stopped
    }

    /// Takes the bytes of a successful read of at most one chunk. An empty read means the sender
    /// closed its side, which stops this direction.
    pub fn record_read(&mut self, bytes: &[u8])
        requires
            old(self).wf(),
            old(self)@.stopped is None,
            old(self)@.pending.len() == 0,
            bytes@.len() <= CHUNK_SIZE,
        ensures
            final(self).wf(),
            final(self)@.delivered == old(self)@.delivered,
            final(self)@.received == old(self)@.received + bytes@,
            final(self)@.pending == bytes@,
            final(self)@.stopped == (if bytes@.len() == 0 {
                Some(CloseReason::SenderClosed)
            } else {
                None
            }),
    {
        if bytes.len() == 0 {
            self.stopped = Some(CloseReason::SenderClosed);
            proof {
                assert(old(self)@.received + bytes@ =~= old(self)@.received);
            }
        } else {
            self.chunk = slice_to_vec(bytes);
            self.start = 0;
            self.received = Ghost(self.received@ + bytes@);
            proof {
                assert(self.chunk@.subrange(0, self.chunk@.len() as int) =~= bytes@);
                assert(old(self)@.delivered =~= old(self)@.received);
                assert(self.delivered@ + bytes@ == self.received@);
            }
        }
    }

    /// Records that reading from the sender failed, which stops this direction.
    pub fn record_read_error(&mut self)
        requires
            old(self).wf(),
            old(self)@.stopped is None,
        ensures
            final(self).wf(),
            final(self)@.received == old(self)@.received,
            final(self)@.delivered == old(self)@.delivered,
            final(self)@.pending == old(self)@.pending,
            final(self)@.stopped == Some(CloseReason::ReadFailed),
    {
        self.stopped = Some(CloseReason::ReadFailed);
    }

    /// Takes the count of a successful write of the pending bytes: the first
    /// `written` of them have reached the receiver. A write that took nothing
    /// means the receiver no longer accepts data, which stops this direction.
    pub fn record_write(&mut self, written: usize)
        requires
            old(self).wf(),
            old(self)@.stopped is None,
            written <= old(self)@.pending.len(),
        ensures
            final(self).wf(),
            final(self)@.received == old(self)@.received,
            final(self)@.delivered == old(self)@.delivered + old(self)@.pending.subrange(0, written as int),
            final(self)@.pending == old(self)@.pending.subrange(written as int, old(self)@.pending.len() as int),
            final(self)@.stopped == (if written == 0 {
                Some(CloseReason::ReceiverRefused)
            } else {
                None
            }),
    {
        if written == 0 {
            self.stopped = Some(CloseReason::ReceiverRefused);
            proof {
                assert(old(self)@.pending.subrange(0, 0) =~= Seq::<u8>::empty());
                assert(old(self)@.delivered + Seq::<u8>::empty() =~= old(self)@.delivered);
                assert(old(self)@.pending.subrange(0, old(self)@.pending.len() as int) =~= old(self)@.pending);
            }
        } else {
            let ghost p = old(self)@.pending;
            let chunk_len: usize = self.chunk.len();
            assert(self.start + written <= chunk_len);
            self.delivered = Ghost(self.delivered@ + p.subrange(0, written as int));
            self.start = self.start + written;
            proof {
                assert(self@.pending =~= p.subrange(written as int, p.len() as int));
                assert(p =~= p.subrange(0, written as int) + p.subrange(written as int, p.len() as int));
                assert(self@.delivered + self@.pending =~= old(self)@.delivered + p);
            }
        }
    }

    /// Records that writing to the receiver failed, which stops this direction.
    pub fn record_write_error(&mut self)
        requires
            old(self).wf(),
            old(self)@.stopped is None,
        ensures
            final(self).wf(),
            final(self)@.received == old(self)@.received,
            final(self)@.delivered == old(self)@.delivered,
            final(self)@.pending == old(self)@.pending,
            final(self)@.stopped == Some(CloseReason::WriteFailed),
    {
        self.stopped = Some(CloseReason::WriteFailed);
    }
}

/// A forwarding direction hands the receiver exactly the bytes it took from
/// the sender, in order and without gaps: what was delivered is always a
/// prefix of what was received, and all of it once the sender has closed.
pub proof fn lemma_delivered_in_order(f: &Forwarder)
    requires
        f.wf(),
    ensures
        f@.delivered.len() <= f@.received.len(),
        f@.delivered == f@.received.subrange(0, f@.delivered.len() as int),
        f@.stopped == Some(CloseReason::SenderClosed) ==> f@.delivered == f@.received,
{
    assert(f@.delivered =~= (f@.delivered + f@.pending).subrange(0, f@.delivered.len() as int));
    if f@.stopped == Some(CloseReason::SenderClosed) {
        assert(f@.delivered + f@.pending =~= f@.delivered);
    }
}

} // verus!
