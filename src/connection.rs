use vstd::prelude::*;
use crate::forward::{action_for, ForwarderView};

verus! {

/// One of the two sockets of a relayed connection.
#[derive(PartialEq, Eq, Structural, Clone, Copy, Debug)]
pub enum Endpoint {
    /// The client-facing socket.
    Near,
    /// The backend-facing socket.
    Far,
}

/// One of the two forwarding loops of a relayed connection.
#[derive(PartialEq, Eq, Structural, Clone, Copy, Debug)]
pub enum Direction {
    /// Reads from the client, writes to the backend.
    NearToFar,
    /// Reads from the backend, writes to the client.
    FarToNear,
}

impl Direction {
    pub open spec fn spec_sender(self) -> Endpoint {
        match self {
            Direction::NearToFar => Endpoint::Near,
            Direction::FarToNear => Endpoint::Far,
        }
    }

    pub open spec fn spec_receiver(self) -> Endpoint {
        match self {
            Direction::NearToFar => Endpoint::Far,
            Direction::FarToNear => Endpoint::Near,
        }
    }

    pub open spec fn spec_reverse(self) -> Direction {
        match self {
            Direction::NearToFar => Direction::FarToNear,
            Direction::FarToNear => Direction::NearToFar,
        }
    }

    /// The socket this loop reads from.
    pub fn sender(self) -> (r: Endpoint)
        ensures
            r == self.spec_sender(),
    {
        match self {
            Direction::NearToFar => Endpoint::Near,
            Direction::FarToNear => Endpoint::Far,
        }
    }

    /// The socket this loop writes to, and shuts down when it stops.
    pub fn receiver(self) -> (r: Endpoint)
        ensures
            r == self.spec_receiver(),
    {
        match self {
            Direction::NearToFar => Endpoint::Far,
            Direction::FarToNear => Endpoint::Near,
        }
    }

    /// The other loop of the same connection.
    pub fn reverse(self) -> (r: Direction)
        ensures
            r == self.spec_reverse(),
    {
        match self {
            Direction::NearToFar => Direction::FarToNear,
            Direction::FarToNear => Direction::NearToFar,
        }
    }
}

/// The shared state of one relayed connection.
pub struct ConnectionView {
    /// The cancellation flag: true until either loop stops.
    pub connected: bool,
    /// The client-facing socket has not been shut down.
    pub near_open: bool,
    /// The backend-facing socket has not been shut down.
    pub far_open: bool,
}

/// The shared state once the loop `dir` has stopped.
pub open spec fn finished(c: ConnectionView, dir: Direction) -> ConnectionView {
    match dir.spec_receiver() {
        Endpoint::Near => ConnectionView { connected: false, near_open: false, far_open: c.far_open },
        Endpoint::Far => ConnectionView { connected: false, near_open: c.near_open, far_open: false },
    }
}

impl ConnectionView {
    pub open spec fn is_open(self, e: Endpoint) -> bool {
        match e {
            Endpoint::Near => self.near_open,
            Endpoint::Far => self.far_open,
        }
    }
}

/// The state that the two forwarding loops of one connection share: a
/// cancellation flag and which of the two sockets have been shut down. A
/// loop that stops clears the flag and shuts down the socket it writes to,
/// which is the socket the other loop reads from, so that a read blocked
/// there returns.
pub struct Connection {
    connected: bool,
    near_open: bool,
    far_open: bool,
}

impl View for Connection {
    type V = ConnectionView;

    closed spec fn view(&self) -> ConnectionView {
        ConnectionView { connected: self.connected, near_open: self.near_open, far_open: self.far_open }
    }
}

impl Connection {
    /// A socket is shut down only once the flag is cleared.
    pub open spec fn wf(&self) -> bool {
        (!self@.near_open || !self@.far_open) ==> !self@.connected
    }

    /// A connection whose sockets are both open.
    pub fn new() -> (r: Self)
        ensures
            r.wf(),
            r@.connected,
            r@.near_open,
            r@.far_open,
    {
        Connection { connected: true, near_open: true, far_open: true }
    }

    /// The cancellation flag.
    pub fn is_connected(&self) -> (r: bool)
        ensures
            r == self@.connected,
    {
        self.connected
    }

    /// Whether `e` has not been shut down yet.
    pub fn is_open(&self, e: Endpoint) -> (r: bool)
        ensures
            r == self@.is_open(e),
    {
        match e {
            Endpoint::Near => self.near_open,
            Endpoint::Far => self.far_open,
        }
    }

    /// Records that the loop `dir` stopped: the flag is cleared and the
    /// loop's receiver is marked shut down. Returns whether that receiver
    /// was still open, that is whether the caller must shut it down.
    pub fn finish(&mut self, dir: Direction) -> (r: bool)
        requires
            old(self).wf(),
        ensures
            final(self).wf(),
            r == old(self)@.is_open(dir.spec_receiver()),
            final(self)@ == finished(old(self)@, dir),
    {
        self.connected = false;
        match dir.receiver() {
            Endpoint::Near => {
                let was = self.near_open;
                self.near_open = false;
                was
            },
            Endpoint::Far => {
                let was = self.far_open;
                self.far_open = false;
                was
            },
        }
    }
}

/// Once either loop has stopped, the other can go no further: the flag it
/// checks is cleared, so whatever state it is in its next step is to stop,
/// and the socket it reads from is shut down, so a read blocked there
/// returns.
pub proof fn lemma_teardown_reaches_reverse(c: ConnectionView, dir: Direction, other: ForwarderView)
    ensures
        !finished(c, dir).is_open(dir.spec_reverse().spec_sender()),
        action_for(other, finished(c, dir).connected) is Stop,
{
}

} // verus!
