//! Connection-oriented socket facade over the modem's link table: the
//! per-socket state machine and the three read disciplines.
//!
//! The adapter that issues protocol commands is driven by the caller; the
//! functions here decide, before each adapter call, whether it may be made
//! and on which link, and after it, what the socket becomes and what the
//! caller receives.
use vstd::prelude::*;

verus! {

/// How a read waits for data.
#[derive(Debug, Clone, Copy, PartialEq, Eq)]
pub enum Mode {
    /// Poll until data arrives or an error other than would-block occurs.
    Blocking,
    /// One attempt; would-block is handed to the caller.
    NonBlocking,
    /// Wait at most this many milliseconds; not supported.
    Timeout(u16),
}

/// Lifecycle of a socket handle.
#[derive(Debug, Clone, Copy, PartialEq, Eq)]
pub enum SocketState {
    Open,
    Connected,
    Closed,
}

/// Failures of socket operations.
#[derive(Debug, Clone, Copy, PartialEq, Eq)]
pub enum SocketError {
    /// The adapter has no free link.
    NoAvailableSockets,
    /// The adapter could not open a link.
    UnableToOpen,
    /// The adapter could not connect the link.
    UnableToConnect,
    /// The adapter failed a read command.
    ReadError,
    /// The adapter failed a write command.
    WriteError,
    /// Data was moved on a socket that was never connected.
    NotConnected,
    /// The handle was closed.
    SocketClosed,
    /// The socket's read mode is not implemented.
    Unsupported,
    /// Another operation holds the adapter.
    Busy,
}

/// Failure of a non-blocking operation: retry later, or a real error.
#[derive(Debug, Clone, Copy, PartialEq, Eq)]
pub enum NbError {
    WouldBlock,
    Other(SocketError),
}

/// How a permitted read is carried out on a link.
#[derive(Debug, Clone, Copy, PartialEq, Eq)]
pub enum ReadPlan {
    /// One adapter read; its result is returned as it is.
    Once(usize),
    /// Adapter reads repeated while they would block.
    Poll(usize),
}

/// A capability for one adapter link: its id, read mode and state.
#[derive(Debug)]
pub struct TcpSocket {
    link_id: usize,
    mode: Mode,
    state: SocketState,
}

/// The link on which a socket may move data.
pub open spec fn io_access(link_id: usize, state: SocketState) -> Result<usize, SocketError> {
    match state {
        SocketState::Open => Err(SocketError::NotConnected),
        SocketState::Connected => Ok(link_id),
        SocketState::Closed => Err(SocketError::SocketClosed),
    }
}

/// The link on which a socket may connect, query or close.
pub open spec fn link_access(link_id: usize, state: SocketState) -> Result<usize, SocketError> {
    match state {
        SocketState::Closed => Err(SocketError::SocketClosed),
        _ => Ok(link_id),
    }
}

/// How a read proceeds: a timeout read is unsupported in every state; the
/// other modes need a connected socket.
pub open spec fn read_plan_of(link_id: usize, mode: Mode, state: SocketState) -> Result<ReadPlan, SocketError> {
    match mode {
        Mode::Timeout(_) => Err(SocketError::Unsupported),
        Mode::Blocking => match io_access(link_id, state) {
            Ok(l) => Ok(ReadPlan::Poll(l)),
            Err(e) => Err(e),
        },
        Mode::NonBlocking => match io_access(link_id, state) {
            Ok(l) => Ok(ReadPlan::Once(l)),
            Err(e) => Err(e),
        },
    }
}

/// After one adapter read: `None` to poll again, else what the read returns.
pub open spec fn read_step_of(mode: Mode, attempt: Result<usize, NbError>) -> Option<Result<usize, NbError>> {
    match mode {
        Mode::Blocking => if attempt == Err::<usize, NbError>(NbError::WouldBlock) {
            None
        } else {
            Some(attempt)
        },
        Mode::NonBlocking => Some(attempt),
        Mode::Timeout(_) => Some(Err(NbError::Other(SocketError::Unsupported))),
    }
}

/// What a connect returns, given the adapter's answer.
pub open spec fn connect_result(state: SocketState, outcome: Result<(), SocketError>) -> Result<(), SocketError> {
    match state {
        SocketState::Closed => Err(SocketError::SocketClosed),
        _ => outcome,
    }
}

/// What a read returns after the adapter answered with `attempts` in turn:
/// the first answer that the mode does not poll past, or `None` while it
/// would still poll.
pub open spec fn poll_result(mode: Mode, attempts: Seq<Result<usize, NbError>>) -> Option<Result<usize, NbError>>
    decreases attempts.len(),
{
    if attempts.len() == 0 {
        None
    } else {
        match read_step_of(mode, attempts[0]) {
            Some(r) => Some(r),
            None => poll_result(mode, attempts.drop_first()),
        }
    }
}

/// `k` adapter answers of would-block.
pub open spec fn would_blocks(k: nat) -> Seq<Result<usize, NbError>> {
    Seq::new(k, |i: int| Err::<usize, NbError>(NbError::WouldBlock))
}

impl TcpSocket {
    pub closed spec fn id(&self) -> usize {
        self.link_id
    }

    pub closed spec fn read_mode(&self) -> Mode {
        self.mode
    }

    pub closed spec fn status(&self) -> SocketState {
        self.state
    }

    /// A socket on the link that the adapter opened, or the adapter's error.
    pub fn open(mode: Mode, link: Result<usize, SocketError>) -> (r: Result<TcpSocket, SocketError>)
        ensures
            match link {
                Ok(id) => r is Ok && r->Ok_0.id() == id && r->Ok_0.read_mode() == mode
                    && r->Ok_0.status() == SocketState::Open,
                Err(e) => r is Err && r->Err_0 == e,
            },
    {
        match link {
            Ok(link_id) => Ok(TcpSocket { link_id, mode, state: SocketState::Open }),
            Err(e) => Err(e),
        }
    }

    pub fn link_id(&self) -> (id: usize)
        ensures
            id == self.id(),
    {
        self.link_id
    }

    pub fn mode(&self) -> (m: Mode)
        ensures
            m == self.read_mode(),
    {
        self.mode
    }

    pub fn state(&self) -> (s: SocketState)
        ensures
            s == self.status(),
    {
        self.state
    }

    /// The link to hand to the adapter for connect, status query or close;
    /// a closed handle is refused.
    pub fn live_link(&self) -> (r: Result<usize, SocketError>)
        ensures
            r == link_access(self.id(), self.status()),
    {
        match self.state {
            SocketState::Closed => Err(SocketError::SocketClosed),
            _ => Ok(self.link_id),
        }
    }

    /// The link to hand to the adapter for a write; only a connected socket
    /// moves data.
    pub fn io_link(&self) -> (r: Result<usize, SocketError>)
        ensures
            r == io_access(self.id(), self.status()),
    {
        match self.state {
            SocketState::Open => Err(SocketError::NotConnected),
            SocketState::Connected => Ok(self.link_id),
            SocketState::Closed => Err(SocketError::SocketClosed),
        }
    }

    /// Records the adapter's answer to a connect: success makes the socket
    /// connected, failure leaves it as it was.
    /// A closed handle stays closed and is refused whatever the adapter said.
    pub fn connect(&mut self, outcome: Result<(), SocketError>) -> (r: Result<(), SocketError>)
        ensures
            r == connect_result(old(self).status(), outcome),
            final(self).id() == old(self).id(),
            final(self).read_mode() == old(self).read_mode(),
            final(self).status() == (if r is Ok { SocketState::Connected } else { old(self).status() }),
    {
        if let SocketState::Closed = self.state {
            return Err(SocketError::SocketClosed);
        }
        if outcome.is_ok() {
            self.state = SocketState::Connected;
        }
        outcome
    }

    /// Decides how a read proceeds: refused as unsupported in timeout mode,
    /// refused unless connected, else one attempt or polling.
    pub fn read_plan(&self) -> (r: Result<ReadPlan, SocketError>)
        ensures
            r == read_plan_of(self.id(), self.read_mode(), self.status()),
    {
        match self.mode {
            Mode::Timeout(_) => Err(SocketError::Unsupported),
            Mode::Blocking => match self.io_link() {
                Ok(l) => Ok(ReadPlan::Poll(l)),
                Err(e) => Err(e),
            },
            Mode::NonBlocking => match self.io_link() {
                Ok(l) => Ok(ReadPlan::Once(l)),
                Err(e) => Err(e),
            },
        }
    }

    /// Judges one adapter read: a blocking socket polls again while the
    /// read would block; otherwise the attempt is the read's result.
    pub fn read_step(&self, attempt: Result<usize, NbError>) -> (r: Option<Result<usize, NbError>>)
        ensures
            r == read_step_of(self.read_mode(), attempt),
    {
        match self.mode {
            Mode::Blocking => match attempt {
                Err(NbError::WouldBlock) => None,
                _ => Some(attempt),
            },
            Mode::NonBlocking => Some(attempt),
            Mode::Timeout(_) => Some(Err(NbError::Other(SocketError::Unsupported))),
        }
    }

    /// Ends the handle and gives the link for the adapter to close; a second
    /// close is refused.
    pub fn close(&mut self) -> (r: Result<usize, SocketError>)
        ensures
            r == link_access(old(self).id(), old(self).status()),
            final(self).id() == old(self).id(),
            final(self).read_mode() == old(self).read_mode(),
            final(self).status() == SocketState::Closed,
    {
        let r = self.live_link();
        self.state = SocketState::Closed;
        r
    }
}

/// A socket that was opened and not connected moves no data, and a closed
/// handle refuses every further operation; a timeout read is refused as
/// unsupported whatever the state.
pub proof fn lemma_socket_state_machine(
    link_id: usize,
    mode: Mode,
    state: SocketState,
    outcome: Result<(), SocketError>,
)
    ensures
        io_access(link_id, SocketState::Open) == Err::<usize, SocketError>(SocketError::NotConnected),
        !(mode is Timeout) ==> read_plan_of(link_id, mode, SocketState::Open) == Err::<ReadPlan, SocketError>(SocketError::NotConnected),
        io_access(link_id, SocketState::Closed) == Err::<usize, SocketError>(SocketError::SocketClosed),
        link_access(link_id, SocketState::Closed) == Err::<usize, SocketError>(SocketError::SocketClosed),
        !(mode is Timeout) ==> read_plan_of(link_id, mode, SocketState::Closed) == Err::<ReadPlan, SocketError>(SocketError::SocketClosed),
        mode is Timeout ==> read_plan_of(link_id, mode, state) == Err::<ReadPlan, SocketError>(SocketError::Unsupported),
        connect_result(SocketState::Closed, outcome) == Err::<(), SocketError>(SocketError::SocketClosed),
        io_access(link_id, SocketState::Connected) == Ok::<usize, SocketError>(link_id),
{
}

/// On a connected link with nothing to read: a non-blocking read returns
/// would-block at once; a blocking read keeps polling through any number of
/// would-block answers and returns the first data; a timeout read is refused
/// as unsupported before the adapter is asked.
pub proof fn lemma_read_modes(link_id: usize, ms: u16, k: nat, n: usize)
    ensures
        read_plan_of(link_id, Mode::NonBlocking, SocketState::Connected) == Ok::<ReadPlan, SocketError>(ReadPlan::Once(link_id)),
        poll_result(Mode::NonBlocking, would_blocks(k + 1)) == Some(Err::<usize, NbError>(NbError::WouldBlock)),
        read_plan_of(link_id, Mode::Blocking, SocketState::Connected) == Ok::<ReadPlan, SocketError>(ReadPlan::Poll(link_id)),
        poll_result(Mode::Blocking, would_blocks(k)) is None,
        poll_result(Mode::Blocking, would_blocks(k).push(Ok(n))) == Some(Ok::<usize, NbError>(n)),
        read_plan_of(link_id, Mode::Timeout(ms), SocketState::Connected) == Err::<ReadPlan, SocketError>(SocketError::Unsupported),
    decreases k,
{
    if k > 0 {
        lemma_read_modes(link_id, ms, (k - 1) as nat, n);
        assert(would_blocks(k).drop_first() =~= would_blocks((k - 1) as nat));
        assert(would_blocks(k).push(Ok(n)).drop_first() =~= would_blocks((k - 1) as nat).push(Ok(n)));
    } else {
        assert(would_blocks(0).push(Ok(n)).drop_first() =~= Seq::<Result<usize, NbError>>::empty());
    }
    assert(would_blocks(k + 1)[0] == Err::<usize, NbError>(NbError::WouldBlock));
}

} // verus!
