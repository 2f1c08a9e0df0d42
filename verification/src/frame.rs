//! The wire format: events, actions and the length prefix of a frame.
//!
//! Every frame on the wire is a length of two bytes, big-endian, followed
//! by that many bytes of ciphertext. The channel never touches the
//! transport or the session primitive itself: it asks for an [`Action`] and
//! is told its outcome as an [`Event`].

use crate::error::IoErrorKind;
use crate::session::SessionStatus;
use vstd::prelude::*;

verus! {

/// The most bytes of ciphertext that one frame carries.
pub const MAX_NOISE_PKG_LEN: usize = 65535;

/// The most bytes of plaintext that one frame carries.
pub const MAX_WRITE_BUF_LEN: usize = 16384;

/// The two bytes of a frame's length prefix, most significant first.
#[derive(PartialEq, Eq, Structural, Clone, Copy, Debug)]
pub struct FrameLen {
    /// The most significant byte.
    pub hi: u8,
    /// The least significant byte.
    pub lo: u8,
}

impl FrameLen {
    /// The prefix as it stands on the wire.
    pub open spec fn bytes(self) -> Seq<u8> {
        seq![self.hi, self.lo]
    }

    /// The length that the prefix declares.
    pub open spec fn spec_value(self) -> nat {
        (self.hi as nat) * 256 + (self.lo as nat)
    }

    /// The prefix that declares the length `n`.
    pub open spec fn spec_of(n: nat) -> FrameLen
        recommends
            n <= MAX_NOISE_PKG_LEN,
    {
        FrameLen { hi: (n / 256) as u8, lo: (n % 256) as u8 }
    }

    /// The prefix with `data` written over it from position `off` on.
    pub open spec fn spec_put(self, off: nat, data: Seq<u8>) -> FrameLen
        recommends
            off + data.len() <= 2,
    {
        FrameLen {
            hi: if off == 0 && data.len() >= 1 {
                data[0]
            } else {
                self.hi
            },
            lo: if off == 0 && data.len() >= 2 {
                data[1]
            } else if off == 1 && data.len() >= 1 {
                data[0]
            } else {
                self.lo
            },
        }
    }

    /// The prefix of all zeros, before any byte of it has arrived.
    pub fn zero() -> (b: FrameLen)
        ensures
            b == (FrameLen { hi: 0, lo: 0 }),
    {
        FrameLen { hi: 0, lo: 0 }
    }

    /// The prefix that declares the length `n`.
    pub fn of(n: usize) -> (b: FrameLen)
        requires
            n <= MAX_NOISE_PKG_LEN,
        ensures
            b == FrameLen::spec_of(n as nat),
            b.spec_value() == n,
    {
        FrameLen { hi: (n / 256) as u8, lo: (n % 256) as u8 }
    }

    /// The length that the prefix declares.
    pub fn value(self) -> (n: usize)
        ensures
            n == self.spec_value(),
            n <= MAX_NOISE_PKG_LEN,
    {
        (self.hi as usize) * 256 + (self.lo as usize)
    }

    /// Writes `data` over the prefix from position `off` on.
    pub fn put(self, off: usize, data: &[u8]) -> (b: FrameLen)
        requires
            off + data@.len() <= 2,
        ensures
            b == self.spec_put(off as nat, data@),
            b.bytes() == self.bytes().subrange(0, off as int) + data@ + self.bytes().subrange(
                off + data@.len(),
                2,
            ),
    {
        let mut b = self;
        if off == 0 && data.len() >= 1 {
            b.hi = data[0];
        }
        if off == 0 && data.len() >= 2 {
            b.lo = data[1];
        } else if off == 1 && data.len() >= 1 {
            b.lo = data[0];
        }
        assert(b.bytes() =~= self.bytes().subrange(0, off as int) + data@ + self.bytes().subrange(
            off + data@.len(),
            2,
        ));
        b
    }

    /// The bytes of the prefix from position `off` on.
    pub fn tail(self, off: usize) -> (out: Vec<u8>)
        requires
            off <= 2,
        ensures
            out@ == self.bytes().subrange(off as int, 2),
    {
        let mut out: Vec<u8> = Vec::new();
        if off == 0 {
            out.push(self.hi);
        }
        if off <= 1 {
            out.push(self.lo);
        }
        assert(out@ =~= self.bytes().subrange(off as int, 2));
        out
    }
}

/// What the session primitive made of a buffer that was handed to it.
#[derive(PartialEq, Eq, Debug)]
pub struct SessionReply {
    /// The buffer after the primitive worked on it in place, or `None`
    /// where the primitive reported a failure.
    pub output: Option<Vec<u8>>,
    /// What the session reports of itself after the call.
    pub status: SessionStatus,
}

/// The outcome of an [`Action`], handed back to the operation that asked
/// for it.
#[derive(PartialEq, Eq, Debug)]
pub enum Event {
    /// No outcome: the operation begins, or goes on after it was pending.
    Enter,
    /// The transport handed over these bytes; none at the end of the
    /// stream.
    Read(Vec<u8>),
    /// The transport took this many bytes.
    Written(usize),
    /// The transport would block.
    WouldBlock,
    /// The transport failed.
    Failed(IoErrorKind),
    /// The session primitive has worked on the buffer.
    Crypto(SessionReply),
    /// The transport has been shut down.
    Closed,
}

/// Work that only the owner of the transport and of the session primitive
/// can do.
#[derive(PartialEq, Eq, Debug)]
pub enum Action {
    /// Read at most `max` bytes from the transport.
    Read { max: usize },
    /// Write `bytes` to the transport, or as many of them as it takes.
    Write { bytes: Vec<u8> },
    /// Let the session's receive work on `frame`.
    Receive { frame: Vec<u8> },
    /// Let the session's send work on `buffer`.
    Send { buffer: Vec<u8> },
    /// Shut the transport down.
    Shutdown,
}

/// How far one call of an operation got.
#[derive(PartialEq, Eq, Debug)]
pub enum Step<T> {
    /// The operation needs this done; call it again with the outcome.
    Do(Action),
    /// The transport would block; call again with [`Event::Enter`] later.
    Pending,
    /// The operation is complete.
    Ready(T),
    /// The operation failed.
    Failed(IoErrorKind),
}

/// The mathematical counterpart of [`SessionReply`].
pub struct SessionReplyView {
    pub output: Option<Seq<u8>>,
    pub status: SessionStatus,
}

/// The mathematical counterpart of [`Event`].
pub enum EventView {
    Enter,
    Read(Seq<u8>),
    Written(usize),
    WouldBlock,
    Failed(IoErrorKind),
    Crypto(SessionReplyView),
    Closed,
}

impl EventView {
    /// Whether a buffer that the session has worked on is no longer than an
    /// address can count, as is the case of every event that exists at run
    /// time.
    pub open spec fn wf(self) -> bool {
        match self {
            EventView::Crypto(reply) => match reply.output {
                Some(buffer) => buffer.len() <= usize::MAX,
                None => true,
            },
            _ => true,
        }
    }
}

/// The mathematical counterpart of [`Action`].
pub enum ActionView {
    Read { max: usize },
    Write { bytes: Seq<u8> },
    Receive { frame: Seq<u8> },
    Send { buffer: Seq<u8> },
    Shutdown,
}

/// The mathematical counterpart of [`Step`].
pub enum StepView<T> {
    Do(ActionView),
    Pending,
    Ready(T),
    Failed(IoErrorKind),
}

impl View for SessionReply {
    type V = SessionReplyView;

    open spec fn view(&self) -> SessionReplyView {
        SessionReplyView {
            output: match self.output {
                Some(v) => Some(v@),
                None => None,
            },
            status: self.status,
        }
    }
}

impl View for Event {
    type V = EventView;

    open spec fn view(&self) -> EventView {
        match *self {
            Event::Enter => EventView::Enter,
            Event::Read(data) => EventView::Read(data@),
            Event::Written(n) => EventView::Written(n),
            Event::WouldBlock => EventView::WouldBlock,
            Event::Failed(kind) => EventView::Failed(kind),
            Event::Crypto(reply) => EventView::Crypto(reply@),
            Event::Closed => EventView::Closed,
        }
    }
}

impl View for Action {
    type V = ActionView;

    open spec fn view(&self) -> ActionView {
        match *self {
            Action::Read { max } => ActionView::Read { max },
            Action::Write { bytes } => ActionView::Write { bytes: bytes@ },
            Action::Receive { frame } => ActionView::Receive { frame: frame@ },
            Action::Send { buffer } => ActionView::Send { buffer: buffer@ },
            Action::Shutdown => ActionView::Shutdown,
        }
    }
}

impl View for Step<Vec<u8>> {
    type V = StepView<Seq<u8>>;

    open spec fn view(&self) -> StepView<Seq<u8>> {
        match *self {
            Step::Do(action) => StepView::Do(action@),
            Step::Pending => StepView::Pending,
            Step::Ready(bytes) => StepView::Ready(bytes@),
            Step::Failed(kind) => StepView::Failed(kind),
        }
    }
}

impl View for Step<usize> {
    type V = StepView<usize>;

    open spec fn view(&self) -> StepView<usize> {
        match *self {
            Step::Do(action) => StepView::Do(action@),
            Step::Pending => StepView::Pending,
            Step::Ready(n) => StepView::Ready(n),
            Step::Failed(kind) => StepView::Failed(kind),
        }
    }
}

impl View for Step<()> {
    type V = StepView<()>;

    open spec fn view(&self) -> StepView<()> {
        match *self {
            Step::Do(action) => StepView::Do(action@),
            Step::Pending => StepView::Pending,
            Step::Ready(_) => StepView::Ready(()),
            Step::Failed(kind) => StepView::Failed(kind),
        }
    }
}

} // verus!
