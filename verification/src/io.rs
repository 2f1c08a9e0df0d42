//! The framed channel: one state machine for reading, one for writing.
//!
//! Each machine makes progress on every call until it has a result, until
//! the transport would block, or until it needs work done that only the
//! owner of the transport and of the session primitive can do. What a
//! machine has got so far is held in its state as plain offsets, so that an
//! operation can be taken up again at any byte boundary.

use crate::bytes::{copy_range, push_range};
use crate::error::{IoErrorKind, NoiseError};
use crate::frame::{
    Action, ActionView, Event, EventView, FrameLen, SessionReply, SessionReplyView, Step, StepView,
    MAX_NOISE_PKG_LEN, MAX_WRITE_BUF_LEN,
};
use crate::session::{spec_opened, spec_pad, spec_sealed, NoiseSession};
use vstd::prelude::*;

verus! {

/// The byte buffers of one channel, none of which overlaps another.
#[derive(Debug)]
pub struct Buffer {
    /// The ciphertext of the frame that is coming in.
    pub read_cipher: Vec<u8>,
    /// The payload of the last frame, until the caller has taken it all.
    pub read_plain: Vec<u8>,
    /// The caller's bytes that wait to be encrypted.
    pub write_plain: Vec<u8>,
    /// The ciphertext of the frame that is going out.
    pub write_cipher: Vec<u8>,
}

impl Buffer {
    /// Four empty buffers. The two that gather bytes piece by piece have
    /// room for the largest frame from the start; the other two take over
    /// what the session hands back.
    pub fn new() -> (b: Buffer)
        ensures
            b.read_cipher@ == Seq::<u8>::empty(),
            b.read_plain@ == Seq::<u8>::empty(),
            b.write_plain@ == Seq::<u8>::empty(),
            b.write_cipher@ == Seq::<u8>::empty(),
    {
        Buffer {
            read_cipher: Vec::with_capacity(MAX_NOISE_PKG_LEN),
            read_plain: Vec::new(),
            write_plain: Vec::with_capacity(MAX_WRITE_BUF_LEN),
            write_cipher: Vec::new(),
        }
    }
}

/// How a stream ended.
#[derive(PartialEq, Eq, Structural, Clone, Copy, Debug)]
pub enum Eof {
    /// Between two frames.
    Clean,
    /// In the middle of a frame.
    Unexpected,
}

/// The states that reading goes through.
#[derive(PartialEq, Eq, Structural, Clone, Copy, Debug)]
pub enum ReadState {
    /// initial state
    Init,
    /// read frame length
    ReadLen { buf: FrameLen, off: usize },
    /// read encrypted frame data
    ReadData { len: usize, off: usize },
    /// copy decrypted frame data
    CopyData { len: usize, off: usize },
    /// end of file has been reached (terminal state)
    Eof(Eof),
    /// decryption error (terminal state)
    DecErr,
}

/// The states that writing goes through.
#[derive(PartialEq, Eq, Structural, Clone, Copy, Debug)]
pub enum WriteState {
    /// initial state
    Init,
    /// accumulate write data
    BufferData { off: usize },
    /// write frame length
    WriteLen { len: usize, buf: FrameLen, off: usize },
    /// write out encrypted data
    WriteData { len: usize, off: usize },
    /// end of file has been reached (terminal state)
    Eof,
    /// encryption error (terminal state)
    EncErr,
}

/// The mathematical model of a channel: the session as it last reported
/// itself, the two states and the contents of the four buffers.
pub struct Channel {
    pub session: NoiseSession,
    pub read_state: ReadState,
    pub write_state: WriteState,
    pub read_cipher: Seq<u8>,
    pub read_plain: Seq<u8>,
    pub write_plain: Seq<u8>,
    pub write_cipher: Seq<u8>,
}

impl ReadState {
    /// Whether reading has come to an end for good.
    pub open spec fn is_terminal(self) -> bool {
        self is Eof || self is DecErr
    }
}

impl WriteState {
    /// Whether writing has come to an end for good.
    pub open spec fn is_terminal(self) -> bool {
        self is Eof || self is EncErr
    }
}

impl Channel {
    /// A channel over `session` on which nothing has happened yet.
    pub open spec fn fresh(session: NoiseSession) -> Channel {
        Channel {
            session,
            read_state: ReadState::Init,
            write_state: WriteState::Init,
            read_cipher: Seq::empty(),
            read_plain: Seq::empty(),
            write_plain: Seq::empty(),
            write_cipher: Seq::empty(),
        }
    }

    /// The offsets of the reading side lie within what they index.
    pub open spec fn read_wf(self) -> bool {
        match self.read_state {
            ReadState::Init => true,
            ReadState::ReadLen { buf, off } => off < 2,
            ReadState::ReadData { len, off } => {
                &&& 0 < len <= MAX_NOISE_PKG_LEN
                &&& off <= len
                &&& self.read_cipher.len() == off
            },
            ReadState::CopyData { len, off } => {
                &&& off <= len
                &&& self.read_plain.len() == len
            },
            ReadState::Eof(_) => true,
            ReadState::DecErr => true,
        }
    }

    /// The offsets of the writing side lie within what they index, and a
    /// frame that is going out declares its own length.
    pub open spec fn write_wf(self) -> bool {
        match self.write_state {
            WriteState::Init => true,
            WriteState::BufferData { off } => {
                &&& off < MAX_WRITE_BUF_LEN
                &&& self.write_plain.len() == off
            },
            WriteState::WriteLen { len, buf, off } => {
                &&& off < 2
                &&& 0 < len <= MAX_NOISE_PKG_LEN
                &&& self.write_cipher.len() == len
                &&& buf == FrameLen::spec_of(len as nat)
            },
            WriteState::WriteData { len, off } => {
                &&& off < len <= MAX_NOISE_PKG_LEN
                &&& self.write_cipher.len() == len
            },
            WriteState::Eof => true,
            WriteState::EncErr => true,
        }
    }

    /// The invariant of a channel.
    pub open spec fn wf(self) -> bool {
        self.read_wf() && self.write_wf()
    }

    /// The channel after the session has reported `reply.status`.
    pub open spec fn observe(self, reply: SessionReplyView) -> Channel {
        Channel {
            session: NoiseSession::spec_new(self.session.spec_pattern(), reply.status),
            ..self
        }
    }

    // ---- reading --------------------------------------------------------

    /// What reading does next from the state alone, with room for `want`
    /// bytes at the caller.
    pub open spec fn read_emit(self, want: usize) -> (Channel, StepView<Seq<u8>>) {
        match self.read_state {
            ReadState::Init => (
                Channel { read_state: ReadState::ReadLen { buf: FrameLen { hi: 0, lo: 0 }, off: 0 }, ..self },
                StepView::Do(ActionView::Read { max: 2 }),
            ),
            ReadState::ReadLen { buf, off } => (
                self,
                StepView::Do(ActionView::Read { max: (2 - off) as usize }),
            ),
            ReadState::ReadData { len, off } => if off < len {
                (self, StepView::Do(ActionView::Read { max: (len - off) as usize }))
            } else {
                (self, StepView::Do(ActionView::Receive { frame: self.read_cipher }))
            },
            ReadState::CopyData { len, off } => {
                let n = if len - off <= want {
                    len - off
                } else {
                    want as int
                };
                let next = if off + n == len {
                    ReadState::ReadLen { buf: FrameLen { hi: 0, lo: 0 }, off: 0 }
                } else {
                    ReadState::CopyData { len, off: (off + n) as usize }
                };
                (
                    Channel { read_state: next, ..self },
                    StepView::Ready(self.read_plain.subrange(off as int, off + n)),
                )
            },
            ReadState::Eof(Eof::Clean) => (self, StepView::Ready(Seq::empty())),
            ReadState::Eof(Eof::Unexpected) => (self, StepView::Failed(IoErrorKind::UnexpectedEof)),
            ReadState::DecErr => (self, StepView::Failed(IoErrorKind::InvalidData)),
        }
    }

    /// What reading does with bytes that the transport handed over.
    pub open spec fn read_data(self, want: usize, data: Seq<u8>) -> (Channel, StepView<Seq<u8>>) {
        match self.read_state {
            ReadState::ReadLen { buf, off } => if data.len() > 2 - off {
                (self, StepView::Failed(IoErrorKind::InvalidInput))
            } else if data.len() == 0 {
                if off == 0 {
                    (
                        Channel { read_state: ReadState::Eof(Eof::Clean), ..self },
                        StepView::Ready(Seq::empty()),
                    )
                } else {
                    (self, StepView::Pending)
                }
            } else {
                let filled = buf.spec_put(off as nat, data);
                if off + data.len() < 2 {
                    Channel {
                        read_state: ReadState::ReadLen { buf: filled, off: (off + data.len()) as usize },
                        ..self
                    }.read_emit(want)
                } else if filled.spec_value() == 0 {
                    Channel { read_state: ReadState::Init, ..self }.read_emit(want)
                } else {
                    Channel {
                        read_state: ReadState::ReadData { len: filled.spec_value() as usize, off: 0 },
                        read_cipher: Seq::empty(),
                        ..self
                    }.read_emit(want)
                }
            },
            ReadState::ReadData { len, off } => if off >= len || data.len() > len - off {
                (self, StepView::Failed(IoErrorKind::InvalidInput))
            } else if data.len() == 0 {
                (
                    Channel { read_state: ReadState::Eof(Eof::Unexpected), ..self },
                    StepView::Failed(IoErrorKind::UnexpectedEof),
                )
            } else {
                Channel {
                    read_state: ReadState::ReadData { len, off: (off + data.len()) as usize },
                    read_cipher: self.read_cipher + data,
                    ..self
                }.read_emit(want)
            },
            _ => (self, StepView::Failed(IoErrorKind::InvalidInput)),
        }
    }

    /// What reading does once the session's receive has worked on a frame.
    pub open spec fn read_opened(self, want: usize, reply: SessionReplyView) -> (
        Channel,
        StepView<Seq<u8>>,
    ) {
        match self.read_state {
            ReadState::ReadData { len, off } => if off < len {
                (self, StepView::Failed(IoErrorKind::InvalidInput))
            } else {
                match spec_opened(self.session.spec_next_layout(), reply.output) {
                    Some(p) => Channel {
                        read_state: ReadState::CopyData { len: p.len() as usize, off: 0 },
                        read_plain: p,
                        ..self.observe(reply)
                    }.read_emit(want),
                    None => (
                        Channel { read_state: ReadState::DecErr, ..self.observe(reply) },
                        StepView::Failed(IoErrorKind::InvalidData),
                    ),
                }
            },
            _ => (self, StepView::Failed(IoErrorKind::InvalidInput)),
        }
    }

    /// One call of the read operation: the channel afterwards and how far
    /// the call got.
    pub open spec fn read(self, want: usize, event: EventView) -> (Channel, StepView<Seq<u8>>) {
        if self.read_state.is_terminal() {
            self.read_emit(want)
        } else {
            match event {
                EventView::Enter => self.read_emit(want),
                EventView::WouldBlock => (self, StepView::Pending),
                EventView::Failed(kind) => (self, StepView::Failed(kind)),
                EventView::Read(data) => self.read_data(want, data),
                EventView::Crypto(reply) => self.read_opened(want, reply),
                _ => (self, StepView::Failed(IoErrorKind::InvalidInput)),
            }
        }
    }
}

/// A noise session to a remote: the framed channel.
///
/// The channel holds neither the transport nor the cryptographic state. Its
/// operations are called with an [`Event`] and answer with a [`Step`]; see
/// [`crate::frame`].
#[derive(Debug)]
pub struct NoiseOutput {
    session: NoiseSession,
    buffer: Buffer,
    read_state: ReadState,
    write_state: WriteState,
}

impl View for NoiseOutput {
    type V = Channel;

    closed spec fn view(&self) -> Channel {
        Channel {
            session: self.session,
            read_state: self.read_state,
            write_state: self.write_state,
            read_cipher: self.buffer.read_cipher@,
            read_plain: self.buffer.read_plain@,
            write_plain: self.buffer.write_plain@,
            write_cipher: self.buffer.write_cipher@,
        }
    }
}

impl NoiseOutput {
    /// The invariant of a channel.
    pub open spec fn wf(&self) -> bool {
        self@.wf()
    }

    /// A channel over `session` on which nothing has happened yet.
    pub fn new(session: NoiseSession) -> (io: NoiseOutput)
        ensures
            io@ == Channel::fresh(session),
            io.wf(),
    {
        NoiseOutput {
            session,
            buffer: Buffer::new(),
            read_state: ReadState::Init,
            write_state: WriteState::Init,
        }
    }

    /// The session as it last reported itself.
    pub fn session(&self) -> (s: NoiseSession)
        ensures
            s == self@.session,
    {
        self.session
    }

    /// The state of the reading side.
    pub fn read_state(&self) -> (s: ReadState)
        ensures
            s == self@.read_state,
    {
        self.read_state
    }

    /// The state of the writing side.
    pub fn write_state(&self) -> (s: WriteState)
        ensures
            s == self@.write_state,
    {
        self.write_state
    }

    fn read_emit(&mut self, want: usize) -> (step: Step<Vec<u8>>)
        requires
            old(self).wf(),
        ensures
            final(self).wf(),
            (final(self)@, step@) == old(self)@.read_emit(want),
    {
        match self.read_state {
            ReadState::Init => {
                self.read_state = ReadState::ReadLen { buf: FrameLen::zero(), off: 0 };
                Step::Do(Action::Read { max: 2 })
            },
            ReadState::ReadLen { buf, off } => Step::Do(Action::Read { max: 2 - off }),
            ReadState::ReadData { len, off } => {
                if off < len {
                    Step::Do(Action::Read { max: len - off })
                } else {
                    let frame = copy_range(self.buffer.read_cipher.as_slice(), 0, len);
                    assert(frame@ =~= self@.read_cipher);
                    Step::Do(Action::Receive { frame })
                }
            },
            ReadState::CopyData { len, off } => {
                let n = if len - off <= want {
                    len - off
                } else {
                    want
                };
                let out = copy_range(self.buffer.read_plain.as_slice(), off, off + n);
                if off + n == len {
                    self.read_state = ReadState::ReadLen { buf: FrameLen::zero(), off: 0 };
                } else {
                    self.read_state = ReadState::CopyData { len, off: off + n };
                }
                Step::Ready(out)
            },
            ReadState::Eof(Eof::Clean) => Step::Ready(Vec::new()),
            ReadState::Eof(Eof::Unexpected) => Step::Failed(IoErrorKind::UnexpectedEof),
            ReadState::DecErr => Step::Failed(IoErrorKind::InvalidData),
        }
    }

    fn read_data(&mut self, want: usize, data: Vec<u8>) -> (step: Step<Vec<u8>>)
        requires
            old(self).wf(),
        ensures
            final(self).wf(),
            (final(self)@, step@) == old(self)@.read_data(want, data@),
    {
        match self.read_state {
            ReadState::ReadLen { buf, off } => {
                if data.len() > 2 - off {
                    Step::Failed(IoErrorKind::InvalidInput)
                } else if data.len() == 0 {
                    if off == 0 {
                        self.read_state = ReadState::Eof(Eof::Clean);
                        Step::Ready(Vec::new())
                    } else {
                        Step::Pending
                    }
                } else {
                    let filled = buf.put(off, data.as_slice());
                    if off + data.len() < 2 {
                        self.read_state = ReadState::ReadLen { buf: filled, off: off + data.len() };
                    } else {
                        let n = filled.value();
                        if n == 0 {
                            self.read_state = ReadState::Init;
                        } else {
                            self.buffer.read_cipher.clear();
                            self.read_state = ReadState::ReadData { len: n, off: 0 };
                        }
                    }
                    self.read_emit(want)
                }
            },
            ReadState::ReadData { len, off } => {
                if off >= len || data.len() > len - off {
                    Step::Failed(IoErrorKind::InvalidInput)
                } else if data.len() == 0 {
                    self.read_state = ReadState::Eof(Eof::Unexpected);
                    Step::Failed(IoErrorKind::UnexpectedEof)
                } else {
                    push_range(&mut self.buffer.read_cipher, data.as_slice(), 0, data.len());
                    assert(data@.subrange(0, data@.len() as int) =~= data@);
                    self.read_state = ReadState::ReadData { len, off: off + data.len() };
                    self.read_emit(want)
                }
            },
            _ => Step::Failed(IoErrorKind::InvalidInput),
        }
    }

    fn read_opened(&mut self, want: usize, reply: SessionReply) -> (step: Step<Vec<u8>>)
        requires
            old(self).wf(),
        ensures
            final(self).wf(),
            (final(self)@, step@) == old(self)@.read_opened(want, reply@),
    {
        match self.read_state {
            ReadState::ReadData { len, off } => {
                if off < len {
                    Step::Failed(IoErrorKind::InvalidInput)
                } else {
                    match self.session.read_message(reply) {
                        Ok(plaintext) => {
                            let n = plaintext.len();
                            self.buffer.read_plain = plaintext;
                            self.read_state = ReadState::CopyData { len: n, off: 0 };
                            self.read_emit(want)
                        },
                        Err(_) => {
                            self.read_state = ReadState::DecErr;
                            Step::Failed(IoErrorKind::InvalidData)
                        },
                    }
                }
            },
            _ => Step::Failed(IoErrorKind::InvalidInput),
        }
    }

    /// Reads decrypted bytes, at most `want` of them.
    ///
    /// The first call of a read is made with [`Event::Enter`]. While the
    /// answer is [`Step::Do`], the action is to be carried out and the
    /// operation called again with its outcome. A terminal state answers
    /// every call alike and asks for nothing.
    pub fn read(&mut self, want: usize, event: Event) -> (step: Step<Vec<u8>>)
        requires
            old(self).wf(),
        ensures
            final(self).wf(),
            (final(self)@, step@) == old(self)@.read(want, event@),
    {
        match self.read_state {
            ReadState::Eof(_) => {
                return self.read_emit(want);
            },
            ReadState::DecErr => {
                return self.read_emit(want);
            },
            _ => {},
        }
        match event {
            Event::Enter => self.read_emit(want),
            Event::WouldBlock => Step::Pending,
            Event::Failed(kind) => Step::Failed(kind),
            Event::Read(data) => self.read_data(want, data),
            Event::Crypto(reply) => self.read_opened(want, reply),
            _ => Step::Failed(IoErrorKind::InvalidInput),
        }
    }
}

impl Channel {
    // ---- writing --------------------------------------------------------

    /// How many of `len` bytes fit into the plaintext buffer behind `off`.
    pub open spec fn accept(off: usize, len: nat) -> nat {
        if MAX_WRITE_BUF_LEN - off <= len {
            (MAX_WRITE_BUF_LEN - off) as nat
        } else {
            len
        }
    }

    /// The action that sends what is left of the frame that is going out.
    pub open spec fn write_out(self) -> ActionView {
        match self.write_state {
            WriteState::WriteLen { len, buf, off } => ActionView::Write {
                bytes: buf.bytes().subrange(off as int, 2),
            },
            WriteState::WriteData { len, off } => ActionView::Write {
                bytes: self.write_cipher.subrange(off as int, len as int),
            },
            _ => ActionView::Write { bytes: Seq::empty() },
        }
    }

    /// What writing does with the caller's bytes while it gathers
    /// plaintext: it takes what fits, and asks for encryption once the
    /// buffer would be full. The bytes are only taken over for good when
    /// the ciphertext is there.
    pub open spec fn write_buffer(self, buf: Seq<u8>) -> (Channel, StepView<usize>) {
        match self.write_state {
            WriteState::BufferData { off } => {
                let n = Channel::accept(off, buf.len());
                let plain = self.write_plain + buf.subrange(0, n as int);
                if off + n == MAX_WRITE_BUF_LEN {
                    (
                        self,
                        StepView::Do(
                            ActionView::Send {
                                buffer: spec_pad(self.session.spec_next_layout(), plain),
                            },
                        ),
                    )
                } else {
                    (
                        Channel {
                            write_state: WriteState::BufferData { off: (off + n) as usize },
                            write_plain: plain,
                            ..self
                        },
                        StepView::Ready(n as usize),
                    )
                }
            },
            _ => (self, StepView::Failed(IoErrorKind::InvalidInput)),
        }
    }

    /// What writing does next from the state alone.
    pub open spec fn write_emit(self, buf: Seq<u8>) -> (Channel, StepView<usize>) {
        match self.write_state {
            WriteState::Init => Channel {
                write_state: WriteState::BufferData { off: 0 },
                write_plain: Seq::empty(),
                ..self
            }.write_buffer(buf),
            WriteState::BufferData { off } => self.write_buffer(buf),
            WriteState::WriteLen { .. } => (self, StepView::Do(self.write_out())),
            WriteState::WriteData { .. } => (self, StepView::Do(self.write_out())),
            WriteState::Eof => (self, StepView::Failed(IoErrorKind::WriteZero)),
            WriteState::EncErr => (self, StepView::Failed(IoErrorKind::InvalidData)),
        }
    }

    /// The channel after the transport took `n` bytes of the frame that is
    /// going out; `None` where no such bytes were on offer.
    pub open spec fn written(self, n: usize) -> Option<Channel> {
        match self.write_state {
            WriteState::WriteLen { len, buf, off } => if n > 2 - off {
                None
            } else if n == 0 {
                Some(Channel { write_state: WriteState::Eof, ..self })
            } else if off + n == 2 {
                Some(Channel { write_state: WriteState::WriteData { len, off: 0 }, ..self })
            } else {
                Some(
                    Channel {
                        write_state: WriteState::WriteLen { len, buf, off: (off + n) as usize },
                        ..self
                    },
                )
            },
            WriteState::WriteData { len, off } => if n > len - off {
                None
            } else if n == 0 {
                Some(Channel { write_state: WriteState::Eof, ..self })
            } else if off + n == len {
                Some(Channel { write_state: WriteState::Init, ..self })
            } else {
                Some(
                    Channel { write_state: WriteState::WriteData { len, off: (off + n) as usize }, ..self },
                )
            },
            _ => None,
        }
    }

    /// The channel after the session's send has worked on the buffer laid
    /// out for a plaintext of `plain_len` bytes: with the frame ready to go
    /// out, or at its end where the session failed.
    pub open spec fn sealed(self, plain_len: nat, reply: SessionReplyView) -> Channel {
        match spec_sealed(self.session.spec_next_layout(), plain_len, reply.output) {
            Some(ciphertext) => Channel {
                write_state: WriteState::WriteLen {
                    len: ciphertext.len() as usize,
                    buf: FrameLen::spec_of(ciphertext.len()),
                    off: 0,
                },
                write_plain: Seq::empty(),
                write_cipher: ciphertext,
                ..self.observe(reply)
            },
            None => Channel { write_state: WriteState::EncErr, ..self.observe(reply) },
        }
    }

    /// One call of the write operation: the channel afterwards and how far
    /// the call got.
    pub open spec fn write(self, buf: Seq<u8>, event: EventView) -> (Channel, StepView<usize>) {
        if self.write_state.is_terminal() {
            self.write_emit(buf)
        } else {
            match event {
                EventView::Enter => self.write_emit(buf),
                EventView::WouldBlock => (self, StepView::Pending),
                EventView::Failed(kind) => (self, StepView::Failed(kind)),
                EventView::Written(n) => match self.written(n) {
                    Some(next) => next.write_emit(buf),
                    None => (self, StepView::Failed(IoErrorKind::InvalidInput)),
                },
                EventView::Crypto(reply) => match self.write_state {
                    WriteState::BufferData { off } => {
                        let n = Channel::accept(off, buf.len());
                        if off + n == MAX_WRITE_BUF_LEN {
                            let next = self.sealed(MAX_WRITE_BUF_LEN as nat, reply);
                            if next.write_state is EncErr {
                                (next, StepView::Failed(IoErrorKind::InvalidData))
                            } else {
                                (next, StepView::Ready(n as usize))
                            }
                        } else {
                            (self, StepView::Failed(IoErrorKind::InvalidInput))
                        }
                    },
                    _ => (self, StepView::Failed(IoErrorKind::InvalidInput)),
                },
                _ => (self, StepView::Failed(IoErrorKind::InvalidInput)),
            }
        }
    }

    // ---- flushing -------------------------------------------------------

    /// What flushing does next from the state alone.
    pub open spec fn flush_emit(self) -> (Channel, StepView<()>) {
        match self.write_state {
            WriteState::Init => (self, StepView::Ready(())),
            WriteState::BufferData { off } => (
                self,
                StepView::Do(
                    ActionView::Send {
                        buffer: spec_pad(self.session.spec_next_layout(), self.write_plain),
                    },
                ),
            ),
            WriteState::WriteLen { .. } => (self, StepView::Do(self.write_out())),
            WriteState::WriteData { .. } => (self, StepView::Do(self.write_out())),
            WriteState::Eof => (self, StepView::Failed(IoErrorKind::WriteZero)),
            WriteState::EncErr => (self, StepView::Failed(IoErrorKind::InvalidData)),
        }
    }

    /// One call of the flush operation: the channel afterwards and how far
    /// the call got.
    pub open spec fn flush(self, event: EventView) -> (Channel, StepView<()>) {
        if self.write_state.is_terminal() {
            self.flush_emit()
        } else {
            match event {
                EventView::Enter => self.flush_emit(),
                EventView::WouldBlock => (self, StepView::Pending),
                EventView::Failed(kind) => (self, StepView::Failed(kind)),
                EventView::Written(n) => match self.written(n) {
                    Some(next) => next.flush_emit(),
                    None => (self, StepView::Failed(IoErrorKind::InvalidInput)),
                },
                EventView::Crypto(reply) => match self.write_state {
                    WriteState::BufferData { off } => self.sealed(off as nat, reply).flush_emit(),
                    _ => (self, StepView::Failed(IoErrorKind::InvalidInput)),
                },
                _ => (self, StepView::Failed(IoErrorKind::InvalidInput)),
            }
        }
    }

    // ---- shutting down --------------------------------------------------

    /// One call of the shutdown operation. It goes straight to the
    /// transport: the channel has no closing frame of its own, and its
    /// states play no part.
    pub open spec fn shutdown(event: EventView) -> StepView<()> {
        match event {
            EventView::Enter => StepView::Do(ActionView::Shutdown),
            EventView::Closed => StepView::Ready(()),
            EventView::WouldBlock => StepView::Pending,
            EventView::Failed(kind) => StepView::Failed(kind),
            _ => StepView::Failed(IoErrorKind::InvalidInput),
        }
    }
}

impl NoiseOutput {
    fn write_out(&self) -> (action: Action)
        requires
            self.wf(),
            self@.write_state is WriteLen || self@.write_state is WriteData,
        ensures
            action@ == self@.write_out(),
    {
        match self.write_state {
            WriteState::WriteLen { len, buf, off } => Action::Write { bytes: buf.tail(off) },
            WriteState::WriteData { len, off } => Action::Write {
                bytes: copy_range(self.buffer.write_cipher.as_slice(), off, len),
            },
            _ => Action::Write { bytes: Vec::new() },
        }
    }

    fn write_buffer(&mut self, buf: &[u8]) -> (step: Step<usize>)
        requires
            old(self).wf(),
            old(self)@.write_state is BufferData,
        ensures
            final(self).wf(),
            (final(self)@, step@) == old(self)@.write_buffer(buf@),
    {
        match self.write_state {
            WriteState::BufferData { off } => {
                let n = if MAX_WRITE_BUF_LEN - off <= buf.len() {
                    MAX_WRITE_BUF_LEN - off
                } else {
                    buf.len()
                };
                if off + n == MAX_WRITE_BUF_LEN {
                    let mut plain = copy_range(self.buffer.write_plain.as_slice(), 0, off);
                    push_range(&mut plain, buf, 0, n);
                    assert(plain@ =~= self@.write_plain + buf@.subrange(0, n as int));
                    let buffer = self.session.write_message(plain);
                    Step::Do(Action::Send { buffer })
                } else {
                    push_range(&mut self.buffer.write_plain, buf, 0, n);
                    self.write_state = WriteState::BufferData { off: off + n };
                    Step::Ready(n)
                }
            },
            _ => Step::Failed(IoErrorKind::InvalidInput),
        }
    }

    fn write_emit(&mut self, buf: &[u8]) -> (step: Step<usize>)
        requires
            old(self).wf(),
        ensures
            final(self).wf(),
            (final(self)@, step@) == old(self)@.write_emit(buf@),
    {
        match self.write_state {
            WriteState::Init => {
                self.buffer.write_plain.clear();
                self.write_state = WriteState::BufferData { off: 0 };
                self.write_buffer(buf)
            },
            WriteState::BufferData { off } => self.write_buffer(buf),
            WriteState::WriteLen { .. } => Step::Do(self.write_out()),
            WriteState::WriteData { .. } => Step::Do(self.write_out()),
            WriteState::Eof => Step::Failed(IoErrorKind::WriteZero),
            WriteState::EncErr => Step::Failed(IoErrorKind::InvalidData),
        }
    }

    fn written(&mut self, n: usize) -> (ok: bool)
        requires
            old(self).wf(),
        ensures
            final(self).wf(),
            match old(self)@.written(n) {
                Some(next) => ok && final(self)@ == next,
                None => !ok && final(self)@ == old(self)@,
            },
    {
        match self.write_state {
            WriteState::WriteLen { len, buf, off } => {
                if n > 2 - off {
                    return false;
                }
                if n == 0 {
                    self.write_state = WriteState::Eof;
                } else if off + n == 2 {
                    self.write_state = WriteState::WriteData { len, off: 0 };
                } else {
                    self.write_state = WriteState::WriteLen { len, buf, off: off + n };
                }
                true
            },
            WriteState::WriteData { len, off } => {
                if n > len - off {
                    return false;
                }
                if n == 0 {
                    self.write_state = WriteState::Eof;
                } else if off + n == len {
                    self.write_state = WriteState::Init;
                } else {
                    self.write_state = WriteState::WriteData { len, off: off + n };
                }
                true
            },
            _ => false,
        }
    }

    fn sealed(&mut self, plain_len: usize, reply: SessionReply)
        requires
            old(self).wf(),
            plain_len <= MAX_WRITE_BUF_LEN,
        ensures
            final(self).wf(),
            final(self)@ == old(self)@.sealed(plain_len as nat, reply@),
    {
        match self.session.sent_message(plain_len, reply) {
            Ok(ciphertext) => {
                let n = ciphertext.len();
                self.buffer.write_plain.clear();
                self.buffer.write_cipher = ciphertext;
                self.write_state = WriteState::WriteLen { len: n, buf: FrameLen::of(n), off: 0 };
            },
            Err(_) => {
                self.write_state = WriteState::EncErr;
            },
        }
    }

    /// Takes bytes of the caller for encryption and says how many it took.
    ///
    /// A frame that is still going out is sent first. Then the bytes are
    /// gathered, at most 16384 to a frame; the call that fills a frame has
    /// it encrypted before it answers.
    ///
    /// The first call of a write is made with [`Event::Enter`]. While the
    /// answer is [`Step::Do`], the action is to be carried out and the
    /// operation called again with its outcome and the same bytes.
    pub fn write(&mut self, buf: &[u8], event: Event) -> (step: Step<usize>)
        requires
            old(self).wf(),
        ensures
            final(self).wf(),
            (final(self)@, step@) == old(self)@.write(buf@, event@),
    {
        match self.write_state {
            WriteState::Eof => {
                return self.write_emit(buf);
            },
            WriteState::EncErr => {
                return self.write_emit(buf);
            },
            _ => {},
        }
        match event {
            Event::Enter => self.write_emit(buf),
            Event::WouldBlock => Step::Pending,
            Event::Failed(kind) => Step::Failed(kind),
            Event::Written(n) => {
                if self.written(n) {
                    self.write_emit(buf)
                } else {
                    Step::Failed(IoErrorKind::InvalidInput)
                }
            },
            Event::Crypto(reply) => {
                match self.write_state {
                    WriteState::BufferData { off } => {
                        let n = if MAX_WRITE_BUF_LEN - off <= buf.len() {
                            MAX_WRITE_BUF_LEN - off
                        } else {
                            buf.len()
                        };
                        if off + n == MAX_WRITE_BUF_LEN {
                            self.sealed(MAX_WRITE_BUF_LEN, reply);
                            match self.write_state {
                                WriteState::EncErr => Step::Failed(IoErrorKind::InvalidData),
                                _ => Step::Ready(n),
                            }
                        } else {
                            Step::Failed(IoErrorKind::InvalidInput)
                        }
                    },
                    _ => Step::Failed(IoErrorKind::InvalidInput),
                }
            },
            _ => Step::Failed(IoErrorKind::InvalidInput),
        }
    }

    fn flush_emit(&mut self) -> (step: Step<()>)
        requires
            old(self).wf(),
        ensures
            final(self).wf(),
            (final(self)@, step@) == old(self)@.flush_emit(),
    {
        match self.write_state {
            WriteState::Init => Step::Ready(()),
            WriteState::BufferData { off } => {
                let plain = copy_range(self.buffer.write_plain.as_slice(), 0, off);
                assert(plain@ =~= self@.write_plain);
                let buffer = self.session.write_message(plain);
                Step::Do(Action::Send { buffer })
            },
            WriteState::WriteLen { .. } => Step::Do(self.write_out()),
            WriteState::WriteData { .. } => Step::Do(self.write_out()),
            WriteState::Eof => Step::Failed(IoErrorKind::WriteZero),
            WriteState::EncErr => Step::Failed(IoErrorKind::InvalidData),
        }
    }

    /// Drains the writing side: has the gathered plaintext encrypted, however
    /// little it is, and sends the frame out. It is complete only when
    /// nothing is left to send.
    ///
    /// The first call of a flush is made with [`Event::Enter`]. While the
    /// answer is [`Step::Do`], the action is to be carried out and the
    /// operation called again with its outcome.
    pub fn flush(&mut self, event: Event) -> (step: Step<()>)
        requires
            old(self).wf(),
        ensures
            final(self).wf(),
            (final(self)@, step@) == old(self)@.flush(event@),
    {
        match self.write_state {
            WriteState::Eof => {
                return self.flush_emit();
            },
            WriteState::EncErr => {
                return self.flush_emit();
            },
            _ => {},
        }
        match event {
            Event::Enter => self.flush_emit(),
            Event::WouldBlock => Step::Pending,
            Event::Failed(kind) => Step::Failed(kind),
            Event::Written(n) => {
                if self.written(n) {
                    self.flush_emit()
                } else {
                    Step::Failed(IoErrorKind::InvalidInput)
                }
            },
            Event::Crypto(reply) => {
                match self.write_state {
                    WriteState::BufferData { off } => {
                        self.sealed(off, reply);
                        self.flush_emit()
                    },
                    _ => Step::Failed(IoErrorKind::InvalidInput),
                }
            },
            _ => Step::Failed(IoErrorKind::InvalidInput),
        }
    }

    /// Shuts the transport down. No closing frame is sent, and the call is
    /// answered alike in every state, a terminal one included.
    pub fn shutdown(&self, event: Event) -> (step: Step<()>)
        ensures
            step@ == Channel::shutdown(event@),
    {
        match event {
            Event::Enter => Step::Do(Action::Shutdown),
            Event::Closed => Step::Ready(()),
            Event::WouldBlock => Step::Pending,
            Event::Failed(kind) => Step::Failed(kind),
            _ => Step::Failed(IoErrorKind::InvalidInput),
        }
    }
}

/// The steps that a handshake is made of.
#[derive(PartialEq, Eq, Structural, Clone, Copy, Debug)]
pub enum Op {
    /// Send handshake message to remote.
    Send,
    /// Flush handshake message to remote.
    Flush,
    /// Receive handshake message from remote.
    Receive,
}

/// The answer of an operation without what it carried.
pub open spec fn without_value<T>(step: StepView<T>) -> StepView<()> {
    match step {
        StepView::Do(action) => StepView::Do(action),
        StepView::Pending => StepView::Pending,
        StepView::Ready(_) => StepView::Ready(()),
        StepView::Failed(kind) => StepView::Failed(kind),
    }
}

impl Channel {
    // ---- the handshake --------------------------------------------------

    /// One call of sending a handshake message: a write of no bytes.
    pub open spec fn send(self, event: EventView) -> (Channel, StepView<()>) {
        let (next, step) = self.write(Seq::empty(), event);
        (next, without_value(step))
    }

    /// One call of receiving a handshake message: a read of no bytes.
    pub open spec fn receive(self, event: EventView) -> (Channel, StepView<()>) {
        let (next, step) = self.read(0, event);
        (next, without_value(step))
    }

    /// One call of a step of the handshake.
    pub open spec fn perform(self, op: Op, event: EventView) -> (Channel, StepView<()>) {
        match op {
            Op::Send => self.send(event),
            Op::Flush => self.flush(event),
            Op::Receive => self.receive(event),
        }
    }

    /// The static key of the remote as the session last reported it, or
    /// `InvalidKey` where it has reported none.
    pub open spec fn finish(self) -> Result<[u8; 32], NoiseError> {
        match self.session.spec_status().remote_static {
            Some(key) => Ok(key),
            None => Err(NoiseError::InvalidKey),
        }
    }
}

/// A type used during the handshake phase, exchanging key material with the remote.
pub struct Handshake(NoiseOutput);

impl View for Handshake {
    type V = Channel;

    closed spec fn view(&self) -> Channel {
        self.0@
    }
}

impl Handshake {
    /// The invariant of the channel underneath.
    pub open spec fn wf(&self) -> bool {
        self@.wf()
    }

    /// A handshake over `session` on which nothing has happened yet.
    pub fn new(session: NoiseSession) -> (h: Handshake)
        ensures
            h@ == Channel::fresh(session),
            h.wf(),
    {
        Handshake(NoiseOutput::new(session))
    }

    /// Send handshake message to remote.
    pub fn send(&mut self, event: Event) -> (step: Step<()>)
        requires
            old(self).wf(),
        ensures
            final(self).wf(),
            (final(self)@, step@) == old(self)@.send(event@),
    {
        let empty: Vec<u8> = Vec::new();
        match self.0.write(empty.as_slice(), event) {
            Step::Do(action) => Step::Do(action),
            Step::Pending => Step::Pending,
            Step::Ready(_) => Step::Ready(()),
            Step::Failed(kind) => Step::Failed(kind),
        }
    }

    /// Flush handshake message to remote.
    pub fn flush(&mut self, event: Event) -> (step: Step<()>)
        requires
            old(self).wf(),
        ensures
            final(self).wf(),
            (final(self)@, step@) == old(self)@.flush(event@),
    {
        self.0.flush(event)
    }

    /// Receive handshake message from remote.
    pub fn receive(&mut self, event: Event) -> (step: Step<()>)
        requires
            old(self).wf(),
        ensures
            final(self).wf(),
            (final(self)@, step@) == old(self)@.receive(event@),
    {
        match self.0.read(0, event) {
            Step::Do(action) => Step::Do(action),
            Step::Pending => Step::Pending,
            Step::Ready(_) => Step::Ready(()),
            Step::Failed(kind) => Step::Failed(kind),
        }
    }

    /// One call of a step of the handshake.
    pub fn perform(&mut self, op: Op, event: Event) -> (step: Step<()>)
        requires
            old(self).wf(),
        ensures
            final(self).wf(),
            (final(self)@, step@) == old(self)@.perform(op, event@),
    {
        match op {
            Op::Send => self.send(event),
            Op::Flush => self.flush(event),
            Op::Receive => self.receive(event),
        }
    }

    /// Finish the handshake.
    ///
    /// This returns the remote's static public key as well as the
    /// established channel for further communication; it fails with
    /// `InvalidKey` where the session has not learnt the key.
    pub fn finish(self) -> (r: Result<([u8; 32], NoiseOutput), NoiseError>)
        requires
            self.wf(),
        ensures
            match self@.finish() {
                Ok(key) => r is Ok && r->Ok_0.0 == key && r->Ok_0.1@ == self@ && r->Ok_0.1.wf(),
                Err(e) => r is Err && r->Err_0 == e,
            },
    {
        let p = self.0.session.get_remote_static()?;
        Ok((p, self.0))
    }
}

} // verus!
