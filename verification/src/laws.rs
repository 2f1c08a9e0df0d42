//! What holds of the channel whatever the transport and the session do.
//!
//! Every law here is stated over the model of the channel
//! ([`crate::io::Channel`]), which the contracts of the operations tie the
//! running code to.

use crate::error::IoErrorKind;
use crate::frame::{
    ActionView, EventView, FrameLen, SessionReplyView, StepView, MAX_NOISE_PKG_LEN,
    MAX_WRITE_BUF_LEN,
};
use crate::driver::{DriverView, PollView};
use crate::io::{Channel, Eof, ReadState, WriteState};
use crate::session::{spec_layout, spec_pad, spec_strip, Layout, Pattern, MAX_PREFIX_LEN, TAG_LEN};
use vstd::prelude::*;

verus! {

impl Channel {
    /// The bytes of the frame that is going out which the transport has not
    /// taken yet.
    pub open spec fn outgoing(self) -> Seq<u8> {
        match self.write_state {
            WriteState::WriteLen { len, buf, off } => buf.bytes().subrange(off as int, 2)
                + self.write_cipher,
            WriteState::WriteData { len, off } => self.write_cipher.subrange(off as int, len as int),
            _ => Seq::empty(),
        }
    }

    /// Whether `n` bytes are no more than reading has asked the transport
    /// for.
    pub open spec fn read_fits(self, n: nat) -> bool {
        match self.read_state {
            ReadState::ReadLen { buf, off } => n <= 2 - off,
            ReadState::ReadData { len, off } => n <= len - off,
            _ => true,
        }
    }

    /// Reading while the transport hands over one piece after the other:
    /// the channel after the last piece and the answer to it.
    pub open spec fn read_pieces(self, want: usize, pieces: Seq<Seq<u8>>) -> (
        Channel,
        StepView<Seq<u8>>,
    )
        decreases pieces.len(),
    {
        if pieces.len() == 0 {
            self.read(want, EventView::Enter)
        } else if pieces.len() == 1 {
            self.read(want, EventView::Read(pieces[0]))
        } else {
            self.read(want, EventView::Read(pieces[0])).0.read_pieces(want, pieces.drop_first())
        }
    }

    /// The channel after the transport took bytes of the frame that is
    /// going out in one go after the other, `counts[i]` in the i-th.
    pub open spec fn written_each(self, counts: Seq<usize>) -> Option<Channel>
        decreases counts.len(),
    {
        if counts.len() == 0 {
            Some(self)
        } else {
            match self.written(counts[0]) {
                Some(next) => next.written_each(counts.drop_first()),
                None => None,
            }
        }
    }
}

/// The sum of the numbers in `counts`.
pub open spec fn total(counts: Seq<usize>) -> nat
    decreases counts.len(),
{
    if counts.len() == 0 {
        0
    } else {
        counts[0] as nat + total(counts.drop_first())
    }
}

/// Every shape of a message has room for at least a tag, and at most for
/// the longest prefix and a tag.
pub proof fn lemma_layout_bounds(pattern: Pattern, message_count: u64, transport: bool)
    ensures
        spec_layout(pattern, message_count, transport).prefix <= MAX_PREFIX_LEN,
        spec_layout(pattern, message_count, transport).tag <= TAG_LEN,
        spec_layout(pattern, message_count, transport).prefix + spec_layout(
            pattern,
            message_count,
            transport,
        ).tag >= TAG_LEN,
{
}

/// Cutting the payload out undoes laying the buffer out: of the buffer
/// that the adapter lays out for a payload the adapter returns the payload.
pub proof fn lemma_strip_undoes_pad(layout: Layout, payload: Seq<u8>)
    ensures
        spec_pad(layout, payload).len() == layout.prefix + payload.len() + layout.tag,
        spec_strip(layout, spec_pad(layout, payload)) == Some(payload),
{
    let padded = spec_pad(layout, payload);
    assert(padded.subrange(layout.prefix as int, padded.len() - layout.tag) =~= payload);
}

/// The session works in place and leaves the payload where it lies: of any
/// buffer that is as long as the one laid out for a payload and holds the
/// payload in the same place, the adapter returns the payload.
pub proof fn lemma_strip_finds_payload(layout: Layout, payload: Seq<u8>, buffer: Seq<u8>)
    requires
        buffer.len() == spec_pad(layout, payload).len(),
        buffer.subrange(layout.prefix as int, layout.prefix + payload.len()) == payload,
    ensures
        spec_strip(layout, buffer) == Some(payload),
{
}

/// The invariant of a channel holds after every operation, whatever event
/// it is called with.
pub proof fn lemma_operations_keep_invariant(
    c: Channel,
    want: usize,
    buf: Seq<u8>,
    event: EventView,
)
    requires
        c.wf(),
        event.wf(),
    ensures
        c.read(want, event).0.wf(),
        c.write(buf, event).0.wf(),
        c.flush(event).0.wf(),
{
    lemma_layout_bounds(
        c.session.spec_pattern(),
        c.session.spec_status().message_count,
        c.session.spec_status().transport,
    );
}

/// No operation changes the state or a buffer of the other direction.
pub proof fn lemma_directions_are_independent(
    c: Channel,
    want: usize,
    buf: Seq<u8>,
    event: EventView,
)
    ensures
        c.read(want, event).0.write_state == c.write_state,
        c.read(want, event).0.write_plain == c.write_plain,
        c.read(want, event).0.write_cipher == c.write_cipher,
        c.write(buf, event).0.read_state == c.read_state,
        c.write(buf, event).0.read_cipher == c.read_cipher,
        c.write(buf, event).0.read_plain == c.read_plain,
        c.flush(event).0.read_state == c.read_state,
        c.flush(event).0.read_cipher == c.read_cipher,
        c.flush(event).0.read_plain == c.read_plain,
{
}

/// The frame bound. Whatever an operation asks the session to encrypt
/// holds at most 16384 bytes of plaintext, and a frame that is going out
/// declares the length of its ciphertext, which is at most 65535.
pub proof fn lemma_frame_bound(c: Channel, buf: Seq<u8>, event: EventView)
    requires
        c.wf(),
        event.wf(),
    ensures
        c.write(buf, event).1 matches StepView::Do(ActionView::Send { buffer }) ==> exists|
            plain: Seq<u8>,
        |
            plain.len() <= MAX_WRITE_BUF_LEN && #[trigger] spec_pad(
                c.session.spec_next_layout(),
                plain,
            ) == buffer,
        c.flush(event).1 matches StepView::Do(ActionView::Send { buffer }) ==> exists|
            plain: Seq<u8>,
        |
            plain.len() <= MAX_WRITE_BUF_LEN && #[trigger] spec_pad(
                c.session.spec_next_layout(),
                plain,
            ) == buffer,
        c.write(buf, event).0.write_state matches WriteState::WriteLen { len, buf: prefix, off }
            ==> len <= MAX_NOISE_PKG_LEN && prefix.spec_value() == len && len == c.write(
            buf,
            event,
        ).0.write_cipher.len(),
        c.flush(event).0.write_state matches WriteState::WriteLen { len, buf: prefix, off } ==> len
            <= MAX_NOISE_PKG_LEN && prefix.spec_value() == len && len == c.flush(
            event,
        ).0.write_cipher.len(),
{
    lemma_operations_keep_invariant(c, 0, buf, event);
    let layout = c.session.spec_next_layout();
    match c.write(buf, event).1 {
        StepView::Do(ActionView::Send { buffer }) => {
            let after = match event {
                EventView::Written(n) => c.written(n).unwrap(),
                _ => c,
            };
            let gathering = match after.write_state {
                WriteState::Init => Channel {
                    write_state: WriteState::BufferData { off: 0 },
                    write_plain: Seq::empty(),
                    ..after
                },
                _ => after,
            };
            let off = gathering.write_state->BufferData_off;
            let plain = gathering.write_plain + buf.subrange(
                0,
                Channel::accept(off, buf.len()) as int,
            );
            assert(spec_pad(layout, plain) == buffer);
        },
        _ => {},
    }
    match c.flush(event).1 {
        StepView::Do(ActionView::Send { buffer }) => {
            let after = match event {
                EventView::Written(n) => c.written(n).unwrap(),
                _ => c,
            };
            assert(spec_pad(layout, after.write_plain) == buffer);
        },
        _ => {},
    }
}

/// No operation asks the transport for nothing. A read of no bytes would
/// pass for the end of the stream, and a write of none for a transport that
/// takes nothing: whatever an operation asks to read or to write is at
/// least one byte, and at most a whole frame.
pub proof fn lemma_never_asks_for_nothing(c: Channel, want: usize, buf: Seq<u8>, event: EventView)
    requires
        c.wf(),
        event.wf(),
    ensures
        c.read(want, event).1 matches StepView::Do(action) ==> match action {
            ActionView::Read { max } => 1 <= max <= MAX_NOISE_PKG_LEN,
            ActionView::Receive { frame } => 1 <= frame.len() <= MAX_NOISE_PKG_LEN,
            _ => false,
        },
        c.write(buf, event).1 matches StepView::Do(action) ==> match action {
            ActionView::Write { bytes } => 1 <= bytes.len() <= MAX_NOISE_PKG_LEN,
            ActionView::Send { buffer } => TAG_LEN <= buffer.len() <= MAX_PREFIX_LEN
                + MAX_WRITE_BUF_LEN + TAG_LEN,
            _ => false,
        },
        c.flush(event).1 matches StepView::Do(action) ==> match action {
            ActionView::Write { bytes } => 1 <= bytes.len() <= MAX_NOISE_PKG_LEN,
            ActionView::Send { buffer } => TAG_LEN <= buffer.len() <= MAX_PREFIX_LEN
                + MAX_WRITE_BUF_LEN + TAG_LEN,
            _ => false,
        },
{
    lemma_operations_keep_invariant(c, want, buf, event);
    lemma_layout_bounds(
        c.session.spec_pattern(),
        c.session.spec_status().message_count,
        c.session.spec_status().transport,
    );
}

/// Writing keeps the caller's bytes in their order. A write that does not
/// fill a frame takes all it was given and puts it behind what was gathered
/// before. A write that fills a frame hands to the session what was
/// gathered before and, behind it, the front of what it was given, as the
/// payload of the buffer laid out for it.
pub proof fn lemma_write_keeps_order(c: Channel, buf: Seq<u8>)
    requires
        c.wf(),
        c.write_state is Init || c.write_state is BufferData,
    ensures
        ({
            let before = if c.write_state is Init {
                Seq::<u8>::empty()
            } else {
                c.write_plain
            };
            let (next, step) = c.write(buf, EventView::Enter);
            match step {
                StepView::Ready(n) => {
                    &&& n == buf.len()
                    &&& next.write_plain == before + buf.subrange(0, n as int)
                    &&& next.write_state == (WriteState::BufferData {
                        off: (before.len() + n) as usize,
                    })
                },
                StepView::Do(ActionView::Send { buffer }) => {
                    let n = MAX_WRITE_BUF_LEN - before.len();
                    &&& n <= buf.len()
                    &&& spec_strip(c.session.spec_next_layout(), buffer) == Some(
                        before + buf.subrange(0, n),
                    )
                },
                _ => false,
            }
        }),
{
    let before = if c.write_state is Init {
        Seq::<u8>::empty()
    } else {
        c.write_plain
    };
    let n = Channel::accept(before.len() as usize, buf.len());
    lemma_strip_undoes_pad(c.session.spec_next_layout(), before + buf.subrange(0, n as int));
}

/// Terminal states are sticky. Once reading has come to an end, every read
/// gives the same answer, asks for nothing and changes nothing; and so for
/// writing, with every write and every flush.
pub proof fn lemma_terminal_states_are_sticky(
    c: Channel,
    want: usize,
    buf: Seq<u8>,
    event: EventView,
)
    ensures
        c.read_state.is_terminal() ==> {
            &&& c.read(want, event).0 == c
            &&& !(c.read(want, event).1 is Do)
            &&& c.read(want, event).1 == match c.read_state {
                ReadState::Eof(Eof::Clean) => StepView::<Seq<u8>>::Ready(Seq::empty()),
                ReadState::Eof(Eof::Unexpected) => StepView::Failed(IoErrorKind::UnexpectedEof),
                _ => StepView::Failed(IoErrorKind::InvalidData),
            }
        },
        c.write_state.is_terminal() ==> {
            &&& c.write(buf, event).0 == c
            &&& c.flush(event).0 == c
            &&& c.write(buf, event).1 == match c.write_state {
                WriteState::Eof => StepView::<usize>::Failed(IoErrorKind::WriteZero),
                _ => StepView::Failed(IoErrorKind::InvalidData),
            }
            &&& c.flush(event).1 == match c.write_state {
                WriteState::Eof => StepView::<()>::Failed(IoErrorKind::WriteZero),
                _ => StepView::Failed(IoErrorKind::InvalidData),
            }
        },
{
}

/// A frame that the session rejects ends reading for good: the read fails
/// with invalid data, and so does every read after it, without asking the
/// transport for another byte.
pub proof fn lemma_rejected_frame_ends_reading(
    c: Channel,
    want: usize,
    reply: SessionReplyView,
    later_want: usize,
    later: EventView,
)
    requires
        c.read_state matches ReadState::ReadData { len, off } && off == len,
        reply.output is None,
    ensures
        c.read(want, EventView::Crypto(reply)).1 == StepView::<Seq<u8>>::Failed(
            IoErrorKind::InvalidData,
        ),
        c.read(want, EventView::Crypto(reply)).0.read_state == ReadState::DecErr,
        c.read(want, EventView::Crypto(reply)).0.read(later_want, later) == (
            c.read(want, EventView::Crypto(reply)).0,
            StepView::<Seq<u8>>::Failed(IoErrorKind::InvalidData),
        ),
{
}

/// The end of the stream. Between two frames it is a clean end: the read
/// gives no bytes, now and ever after. Inside the body of a frame it is an
/// unexpected end: the read fails with it, now and ever after.
pub proof fn lemma_end_of_stream(c: Channel, want: usize, later_want: usize, later: EventView)
    ensures
        c.read_state matches ReadState::ReadLen { buf, off } && off == 0 ==> {
            let (end, step) = c.read(want, EventView::Read(Seq::empty()));
            &&& step == StepView::<Seq<u8>>::Ready(Seq::empty())
            &&& end.read_state == ReadState::Eof(Eof::Clean)
            &&& end.read(later_want, later) == (end, step)
        },
        c.read_state matches ReadState::ReadData { len, off } && off < len ==> {
            let (end, step) = c.read(want, EventView::Read(Seq::empty()));
            &&& step == StepView::<Seq<u8>>::Failed(IoErrorKind::UnexpectedEof)
            &&& end.read_state == ReadState::Eof(Eof::Unexpected)
            &&& end.read(later_want, later) == (end, step)
        },
{
}

/// A transport that would block changes nothing: every operation is
/// pending and leaves the channel as it was.
pub proof fn lemma_would_block_changes_nothing(c: Channel, want: usize, buf: Seq<u8>)
    ensures
        c.read(want, EventView::WouldBlock).0 == c,
        c.write(buf, EventView::WouldBlock).0 == c,
        c.flush(EventView::WouldBlock).0 == c,
        !c.read_state.is_terminal() ==> c.read(want, EventView::WouldBlock).1
            == StepView::<Seq<u8>>::Pending,
        !c.write_state.is_terminal() ==> c.write(buf, EventView::WouldBlock).1
            == StepView::<usize>::Pending,
        !c.write_state.is_terminal() ==> c.flush(EventView::WouldBlock).1 == StepView::<
            (),
        >::Pending,
{
}

/// Reading does not depend on how the transport cuts the bytes up. Bytes
/// that arrive in two pieces leave the channel as the same bytes in one
/// piece do, and get the same answer, as long as they are no more than
/// reading has asked for.
pub proof fn lemma_read_in_pieces(c: Channel, want: usize, a: Seq<u8>, b: Seq<u8>)
    requires
        c.wf(),
        a.len() > 0,
        b.len() > 0,
        c.read_fits(a.len() + b.len()),
    ensures
        c.read(want, EventView::Read(a)).0.read(want, EventView::Read(b)) == c.read(
            want,
            EventView::Read(a + b),
        ),
{
    match c.read_state {
        ReadState::ReadLen { buf, off } => {
            assert(off == 0 && a.len() == 1 && b.len() == 1);
            assert((a + b)[0] == a[0] && (a + b)[1] == b[0]);
        },
        ReadState::ReadData { len, off } => {
            assert((c.read_cipher + a) + b =~= c.read_cipher + (a + b));
        },
        _ => {},
    }
}

/// Writing does not depend on how much the transport takes at a time. Of
/// the frame that is going out no byte is lost and none is sent twice: what
/// the channel offers next is what it offered before without the bytes
/// that were taken, and taking bytes in two goes is taking them in one.
pub proof fn lemma_write_in_pieces(c: Channel, n: usize, m: usize)
    requires
        c.wf(),
        0 < n,
        c.written(n) is Some,
    ensures
        c.write_out() matches ActionView::Write { bytes } && bytes.len() > 0 && bytes.is_prefix_of(
            c.outgoing(),
        ),
        c.written(n).unwrap().outgoing() == c.outgoing().skip(n as int),
        0 < m && n + m <= usize::MAX && c.written((n + m) as usize) is Some ==> c.written(
            n,
        ).unwrap().written(m) == c.written((n + m) as usize),
{
    let next = c.written(n).unwrap();
    match c.write_state {
        WriteState::WriteLen { len, buf, off } => {
            assert(next.outgoing() =~= c.outgoing().skip(n as int));
            assert(c.write_cipher.subrange(0, len as int) =~= c.write_cipher);
        },
        WriteState::WriteData { len, off } => {
            assert(next.outgoing() =~= c.outgoing().skip(n as int));
        },
        _ => {},
    }
}

/// Reading takes a transport as it comes, down to one byte at a time. Bytes
/// that arrive in any number of pieces, none of them empty, leave the
/// channel as the same bytes in one piece do, and get the same answer, as
/// long as they are no more than reading has asked for: no byte is lost and
/// none is read twice.
pub proof fn lemma_read_in_any_pieces(c: Channel, want: usize, pieces: Seq<Seq<u8>>)
    requires
        c.wf(),
        pieces.len() >= 1,
        forall|i: int| 0 <= i < pieces.len() ==> (#[trigger] pieces[i]).len() > 0,
        c.read_fits(pieces.flatten().len()),
    ensures
        c.read_pieces(want, pieces) == c.read(want, EventView::Read(pieces.flatten())),
    decreases pieces.len(),
{
    let a = pieces[0];
    let rest = pieces.drop_first();
    assert(pieces.flatten() == a + rest.flatten());
    if pieces.len() == 1 {
        assert(rest.flatten() =~= Seq::<u8>::empty());
        assert(a + rest.flatten() =~= a);
    } else {
        let b = rest.flatten();
        assert(rest[0] == pieces[1]);
        assert(b == rest[0] + rest.drop_first().flatten());
        assert(b.len() > 0);
        assert forall|i: int| 0 <= i < rest.len() implies (#[trigger] rest[i]).len() > 0 by {
            assert(rest[i] == pieces[i + 1]);
        }
        let ch1 = c.read(want, EventView::Read(a)).0;
        lemma_operations_keep_invariant(c, want, Seq::empty(), EventView::Read(a));
        lemma_read_in_any_pieces(ch1, want, rest);
        lemma_read_in_pieces(c, want, a, b);
    }
}

/// Writing takes a transport as it comes, down to one byte at a time. The
/// bytes of a frame that the transport takes in any number of goes, none of
/// them empty, leave the channel as the same number of bytes taken in one
/// go does.
pub proof fn lemma_write_in_any_pieces(c: Channel, counts: Seq<usize>)
    requires
        c.wf(),
        counts.len() >= 1,
        forall|i: int| 0 <= i < counts.len() ==> #[trigger] counts[i] > 0,
        total(counts) <= usize::MAX,
        c.written(total(counts) as usize) is Some,
    ensures
        c.written_each(counts) == c.written(total(counts) as usize),
    decreases counts.len(),
{
    let n = counts[0];
    let rest = counts.drop_first();
    if counts.len() == 1 {
        assert(total(rest) == 0);
        assert(c.written(n).unwrap().written_each(rest) == Some(c.written(n).unwrap()));
    } else {
        assert(rest[0] == counts[1]);
        assert(total(rest) == rest[0] + total(rest.drop_first()));
        let m = total(rest) as usize;
        assert(m > 0);
        assert forall|i: int| 0 <= i < rest.len() implies #[trigger] rest[i] > 0 by {
            assert(rest[i] == counts[i + 1]);
        }
        assert(c.written(n) is Some);
        lemma_write_in_pieces(c, n, m);
        lemma_operations_keep_invariant(c, 0, Seq::empty(), EventView::Written(n));
        let ch1 = c.written(n).unwrap();
        assert(ch1.write_wf()) by {
            assert(c.flush(EventView::Written(n)).0 == ch1);
        }
        assert(ch1.wf());
        lemma_write_in_any_pieces(ch1, rest);
    }
}

/// The driver never takes a step twice. A poll leaves the driver at the
/// step it was at or at a later one, with the steps as they were; where
/// the handshake is complete, the key handed over is the one that the
/// session last reported.
pub proof fn lemma_driver_only_advances(d: DriverView, event: EventView)
    requires
        d.wf(),
        event.wf(),
    ensures
        match d.poll(event) {
            PollView::Do(next, _) => next.ops == d.ops && d.pos <= next.pos < d.ops.len()
                && next.wf(),
            PollView::NotReady(next) => next.ops == d.ops && d.pos <= next.pos < d.ops.len()
                && next.wf(),
            PollView::Ready(key, channel) => channel.wf() && channel.finish() == Ok::<
                [u8; 32],
                crate::error::NoiseError,
            >(key),
            PollView::Failed(_) => true,
        },
    decreases d.ops.len() - d.pos,
{
    if d.pos < d.ops.len() {
        let (channel, step) = d.channel.perform(d.ops[d.pos as int], event);
        lemma_operations_keep_invariant(d.channel, 0, Seq::empty(), event);
        assert(channel.wf());
        match step {
            StepView::Ready(_) => {
                lemma_driver_only_advances(
                    DriverView { pos: d.pos + 1, channel, ..d },
                    EventView::Enter,
                );
            },
            _ => {},
        }
    }
}

/// Flush drains the writing side. With `k < 16384` bytes gathered, flush
/// has exactly those bytes encrypted; once the session answers with the
/// ciphertext, it sends the length of the ciphertext and the ciphertext,
/// and after the last byte nothing is left: the state is the initial one
/// and the flush is complete.
pub proof fn lemma_flush_drains(c: Channel, ciphertext: Seq<u8>, reply: SessionReplyView)
    requires
        c.wf(),
        c.write_state is BufferData,
        reply.output == Some(ciphertext),
        ciphertext.len() == spec_pad(c.session.spec_next_layout(), c.write_plain).len(),
    ensures
        c.flush(EventView::Enter) == (
            c,
            StepView::<()>::Do(
                ActionView::Send { buffer: spec_pad(c.session.spec_next_layout(), c.write_plain) },
            ),
        ),
        spec_strip(
            c.session.spec_next_layout(),
            spec_pad(c.session.spec_next_layout(), c.write_plain),
        ) == Some(c.write_plain),
        ({
            let (ch1, step1) = c.flush(EventView::Crypto(reply));
            let (ch2, step2) = ch1.flush(EventView::Written(2));
            let (ch3, step3) = ch2.flush(EventView::Written(ciphertext.len() as usize));
            &&& step1 == StepView::<()>::Do(
                ActionView::Write { bytes: FrameLen::spec_of(ciphertext.len()).bytes() },
            )
            &&& FrameLen::spec_of(ciphertext.len()).spec_value() == ciphertext.len()
            &&& step2 == StepView::<()>::Do(ActionView::Write { bytes: ciphertext })
            &&& step3 == StepView::<()>::Ready(())
            &&& ch3.write_state == WriteState::Init
            &&& ch3.flush(EventView::Enter) == (ch3, StepView::<()>::Ready(()))
        }),
{
    let layout = c.session.spec_next_layout();
    lemma_layout_bounds(
        c.session.spec_pattern(),
        c.session.spec_status().message_count,
        c.session.spec_status().transport,
    );
    lemma_strip_undoes_pad(layout, c.write_plain);
    let (ch1, step1) = c.flush(EventView::Crypto(reply));
    assert(ch1.write_cipher == ciphertext);
    let prefix = FrameLen::spec_of(ciphertext.len());
    assert(prefix.bytes().len() == 2);
    assert(prefix.bytes().subrange(0, 2) =~= prefix.bytes());
    let (ch2, step2) = ch1.flush(EventView::Written(2));
    assert(ciphertext.subrange(0, ciphertext.len() as int) =~= ciphertext);
}

/// Write, then flush. A writer at rest that is given fewer than 16384 bytes
/// takes them all. The flush that follows has exactly those bytes
/// encrypted, sends one frame, and leaves the writer at rest again.
pub proof fn lemma_write_then_flush(c: Channel, buf: Seq<u8>, reply: SessionReplyView)
    requires
        c.wf(),
        c.write_state == WriteState::Init,
        buf.len() < MAX_WRITE_BUF_LEN,
        reply.output is Some,
        reply.output.unwrap().len() == spec_pad(c.session.spec_next_layout(), buf).len(),
    ensures
        ({
            let ciphertext = reply.output.unwrap();
            let (ch0, took) = c.write(buf, EventView::Enter);
            let (_, asks) = ch0.flush(EventView::Enter);
            let (ch1, _) = ch0.flush(EventView::Crypto(reply));
            let (ch2, _) = ch1.flush(EventView::Written(2));
            let (ch3, done) = ch2.flush(EventView::Written(ciphertext.len() as usize));
            &&& took == StepView::<usize>::Ready(buf.len() as usize)
            &&& asks == StepView::<()>::Do(
                ActionView::Send { buffer: spec_pad(c.session.spec_next_layout(), buf) },
            )
            &&& spec_strip(c.session.spec_next_layout(), spec_pad(c.session.spec_next_layout(), buf))
                == Some(buf)
            &&& ch1.outgoing() == FrameLen::spec_of(ciphertext.len()).bytes() + ciphertext
            &&& done == StepView::<()>::Ready(())
            &&& ch3.write_state == WriteState::Init
        }),
{
    let (ch0, took) = c.write(buf, EventView::Enter);
    assert(buf.subrange(0, buf.len() as int) =~= buf);
    assert(ch0.write_plain =~= buf);
    lemma_operations_keep_invariant(c, 0, buf, EventView::Enter);
    lemma_flush_drains(ch0, reply.output.unwrap(), reply);
    let (ch1, _) = ch0.flush(EventView::Crypto(reply));
    let prefix = FrameLen::spec_of(reply.output.unwrap().len());
    assert(prefix.bytes().subrange(0, 2) =~= prefix.bytes());
}

/// A frame crosses the wire unchanged. A reader between two frames that is
/// given the two bytes of a length and then as many bytes of ciphertext
/// hands exactly that ciphertext to the session's receive. Once the session
/// answers with a buffer, the reader gives the caller the payload of that
/// buffer, as far as the caller has room.
pub proof fn lemma_frame_is_delivered(
    c: Channel,
    want: usize,
    ciphertext: Seq<u8>,
    reply: SessionReplyView,
    payload: Seq<u8>,
)
    requires
        c.wf(),
        c.read_state == ReadState::Init || c.read_state == (ReadState::ReadLen {
            buf: FrameLen { hi: 0, lo: 0 },
            off: 0,
        }),
        0 < ciphertext.len() <= MAX_NOISE_PKG_LEN,
        reply.output is Some,
        spec_strip(c.session.spec_next_layout(), reply.output.unwrap()) == Some(payload),
        payload.len() <= usize::MAX,
    ensures
        ({
            let (ch1, step1) = c.read(want, EventView::Enter);
            let (ch2, step2) = ch1.read(
                want,
                EventView::Read(FrameLen::spec_of(ciphertext.len()).bytes()),
            );
            let (ch3, step3) = ch2.read(want, EventView::Read(ciphertext));
            let (ch4, step4) = ch3.read(want, EventView::Crypto(reply));
            &&& step1 == StepView::<Seq<u8>>::Do(ActionView::Read { max: 2 })
            &&& step2 == StepView::<Seq<u8>>::Do(ActionView::Read { max: ciphertext.len() as usize })
            &&& step3 == StepView::<Seq<u8>>::Do(ActionView::Receive { frame: ciphertext })
            &&& step4 == StepView::<Seq<u8>>::Ready(
                payload.subrange(
                    0,
                    if payload.len() <= want {
                        payload.len() as int
                    } else {
                        want as int
                    },
                ),
            )
            &&& ch4.read_plain == payload
        }),
{
    let prefix = FrameLen::spec_of(ciphertext.len());
    let (ch1, step1) = c.read(want, EventView::Enter);
    let (ch2, step2) = ch1.read(want, EventView::Read(prefix.bytes()));
    assert(prefix.spec_value() == ciphertext.len());
    assert(FrameLen { hi: 0, lo: 0 }.spec_put(0, prefix.bytes()) == prefix);
    assert(ch2.read_cipher =~= Seq::<u8>::empty());
    let (ch3, step3) = ch2.read(want, EventView::Read(ciphertext));
    assert(ch3.read_cipher =~= ciphertext);
}

/// The caller takes a payload as it likes, down to one byte at a time.
/// While some of a payload is left, two reads give, one after the other,
/// the bytes that one read with room for both gives, and leave the channel
/// as that read does: no byte is lost and none is given twice.
pub proof fn lemma_copy_out_in_pieces(c: Channel, first: usize, second: usize)
    requires
        c.wf(),
        c.read_state matches ReadState::CopyData { len, off } && first < len - off,
        first + second <= usize::MAX,
    ensures
        ({
            let (ch1, step1) = c.read(first, EventView::Enter);
            let (ch2, step2) = ch1.read(second, EventView::Enter);
            let (whole, s) = c.read((first + second) as usize, EventView::Enter);
            &&& step1 is Ready
            &&& step2 is Ready
            &&& s is Ready
            &&& step1->Ready_0.len() == first
            &&& step1->Ready_0 + step2->Ready_0 == s->Ready_0
            &&& ch2 == whole
        }),
{
    let (ch1, step1) = c.read(first, EventView::Enter);
    let (ch2, step2) = ch1.read(second, EventView::Enter);
    let (whole, s) = c.read((first + second) as usize, EventView::Enter);
    assert(step1->Ready_0 + step2->Ready_0 =~= s->Ready_0);
}

/// One frame from end to end. Let the writer have gathered some bytes, and
/// let the reader stand between two frames with a session that expects a
/// message of the same shape. Let the writer's session answer the flush
/// with any ciphertext of the length of the buffer it was given, and let
/// the reader's session, given that ciphertext, answer with any buffer of
/// that length that holds the gathered bytes where the payload lies. Then
/// what the writer sends is the length of the ciphertext and the
/// ciphertext; the reader, fed these, hands the ciphertext to its session;
/// and the read gives the caller the gathered bytes, as far as the caller
/// has room.
///
/// That a session gives back in receiving what another took in sending is
/// the part of the cryptography, and is taken for granted here.
pub proof fn lemma_frame_round_trip(
    writer: Channel,
    reader: Channel,
    want: usize,
    sent: SessionReplyView,
    received: SessionReplyView,
)
    requires
        writer.wf(),
        reader.wf(),
        writer.write_state is BufferData,
        reader.read_state == ReadState::Init,
        reader.session.spec_next_layout() == writer.session.spec_next_layout(),
        sent.output is Some,
        sent.output.unwrap().len() == spec_pad(
            writer.session.spec_next_layout(),
            writer.write_plain,
        ).len(),
        received.output is Some,
        received.output.unwrap().len() == sent.output.unwrap().len(),
        received.output.unwrap().subrange(
            writer.session.spec_next_layout().prefix as int,
            writer.session.spec_next_layout().prefix + writer.write_plain.len(),
        ) == writer.write_plain,
    ensures
        ({
            let ciphertext = sent.output.unwrap();
            let prefix = FrameLen::spec_of(ciphertext.len());
            let (wr1, out1) = writer.flush(EventView::Crypto(sent));
            let (wr2, out2) = wr1.flush(EventView::Written(2));
            let (wr3, out3) = wr2.flush(EventView::Written(ciphertext.len() as usize));
            let (rd1, in1) = reader.read(want, EventView::Enter);
            let (rd2, in2) = rd1.read(want, EventView::Read(prefix.bytes()));
            let (rd3, in3) = rd2.read(want, EventView::Read(ciphertext));
            let (rd4, in4) = rd3.read(want, EventView::Crypto(received));
            &&& out1 == StepView::<()>::Do(ActionView::Write { bytes: prefix.bytes() })
            &&& out2 == StepView::<()>::Do(ActionView::Write { bytes: ciphertext })
            &&& out3 == StepView::<()>::Ready(())
            &&& in3 == StepView::<Seq<u8>>::Do(ActionView::Receive { frame: ciphertext })
            &&& rd4.read_plain == writer.write_plain
            &&& in4 == StepView::<Seq<u8>>::Ready(
                writer.write_plain.subrange(
                    0,
                    if writer.write_plain.len() <= want {
                        writer.write_plain.len() as int
                    } else {
                        want as int
                    },
                ),
            )
        }),
{
    let layout = writer.session.spec_next_layout();
    let ciphertext = sent.output.unwrap();
    lemma_layout_bounds(
        writer.session.spec_pattern(),
        writer.session.spec_status().message_count,
        writer.session.spec_status().transport,
    );
    lemma_flush_drains(writer, ciphertext, sent);
    lemma_strip_finds_payload(layout, writer.write_plain, received.output.unwrap());
    lemma_frame_is_delivered(reader, want, ciphertext, received, writer.write_plain);
}

} // verus!
