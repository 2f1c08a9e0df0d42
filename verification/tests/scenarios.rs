//! Two channels back to back over pipes in memory, with a stand-in for the
//! session primitive: it keeps to the buffer shapes of the three patterns,
//! carries the static keys where the patterns carry them, and seals every
//! message with a checksum where the real thing has an authentication tag.

use libp2p_noise::driver::Poll;
use libp2p_noise::error::{IoErrorKind, NoiseError};
use libp2p_noise::frame::{Action, Event, SessionReply, Step};
use libp2p_noise::io::{Eof, NoiseOutput, ReadState, WriteState};
use libp2p_noise::rt1;
use libp2p_noise::rt15;
use libp2p_noise::session::{Pattern, SessionStatus};
use libp2p_noise::upgrade::{Keypair, PublicKey, SessionInit, IK, IX, XX};
use std::collections::VecDeque;

// ---- the stand-in session ------------------------------------------------

struct ToySession {
    pattern: Pattern,
    /// The messages processed, both ways.
    count: u64,
    /// The messages sent and received, which seal the messages of each
    /// direction apart from the other.
    sent: u64,
    received: u64,
    local: [u8; 32],
    remote: Option<[u8; 32]>,
    /// Whether the session tells what it has learnt of the remote.
    tells_remote: bool,
}

impl ToySession {
    fn new(init: &SessionInit) -> ToySession {
        ToySession {
            pattern: init.pattern,
            count: 0,
            sent: 0,
            received: 0,
            local: init.keypair.public_key().as_bytes(),
            remote: init.remote.map(|k| k.as_bytes()),
            tells_remote: true,
        }
    }

    fn handshake_messages(&self) -> u64 {
        match self.pattern {
            Pattern::IK | Pattern::IX => 2,
            Pattern::XX => 3,
        }
    }

    fn is_transport(&self) -> bool {
        self.count >= self.handshake_messages()
    }

    /// Prefix, tag, and where in the prefix the sender's static key lies.
    fn shape(&self) -> (usize, usize, Option<usize>) {
        if self.is_transport() {
            return (0, 16, None);
        }
        match (self.pattern, self.count) {
            (Pattern::IK, 0) => (80, 16, Some(32)),
            (Pattern::IK, _) => (32, 16, None),
            (Pattern::IX, 0) => (64, 0, Some(32)),
            (Pattern::IX, _) => (80, 16, Some(32)),
            (Pattern::XX, 0) => (32, 0, None),
            (Pattern::XX, 1) => (80, 16, Some(32)),
            (Pattern::XX, _) => (48, 16, Some(0)),
        }
    }

    fn pad(nonce: u64) -> u8 {
        0x5A ^ (nonce as u8)
    }

    fn seal(count: u64, body: &[u8]) -> [u8; 16] {
        let mut sum = count.wrapping_mul(0x9E37_79B9_7F4A_7C15);
        for (i, b) in body.iter().enumerate() {
            sum = sum.rotate_left(5) ^ (u64::from(*b) + i as u64);
            sum = sum.wrapping_mul(0x0100_0000_01B3);
        }
        let mut tag = [0u8; 16];
        tag[..8].copy_from_slice(&sum.to_be_bytes());
        tag[8..].copy_from_slice(&(!sum).to_le_bytes());
        tag
    }

    fn send_message(&mut self, buf: &mut [u8]) -> Result<(), ()> {
        let (prefix, tag, key_at) = self.shape();
        if buf.len() < prefix + tag {
            return Err(());
        }
        for b in buf[..prefix].iter_mut() {
            *b = 0xE0;
        }
        if let Some(at) = key_at {
            buf[at..at + 32].copy_from_slice(&self.local);
        }
        let end = buf.len() - tag;
        let pad = ToySession::pad(self.sent);
        for b in buf[prefix..end].iter_mut() {
            *b ^= pad;
        }
        if tag > 0 {
            let seal = ToySession::seal(self.sent, &buf[..end]);
            buf[end..].copy_from_slice(&seal);
        }
        self.sent += 1;
        self.count += 1;
        Ok(())
    }

    fn recv_message(&mut self, buf: &mut [u8]) -> Result<(), ()> {
        let (prefix, tag, key_at) = self.shape();
        if buf.len() < prefix + tag {
            return Err(());
        }
        let end = buf.len() - tag;
        if tag > 0 && buf[end..] != ToySession::seal(self.received, &buf[..end])[..] {
            return Err(());
        }
        if let Some(at) = key_at {
            let mut key = [0u8; 32];
            key.copy_from_slice(&buf[at..at + 32]);
            self.remote = Some(key);
        }
        let pad = ToySession::pad(self.received);
        for b in buf[prefix..end].iter_mut() {
            *b ^= pad;
        }
        self.received += 1;
        self.count += 1;
        Ok(())
    }

    fn status(&self) -> SessionStatus {
        SessionStatus {
            message_count: self.count,
            transport: self.is_transport(),
            remote_static: if self.tells_remote { self.remote } else { None },
        }
    }
}

// ---- the transport -------------------------------------------------------

/// One direction of a connection.
struct Pipe {
    data: VecDeque<u8>,
    closed: bool,
    /// Every byte that ever went in.
    log: Vec<u8>,
}

impl Pipe {
    fn new() -> Pipe {
        Pipe { data: VecDeque::new(), closed: false, log: Vec::new() }
    }
}

/// How a transport cuts its transfers up.
struct Throttle {
    /// The most bytes in one transfer.
    chunk: usize,
    /// Whether every transfer is followed by one refusal.
    stutter: bool,
    refuse_next: bool,
    refusals: usize,
}

impl Throttle {
    fn none() -> Throttle {
        Throttle { chunk: usize::max_value(), stutter: false, refuse_next: false, refusals: 0 }
    }

    fn byte_by_byte() -> Throttle {
        Throttle { chunk: 1, stutter: true, refuse_next: true, refusals: 0 }
    }

    fn refuses(&mut self) -> bool {
        if self.stutter && self.refuse_next {
            self.refuse_next = false;
            self.refusals += 1;
            return true;
        }
        self.refuse_next = true;
        false
    }
}

/// One end of a connection: the session and how its transport behaves.
struct End {
    session: ToySession,
    throttle: Throttle,
}

impl End {
    fn new(init: &SessionInit) -> End {
        End { session: ToySession::new(init), throttle: Throttle::none() }
    }

    fn perform(&mut self, action: Action, rx: &mut Pipe, tx: &mut Pipe) -> Event {
        match action {
            Action::Read { max } => {
                if rx.data.is_empty() {
                    return if rx.closed { Event::Read(Vec::new()) } else { Event::WouldBlock };
                }
                if self.throttle.refuses() {
                    return Event::WouldBlock;
                }
                let n = max.min(self.throttle.chunk).min(rx.data.len());
                Event::Read(rx.data.drain(..n).collect())
            }
            Action::Write { bytes } => {
                if tx.closed {
                    return Event::Written(0);
                }
                if self.throttle.refuses() {
                    return Event::WouldBlock;
                }
                let n = bytes.len().min(self.throttle.chunk);
                tx.data.extend(&bytes[..n]);
                tx.log.extend_from_slice(&bytes[..n]);
                Event::Written(n)
            }
            Action::Send { mut buffer } => {
                let output = self.session.send_message(&mut buffer).ok().map(|_| buffer);
                Event::Crypto(SessionReply { output, status: self.session.status() })
            }
            Action::Receive { mut frame } => {
                let output = self.session.recv_message(&mut frame).ok().map(|_| frame);
                Event::Crypto(SessionReply { output, status: self.session.status() })
            }
            Action::Shutdown => {
                tx.closed = true;
                Event::Closed
            }
        }
    }

    /// One call of read, as a caller with a buffer of `want` bytes sees it.
    fn read(
        &mut self,
        io: &mut NoiseOutput,
        want: usize,
        rx: &mut Pipe,
        tx: &mut Pipe,
    ) -> Result<Vec<u8>, Option<IoErrorKind>> {
        let mut event = Event::Enter;
        loop {
            match io.read(want, event) {
                Step::Do(action) => event = self.perform(action, rx, tx),
                Step::Pending => return Err(None),
                Step::Ready(bytes) => return Ok(bytes),
                Step::Failed(kind) => return Err(Some(kind)),
            }
        }
    }

    /// One call of write.
    fn write(
        &mut self,
        io: &mut NoiseOutput,
        buf: &[u8],
        rx: &mut Pipe,
        tx: &mut Pipe,
    ) -> Result<usize, Option<IoErrorKind>> {
        let mut event = Event::Enter;
        loop {
            match io.write(buf, event) {
                Step::Do(action) => event = self.perform(action, rx, tx),
                Step::Pending => return Err(None),
                Step::Ready(n) => return Ok(n),
                Step::Failed(kind) => return Err(Some(kind)),
            }
        }
    }

    /// One call of flush.
    fn flush(
        &mut self,
        io: &mut NoiseOutput,
        rx: &mut Pipe,
        tx: &mut Pipe,
    ) -> Result<(), Option<IoErrorKind>> {
        let mut event = Event::Enter;
        loop {
            match io.flush(event) {
                Step::Do(action) => event = self.perform(action, rx, tx),
                Step::Pending => return Err(None),
                Step::Ready(()) => return Ok(()),
                Step::Failed(kind) => return Err(Some(kind)),
            }
        }
    }

    /// One call of shutdown.
    fn shutdown(
        &mut self,
        io: &mut NoiseOutput,
        rx: &mut Pipe,
        tx: &mut Pipe,
    ) -> Result<(), Option<IoErrorKind>> {
        let mut event = Event::Enter;
        loop {
            match io.shutdown(event) {
                Step::Do(action) => event = self.perform(action, rx, tx),
                Step::Pending => return Err(None),
                Step::Ready(()) => return Ok(()),
                Step::Failed(kind) => return Err(Some(kind)),
            }
        }
    }

    /// Writes all of `data` and flushes, calling again whenever the
    /// transport would block.
    fn send_all(&mut self, io: &mut NoiseOutput, data: &[u8], rx: &mut Pipe, tx: &mut Pipe) {
        let mut at = 0;
        while at < data.len() {
            match self.write(io, &data[at..], rx, tx) {
                Ok(n) => {
                    assert!(n > 0);
                    at += n;
                }
                Err(None) => {}
                Err(Some(kind)) => panic!("write failed: {:?}", kind),
            }
        }
        loop {
            match self.flush(io, rx, tx) {
                Ok(()) => break,
                Err(None) => {}
                Err(Some(kind)) => panic!("flush failed: {:?}", kind),
            }
        }
    }

    /// Reads `n` bytes, asking for at most `want` at a time and calling
    /// again whenever the transport would block.
    fn receive(
        &mut self,
        io: &mut NoiseOutput,
        n: usize,
        want: usize,
        rx: &mut Pipe,
        tx: &mut Pipe,
    ) -> Vec<u8> {
        let mut got = Vec::new();
        while got.len() < n {
            match self.read(io, want.min(n - got.len()), rx, tx) {
                Ok(bytes) => {
                    assert!(!bytes.is_empty(), "the stream ended after {} bytes", got.len());
                    got.extend_from_slice(&bytes);
                }
                Err(None) => {}
                Err(Some(kind)) => panic!("read failed: {:?}", kind),
            }
        }
        got
    }
}

// ---- the handshake -------------------------------------------------------

trait Handshaking: Sized {
    fn poll_once(self, event: Event) -> Poll<Self>;
}

impl Handshaking for rt1::NoiseInboundFuture {
    fn poll_once(self, event: Event) -> Poll<Self> {
        self.poll(event)
    }
}

impl Handshaking for rt1::NoiseOutboundFuture {
    fn poll_once(self, event: Event) -> Poll<Self> {
        self.poll(event)
    }
}

impl Handshaking for rt15::NoiseInboundFuture {
    fn poll_once(self, event: Event) -> Poll<Self> {
        self.poll(event)
    }
}

impl Handshaking for rt15::NoiseOutboundFuture {
    fn poll_once(self, event: Event) -> Poll<Self> {
        self.poll(event)
    }
}

enum Side<F> {
    Going(F),
    Done([u8; 32], NoiseOutput),
    Failed(NoiseError),
}

/// One poll of a handshake, as a task runtime makes it: until the future is
/// not ready, ready, or has failed.
fn poll<F: Handshaking>(future: F, end: &mut End, rx: &mut Pipe, tx: &mut Pipe) -> Side<F> {
    let mut future = future;
    let mut event = Event::Enter;
    loop {
        match future.poll_once(event) {
            Poll::Do(f, action) => {
                event = end.perform(action, rx, tx);
                future = f;
            }
            Poll::NotReady(f) => return Side::Going(f),
            Poll::Ready(key, io) => return Side::Done(key, io),
            Poll::Failed(e) => return Side::Failed(e),
        }
    }
}

/// Polls both sides in turn until both are done.
fn run<A: Handshaking, B: Handshaking>(
    dialer: A,
    d: &mut End,
    listener: B,
    l: &mut End,
    to_listener: &mut Pipe,
    to_dialer: &mut Pipe,
) -> (Result<([u8; 32], NoiseOutput), NoiseError>, Result<([u8; 32], NoiseOutput), NoiseError>) {
    let mut dialer = Side::Going(dialer);
    let mut listener = Side::Going(listener);
    for _ in 0..100_000 {
        dialer = match dialer {
            Side::Going(f) => poll(f, d, to_dialer, to_listener),
            other => other,
        };
        listener = match listener {
            Side::Going(f) => poll(f, l, to_listener, to_dialer),
            other => other,
        };
        if !matches!(dialer, Side::Going(_)) && !matches!(listener, Side::Going(_)) {
            break;
        }
    }
    (outcome(dialer), outcome(listener))
}

fn outcome<F>(side: Side<F>) -> Result<([u8; 32], NoiseOutput), NoiseError> {
    match side {
        Side::Going(_) => panic!("the handshake did not come to an end"),
        Side::Done(key, io) => Ok((key, io)),
        Side::Failed(e) => Err(e),
    }
}

fn keys(seed: u8) -> Keypair {
    let mut private = [0u8; 32];
    let mut public = [0u8; 32];
    for i in 0..32 {
        private[i] = seed.wrapping_mul(7).wrapping_add(i as u8);
        public[i] = seed.wrapping_mul(13).wrapping_add(3 * i as u8);
    }
    Keypair::new(private, PublicKey::from_bytes(public))
}

/// A connection after the handshake.
struct Link {
    dialer: End,
    dialer_io: NoiseOutput,
    dialer_sees: [u8; 32],
    listener: End,
    listener_io: NoiseOutput,
    listener_sees: [u8; 32],
    to_listener: Pipe,
    to_dialer: Pipe,
}

fn connect(pattern: Pattern, dialer_keys: Keypair, listener_keys: Keypair, throttle: fn() -> Throttle) -> Link {
    let mut to_listener = Pipe::new();
    let mut to_dialer = Pipe::new();
    let (d, l, results) = match pattern {
        Pattern::IK => {
            let out = IK::new_dialer(dialer_keys, listener_keys.public_key()).upgrade_outbound();
            let inb = IK::new_listener(listener_keys).upgrade_inbound();
            let (mut d, mut l) = (End::new(&out.init), End::new(&inb.init));
            d.throttle = throttle();
            l.throttle = throttle();
            let r = run(out.future, &mut d, inb.future, &mut l, &mut to_listener, &mut to_dialer);
            (d, l, r)
        }
        Pattern::IX => {
            let out = IX::new(dialer_keys).upgrade_outbound();
            let inb = IX::new(listener_keys).upgrade_inbound();
            let (mut d, mut l) = (End::new(&out.init), End::new(&inb.init));
            d.throttle = throttle();
            l.throttle = throttle();
            let r = run(out.future, &mut d, inb.future, &mut l, &mut to_listener, &mut to_dialer);
            (d, l, r)
        }
        Pattern::XX => {
            let out = XX::new(dialer_keys).upgrade_outbound();
            let inb = XX::new(listener_keys).upgrade_inbound();
            let (mut d, mut l) = (End::new(&out.init), End::new(&inb.init));
            d.throttle = throttle();
            l.throttle = throttle();
            let r = run(out.future, &mut d, inb.future, &mut l, &mut to_listener, &mut to_dialer);
            (d, l, r)
        }
    };
    let (dialer_sees, dialer_io) = results.0.expect("the dialer's handshake failed");
    let (listener_sees, listener_io) = results.1.expect("the listener's handshake failed");
    Link {
        dialer: d,
        dialer_io,
        dialer_sees,
        listener: l,
        listener_io,
        listener_sees,
        to_listener,
        to_dialer,
    }
}

fn connect_plain(pattern: Pattern) -> Link {
    connect(pattern, keys(1), keys(2), Throttle::none)
}

/// The frames in a log of a pipe: each a length of two bytes and a body.
fn frames(log: &[u8]) -> Vec<Vec<u8>> {
    let mut out = Vec::new();
    let mut at = 0;
    while at < log.len() {
        let len = usize::from(log[at]) * 256 + usize::from(log[at + 1]);
        out.push(log[at + 2..at + 2 + len].to_vec());
        at += 2 + len;
    }
    out
}

fn incrementing(n: usize) -> Vec<u8> {
    (0..n).map(|i| (i % 256) as u8).collect()
}

// ---- every pattern, both roles -------------------------------------------

#[test]
fn handshake_ik_exchanges_the_static_keys() {
    let link = connect_plain(Pattern::IK);
    assert_eq!(link.dialer_sees, keys(2).public_key().as_bytes());
    assert_eq!(link.listener_sees, keys(1).public_key().as_bytes());
    // One round trip: one frame each way, of the lengths of the pattern.
    let sent: Vec<usize> = frames(&link.to_listener.log).iter().map(|f| f.len()).collect();
    let back: Vec<usize> = frames(&link.to_dialer.log).iter().map(|f| f.len()).collect();
    assert_eq!(sent, vec![96]);
    assert_eq!(back, vec![48]);
}

#[test]
fn handshake_ix_exchanges_the_static_keys() {
    let link = connect_plain(Pattern::IX);
    assert_eq!(link.dialer_sees, keys(2).public_key().as_bytes());
    assert_eq!(link.listener_sees, keys(1).public_key().as_bytes());
    let sent: Vec<usize> = frames(&link.to_listener.log).iter().map(|f| f.len()).collect();
    let back: Vec<usize> = frames(&link.to_dialer.log).iter().map(|f| f.len()).collect();
    assert_eq!(sent, vec![64]);
    assert_eq!(back, vec![96]);
}

#[test]
fn handshake_xx_exchanges_the_static_keys() {
    let link = connect_plain(Pattern::XX);
    assert_eq!(link.dialer_sees, keys(2).public_key().as_bytes());
    assert_eq!(link.listener_sees, keys(1).public_key().as_bytes());
    // One and a half round trips: the dialer sends twice.
    let sent: Vec<usize> = frames(&link.to_listener.log).iter().map(|f| f.len()).collect();
    let back: Vec<usize> = frames(&link.to_dialer.log).iter().map(|f| f.len()).collect();
    assert_eq!(sent, vec![32, 64]);
    assert_eq!(back, vec![96]);
}

#[test]
fn handshake_leaves_both_channels_at_rest() {
    for pattern in [Pattern::IK, Pattern::IX, Pattern::XX] {
        let link = connect_plain(pattern);
        assert_eq!(link.dialer_io.write_state(), WriteState::Init);
        assert_eq!(link.listener_io.write_state(), WriteState::Init);
        assert!(link.dialer_io.session().status().transport);
        assert!(link.listener_io.session().status().transport);
        assert!(link.to_dialer.data.is_empty());
        assert!(link.to_listener.data.is_empty());
    }
}

#[test]
fn xx_echo() {
    let mut k = connect_plain(Pattern::XX);
    k.dialer.send_all(&mut k.dialer_io, b"hello", &mut k.to_dialer, &mut k.to_listener);
    let got = k.listener.receive(&mut k.listener_io, 5, 64, &mut k.to_listener, &mut k.to_dialer);
    assert_eq!(got, b"hello");
    k.listener.send_all(&mut k.listener_io, b"world", &mut k.to_listener, &mut k.to_dialer);
    let got = k.dialer.receive(&mut k.dialer_io, 5, 64, &mut k.to_dialer, &mut k.to_listener);
    assert_eq!(got, b"world");
    assert_eq!(k.dialer_sees.len(), 32);
    assert_eq!(k.dialer_sees, keys(2).public_key().as_bytes());
    assert_eq!(k.listener_sees, keys(1).public_key().as_bytes());
}

#[test]
fn ik_with_a_known_key() {
    let mut k = connect_plain(Pattern::IK);
    // One round trip.
    assert_eq!(frames(&k.to_listener.log).len(), 1);
    assert_eq!(frames(&k.to_dialer.log).len(), 1);
    let data = [0x00, 0xFF, 0x10];
    k.dialer.send_all(&mut k.dialer_io, &data, &mut k.to_dialer, &mut k.to_listener);
    let got = k.listener.receive(&mut k.listener_io, 3, 64, &mut k.to_listener, &mut k.to_dialer);
    assert_eq!(got, data);
    k.listener.send_all(&mut k.listener_io, &data, &mut k.to_listener, &mut k.to_dialer);
    let got = k.dialer.receive(&mut k.dialer_io, 3, 64, &mut k.to_dialer, &mut k.to_listener);
    assert_eq!(got, data);
}

#[test]
fn ix_learns_both_keys() {
    let link = connect(Pattern::IX, keys(40), keys(41), Throttle::none);
    assert_eq!(link.dialer_sees, keys(41).public_key().as_bytes());
    assert_eq!(link.listener_sees, keys(40).public_key().as_bytes());
    assert_eq!(link.dialer_io.session().get_remote_static(), Ok(link.dialer_sees));
    assert_eq!(link.listener_io.session().get_remote_static(), Ok(link.listener_sees));
}

#[test]
fn large_payload() {
    let mut k = connect_plain(Pattern::XX);
    let before = k.to_listener.log.len();
    let data = incrementing(50_000);
    k.dialer.send_all(&mut k.dialer_io, &data, &mut k.to_dialer, &mut k.to_listener);
    let got =
        k.listener.receive(&mut k.listener_io, 50_000, 4096, &mut k.to_listener, &mut k.to_dialer);
    assert_eq!(got, data);
    let sizes: Vec<usize> =
        frames(&k.to_listener.log[before..]).iter().map(|f| f.len()).collect();
    assert!(sizes.len() >= 4);
    assert_eq!(sizes, vec![16400, 16400, 16400, 848 + 16]);
}

#[test]
fn tampered_frame() {
    let mut k = connect_plain(Pattern::XX);
    k.dialer.send_all(&mut k.dialer_io, b"hello", &mut k.to_dialer, &mut k.to_listener);
    k.dialer.send_all(&mut k.dialer_io, b"again", &mut k.to_dialer, &mut k.to_listener);
    // Flip one bit in the body of the first frame.
    k.to_listener.data[4] ^= 0x08;
    let first = k.listener.read(&mut k.listener_io, 64, &mut k.to_listener, &mut k.to_dialer);
    assert_eq!(first, Err(Some(IoErrorKind::InvalidData)));
    assert_eq!(k.listener_io.read_state(), ReadState::DecErr);
    let left = k.to_listener.data.len();
    assert_eq!(left, 2 + 5 + 16);
    let second = k.listener.read(&mut k.listener_io, 64, &mut k.to_listener, &mut k.to_dialer);
    assert_eq!(second, Err(Some(IoErrorKind::InvalidData)));
    let third = k.listener.read(&mut k.listener_io, 0, &mut k.to_listener, &mut k.to_dialer);
    assert_eq!(third, Err(Some(IoErrorKind::InvalidData)));
    // Nothing more was taken from the transport.
    assert_eq!(k.to_listener.data.len(), left);
}

#[test]
fn tampered_tag() {
    let mut k = connect_plain(Pattern::IK);
    k.dialer.send_all(&mut k.dialer_io, b"hello", &mut k.to_dialer, &mut k.to_listener);
    let last = k.to_listener.data.len() - 1;
    k.to_listener.data[last] ^= 0x80;
    let first = k.listener.read(&mut k.listener_io, 64, &mut k.to_listener, &mut k.to_dialer);
    assert_eq!(first, Err(Some(IoErrorKind::InvalidData)));
    let second = k.listener.read(&mut k.listener_io, 64, &mut k.to_listener, &mut k.to_dialer);
    assert_eq!(second, Err(Some(IoErrorKind::InvalidData)));
}

#[test]
fn half_open() {
    let mut k = connect_plain(Pattern::XX);
    assert_eq!(k.dialer.shutdown(&mut k.dialer_io, &mut k.to_dialer, &mut k.to_listener), Ok(()));
    let got = k.listener.read(&mut k.listener_io, 64, &mut k.to_listener, &mut k.to_dialer);
    assert_eq!(got, Ok(Vec::new()));
    assert_eq!(k.listener_io.read_state(), ReadState::Eof(Eof::Clean));
    // The other direction still works.
    k.listener.send_all(&mut k.listener_io, b"last words", &mut k.to_listener, &mut k.to_dialer);
    let got = k.dialer.receive(&mut k.dialer_io, 10, 64, &mut k.to_dialer, &mut k.to_listener);
    assert_eq!(got, b"last words");
    // And the end stays an end.
    let got = k.listener.read(&mut k.listener_io, 64, &mut k.to_listener, &mut k.to_dialer);
    assert_eq!(got, Ok(Vec::new()));
}

// ---- what holds of every stream -------------------------------------------

#[test]
fn stream_is_transparent() {
    for n in [0usize, 1, 2, 255, 16_383, 16_384, 16_385, 32_768, 40_000, 163_840] {
        let mut k = connect_plain(Pattern::IX);
        let data: Vec<u8> = (0..n).map(|i| (i * 31 % 251) as u8).collect();
        k.dialer.send_all(&mut k.dialer_io, &data, &mut k.to_dialer, &mut k.to_listener);
        let got =
            k.listener.receive(&mut k.listener_io, n, 1000, &mut k.to_listener, &mut k.to_dialer);
        assert_eq!(got, data);
        // Nothing is left over.
        assert!(k.to_listener.data.is_empty());
        let more = k.listener.read(&mut k.listener_io, 10, &mut k.to_listener, &mut k.to_dialer);
        assert_eq!(more, Err(None));
    }
}

#[test]
fn stream_in_both_directions_at_once() {
    let mut k = connect_plain(Pattern::XX);
    let there = incrementing(20_000);
    let back: Vec<u8> = incrementing(30_000).iter().map(|b| b ^ 0xFF).collect();
    k.dialer.send_all(&mut k.dialer_io, &there, &mut k.to_dialer, &mut k.to_listener);
    k.listener.send_all(&mut k.listener_io, &back, &mut k.to_listener, &mut k.to_dialer);
    let got = k.dialer.receive(&mut k.dialer_io, 30_000, 777, &mut k.to_dialer, &mut k.to_listener);
    assert_eq!(got, back);
    let got =
        k.listener.receive(&mut k.listener_io, 20_000, 7, &mut k.to_listener, &mut k.to_dialer);
    assert_eq!(got, there);
}

#[test]
fn partial_io_is_taken_up_again() {
    for pattern in [Pattern::IK, Pattern::IX, Pattern::XX] {
        let mut k = connect(pattern, keys(5), keys(6), Throttle::byte_by_byte);
        assert_eq!(k.dialer_sees, keys(6).public_key().as_bytes());
        assert_eq!(k.listener_sees, keys(5).public_key().as_bytes());
        assert!(k.dialer.throttle.refusals > 32);
        assert!(k.listener.throttle.refusals > 32);
        let data = incrementing(1000);
        k.dialer.send_all(&mut k.dialer_io, &data, &mut k.to_dialer, &mut k.to_listener);
        assert_eq!(k.to_listener.data.len(), 2 + 1000 + 16);
        let got =
            k.listener.receive(&mut k.listener_io, 1000, 33, &mut k.to_listener, &mut k.to_dialer);
        assert_eq!(got, data);
        k.listener.send_all(&mut k.listener_io, b"pong", &mut k.to_listener, &mut k.to_dialer);
        let got = k.dialer.receive(&mut k.dialer_io, 4, 1, &mut k.to_dialer, &mut k.to_listener);
        assert_eq!(got, b"pong");
    }
}

#[test]
fn pieces_make_the_same_wire_as_one_piece() {
    let mut whole = connect_plain(Pattern::XX);
    let mut pieces = connect(Pattern::XX, keys(1), keys(2), Throttle::byte_by_byte);
    assert_eq!(whole.to_listener.log, pieces.to_listener.log);
    assert_eq!(whole.to_dialer.log, pieces.to_dialer.log);
    let data = incrementing(20_000);
    whole.dialer.send_all(&mut whole.dialer_io, &data, &mut whole.to_dialer, &mut whole.to_listener);
    pieces.dialer.send_all(
        &mut pieces.dialer_io,
        &data,
        &mut pieces.to_dialer,
        &mut pieces.to_listener,
    );
    assert_eq!(whole.to_listener.log, pieces.to_listener.log);
}

#[test]
fn frames_stay_within_bounds() {
    let mut k = connect_plain(Pattern::XX);
    let before = k.to_listener.log.len();
    let data = incrementing(100_000);
    let mut at = 0;
    // Writes of odd sizes, never flushed before the end.
    while at < data.len() {
        let n = (at % 9000 + 1).min(data.len() - at);
        at += k
            .dialer
            .write(&mut k.dialer_io, &data[at..at + n], &mut k.to_dialer, &mut k.to_listener)
            .unwrap();
    }
    assert_eq!(k.dialer.flush(&mut k.dialer_io, &mut k.to_dialer, &mut k.to_listener), Ok(()));
    let on_wire = frames(&k.to_listener.log[before..]);
    let mut total = 0;
    for frame in on_wire.iter() {
        assert!(frame.len() <= 65_535);
        assert!(frame.len() - 16 <= 16_384);
        total += frame.len() - 16;
    }
    assert_eq!(total, 100_000);
    assert_eq!(on_wire.len(), 7);
    let got =
        k.listener.receive(&mut k.listener_io, 100_000, 5000, &mut k.to_listener, &mut k.to_dialer);
    assert_eq!(got, data);
}

#[test]
fn closed_after_the_length() {
    let mut k = connect_plain(Pattern::IX);
    k.dialer.send_all(&mut k.dialer_io, b"hello", &mut k.to_dialer, &mut k.to_listener);
    // Only the length and part of the body arrive.
    k.to_listener.data.truncate(2);
    let got = k.listener.read(&mut k.listener_io, 64, &mut k.to_listener, &mut k.to_dialer);
    assert_eq!(got, Err(None));
    k.to_listener.closed = true;
    let got = k.listener.read(&mut k.listener_io, 64, &mut k.to_listener, &mut k.to_dialer);
    assert_eq!(got, Err(Some(IoErrorKind::UnexpectedEof)));
    let got = k.listener.read(&mut k.listener_io, 64, &mut k.to_listener, &mut k.to_dialer);
    assert_eq!(got, Err(Some(IoErrorKind::UnexpectedEof)));
    assert_eq!(k.listener_io.read_state(), ReadState::Eof(Eof::Unexpected));
}

#[test]
fn closed_inside_the_body() {
    let mut k = connect_plain(Pattern::IX);
    k.dialer.send_all(&mut k.dialer_io, b"hello", &mut k.to_dialer, &mut k.to_listener);
    k.to_listener.data.truncate(9);
    k.to_listener.closed = true;
    let got = k.listener.read(&mut k.listener_io, 64, &mut k.to_listener, &mut k.to_dialer);
    assert_eq!(got, Err(Some(IoErrorKind::UnexpectedEof)));
}

#[test]
fn closed_between_frames() {
    let mut k = connect_plain(Pattern::IX);
    k.dialer.send_all(&mut k.dialer_io, b"hello", &mut k.to_dialer, &mut k.to_listener);
    k.to_listener.closed = true;
    let got = k.listener.receive(&mut k.listener_io, 5, 64, &mut k.to_listener, &mut k.to_dialer);
    assert_eq!(got, b"hello");
    let got = k.listener.read(&mut k.listener_io, 64, &mut k.to_listener, &mut k.to_dialer);
    assert_eq!(got, Ok(Vec::new()));
    let got = k.listener.read(&mut k.listener_io, 64, &mut k.to_listener, &mut k.to_dialer);
    assert_eq!(got, Ok(Vec::new()));
}

#[test]
fn flush_sends_exactly_what_was_written() {
    for n in [0usize, 1, 100, 16_383] {
        let mut k = connect_plain(Pattern::IK);
        let data = incrementing(n);
        let took = k.dialer.write(&mut k.dialer_io, &data, &mut k.to_dialer, &mut k.to_listener);
        assert_eq!(took, Ok(n));
        assert!(k.to_listener.data.is_empty());
        assert_eq!(k.dialer.flush(&mut k.dialer_io, &mut k.to_dialer, &mut k.to_listener), Ok(()));
        assert_eq!(k.dialer_io.write_state(), WriteState::Init);
        assert_eq!(k.to_listener.data.len(), 2 + n + 16);
        let mut got = Vec::new();
        loop {
            match k.listener.read(&mut k.listener_io, 5000, &mut k.to_listener, &mut k.to_dialer) {
                Ok(bytes) => got.extend_from_slice(&bytes),
                Err(None) => break,
                Err(Some(kind)) => panic!("read failed: {:?}", kind),
            }
            if got.len() >= n {
                break;
            }
        }
        assert_eq!(got, data);
        assert!(k.to_listener.data.is_empty());
    }
}

#[test]
fn write_to_a_closed_transport() {
    let mut k = connect_plain(Pattern::XX);
    k.to_listener.closed = true;
    let took = k.dialer.write(&mut k.dialer_io, b"hello", &mut k.to_dialer, &mut k.to_listener);
    assert_eq!(took, Ok(5));
    let flushed = k.dialer.flush(&mut k.dialer_io, &mut k.to_dialer, &mut k.to_listener);
    assert_eq!(flushed, Err(Some(IoErrorKind::WriteZero)));
    assert_eq!(k.dialer_io.write_state(), WriteState::Eof);
    let took = k.dialer.write(&mut k.dialer_io, b"hello", &mut k.to_dialer, &mut k.to_listener);
    assert_eq!(took, Err(Some(IoErrorKind::WriteZero)));
}

#[test]
fn shutdown_twice() {
    let mut k = connect_plain(Pattern::XX);
    k.to_listener.closed = true;
    let _ = k.dialer.write(&mut k.dialer_io, b"hello", &mut k.to_dialer, &mut k.to_listener);
    let _ = k.dialer.flush(&mut k.dialer_io, &mut k.to_dialer, &mut k.to_listener);
    assert_eq!(k.dialer_io.write_state(), WriteState::Eof);
    assert_eq!(k.dialer.shutdown(&mut k.dialer_io, &mut k.to_dialer, &mut k.to_listener), Ok(()));
    assert_eq!(k.dialer.shutdown(&mut k.dialer_io, &mut k.to_dialer, &mut k.to_listener), Ok(()));
    assert_eq!(k.dialer_io.write_state(), WriteState::Eof);
}

// ---- the driver on its own -------------------------------------------------

#[test]
fn inbound_waits_for_the_first_message() {
    let upgrade = IX::new(keys(1)).upgrade_inbound();
    let future = match upgrade.future.poll(Event::Enter) {
        Poll::Do(f, Action::Read { max: 2 }) => f,
        _ => panic!("the listener should read first"),
    };
    let future = match future.poll(Event::WouldBlock) {
        Poll::NotReady(f) => f,
        _ => panic!("the listener should wait"),
    };
    assert!(matches!(future.poll(Event::Enter), Poll::Do(_, Action::Read { max: 2 })));
}

#[test]
fn outbound_sends_the_first_message() {
    let upgrade = XX::new(keys(1)).upgrade_outbound();
    let future = match upgrade.future.poll(Event::Enter) {
        Poll::Do(f, Action::Send { buffer }) => {
            assert_eq!(buffer, vec![0u8; 32]);
            f
        }
        _ => panic!("the dialer should send first"),
    };
    let status = SessionStatus { message_count: 1, transport: false, remote_static: None };
    let reply = SessionReply { output: Some(vec![9u8; 32]), status };
    let future = match future.poll(Event::Crypto(reply)) {
        Poll::Do(f, Action::Write { bytes }) => {
            assert_eq!(bytes, vec![0, 32]);
            f
        }
        _ => panic!("the dialer should write the length"),
    };
    let future = match future.poll(Event::Written(2)) {
        Poll::Do(f, Action::Write { bytes }) => {
            assert_eq!(bytes, vec![9u8; 32]);
            f
        }
        _ => panic!("the dialer should write the message"),
    };
    // With the message out, the dialer turns to reading.
    assert!(matches!(future.poll(Event::Written(32)), Poll::Do(_, Action::Read { max: 2 })));
}

#[test]
fn ik_dialer_lays_out_the_first_message() {
    let upgrade = IK::new_dialer(keys(1), keys(2).public_key()).upgrade_outbound();
    match upgrade.future.poll(Event::Enter) {
        Poll::Do(_, Action::Send { buffer }) => assert_eq!(buffer, vec![0u8; 96]),
        _ => panic!("the dialer should send first"),
    }
}

#[test]
fn handshake_without_a_remote_key_fails() {
    let out = XX::new(keys(1)).upgrade_outbound();
    let inb = XX::new(keys(2)).upgrade_inbound();
    let (mut d, mut l) = (End::new(&out.init), End::new(&inb.init));
    d.session.tells_remote = false;
    let (mut to_listener, mut to_dialer) = (Pipe::new(), Pipe::new());
    let (dialer, listener) =
        run(out.future, &mut d, inb.future, &mut l, &mut to_listener, &mut to_dialer);
    assert_eq!(dialer.err(), Some(NoiseError::InvalidKey));
    assert_eq!(listener.map(|r| r.0), Ok(keys(1).public_key().as_bytes()));
}

#[test]
fn handshake_fails_with_the_transport() {
    let upgrade = IX::new(keys(1)).upgrade_inbound();
    let future = match upgrade.future.poll(Event::Enter) {
        Poll::Do(f, Action::Read { max: 2 }) => f,
        _ => panic!("the listener should read first"),
    };
    match future.poll(Event::Failed(IoErrorKind::Other)) {
        Poll::Failed(e) => assert_eq!(e, NoiseError::Io(IoErrorKind::Other)),
        _ => panic!("the handshake should fail"),
    }
}

#[test]
fn handshake_fails_on_a_forged_message() {
    let out = IK::new_dialer(keys(1), keys(2).public_key()).upgrade_outbound();
    let inb = IK::new_listener(keys(2)).upgrade_inbound();
    let (mut d, mut l) = (End::new(&out.init), End::new(&inb.init));
    let (mut to_listener, mut to_dialer) = (Pipe::new(), Pipe::new());
    let dialer = match poll(out.future, &mut d, &mut to_dialer, &mut to_listener) {
        Side::Going(f) => f,
        _ => panic!("the dialer should wait for the answer"),
    };
    to_listener.data[50] ^= 1;
    match poll(inb.future, &mut l, &mut to_listener, &mut to_dialer) {
        Side::Failed(e) => assert_eq!(e, NoiseError::Io(IoErrorKind::InvalidData)),
        _ => panic!("the listener should reject the message"),
    }
    // The dialer never gets an answer.
    assert!(to_dialer.data.is_empty());
    assert!(matches!(poll(dialer, &mut d, &mut to_dialer, &mut to_listener), Side::Going(_)));
}

#[test]
fn dialer_with_a_known_key_takes_the_end_for_a_message() {
    // A receive is a read of no bytes, and so is the clean end of a stream.
    // The dialer of IK has the key of the remote from the start: nothing
    // tells it that the answer never came, but the session, which is still
    // in its handshake.
    let out = IK::new_dialer(keys(1), keys(2).public_key()).upgrade_outbound();
    let mut d = End::new(&out.init);
    let (mut to_listener, mut to_dialer) = (Pipe::new(), Pipe::new());
    to_dialer.closed = true;
    match poll(out.future, &mut d, &mut to_dialer, &mut to_listener) {
        Side::Done(key, io) => {
            assert_eq!(key, keys(2).public_key().as_bytes());
            assert!(!io.session().status().transport);
            assert_eq!(io.read_state(), ReadState::Eof(Eof::Clean));
        }
        _ => panic!("the handshake should have come to its end"),
    }
}

#[test]
fn handshake_ends_with_the_stream() {
    let inb = XX::new(keys(2)).upgrade_inbound();
    let mut l = End::new(&inb.init);
    let (mut to_listener, mut to_dialer) = (Pipe::new(), Pipe::new());
    to_listener.closed = true;
    // A stream that ends before the first message reads as no message:
    // the listener goes on, and fails when it has no key at the end.
    match poll(inb.future, &mut l, &mut to_listener, &mut to_dialer) {
        Side::Going(_) => panic!("the transport is closed"),
        Side::Done(..) => panic!("the handshake cannot be complete"),
        Side::Failed(e) => assert_eq!(e, NoiseError::InvalidKey),
    }
}

// ---- the configurations ------------------------------------------------------

#[test]
fn protocol_names() {
    assert_eq!(IK::new_listener(keys(1)).protocol_info(), "/noise/ik/25519/chachapoly/blake2s/0.1.0");
    assert_eq!(IX::new(keys(1)).protocol_info(), "/noise/ix/25519/chachapoly/blake2s/0.1.0");
    assert_eq!(XX::new(keys(1)).protocol_info(), "/noise/xx/25519/chachapoly/blake2s/0.1.0");
    assert_eq!(
        libp2p_noise::upgrade::protocol_name(Pattern::XX),
        "/noise/xx/25519/chachapoly/blake2s/0.1.0"
    );
    assert_eq!(libp2p_noise::upgrade::prologue(Pattern::IK), "Noise_IK_25519_ChaChaPoly_Blake2s");
    assert_eq!(libp2p_noise::upgrade::prologue(Pattern::IX), "Noise_IX_25519_ChaChaPoly_Blake2s");
    assert_eq!(libp2p_noise::upgrade::prologue(Pattern::XX), "Noise_XX_25519_ChaChaPoly_Blake2s");
}

#[test]
fn session_set_up_of_ix() {
    let inbound = IX::new(keys(3)).upgrade_inbound().init;
    assert_eq!(inbound.pattern, Pattern::IX);
    assert!(!inbound.initiator);
    assert_eq!(inbound.prologue, "Noise_IX_25519_ChaChaPoly_Blake2s");
    assert_eq!(inbound.keypair, keys(3));
    assert_eq!(inbound.remote, None);
    let outbound = IX::new(keys(3)).upgrade_outbound().init;
    assert!(outbound.initiator);
    assert_eq!(outbound.prologue, "Noise_IX_25519_ChaChaPoly_Blake2s");
    assert_eq!(outbound.keypair, keys(3));
    assert_eq!(outbound.remote, None);
}

#[test]
fn session_set_up_of_xx() {
    let inbound = XX::new(keys(3)).upgrade_inbound().init;
    assert_eq!(inbound.pattern, Pattern::XX);
    assert!(!inbound.initiator);
    assert_eq!(inbound.prologue, "Noise_XX_25519_ChaChaPoly_Blake2s");
    assert_eq!(inbound.remote, None);
    let outbound = XX::new(keys(3)).upgrade_outbound().init;
    assert!(outbound.initiator);
    assert_eq!(outbound.prologue, "Noise_XX_25519_ChaChaPoly_Blake2s");
    assert_eq!(outbound.keypair, keys(3));
}

#[test]
fn session_set_up_of_ik() {
    let remote = keys(9).public_key();
    let outbound = IK::new_dialer(keys(3), remote).upgrade_outbound().init;
    assert_eq!(outbound.pattern, Pattern::IK);
    assert!(outbound.initiator);
    assert_eq!(outbound.prologue, "Noise_IK_25519_ChaChaPoly_Blake2s");
    assert_eq!(outbound.keypair, keys(3));
    assert_eq!(outbound.remote, Some(remote));
    let inbound = IK::new_listener(keys(3)).upgrade_inbound().init;
    assert!(!inbound.initiator);
    assert_eq!(inbound.prologue, "Noise_IK_25519_ChaChaPoly_Blake2s");
    assert_eq!(inbound.remote, None);
    // A listener made with a remote key does not use it.
    let inbound = IK::new_dialer(keys(3), remote).upgrade_inbound().init;
    assert_eq!(inbound.remote, None);
    // A dialer made as a listener has the empty key for its remote.
    let outbound = IK::new_listener(keys(3)).upgrade_outbound().init;
    assert_eq!(outbound.remote, Some(PublicKey::empty()));
}

#[test]
fn keys_hold_their_bytes() {
    assert_eq!(PublicKey::empty().as_bytes(), [0u8; 32]);
    assert_eq!(PublicKey::from_bytes([3; 32]).as_bytes(), [3; 32]);
    let pair = Keypair::new([1; 32], PublicKey::from_bytes([2; 32]));
    assert_eq!(pair.private_key(), [1; 32]);
    assert_eq!(pair.public_key(), PublicKey::from_bytes([2; 32]));
}
