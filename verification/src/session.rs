//! The session adapter: one interface over the three handshake patterns.
//!
//! A Noise session works in place on a buffer whose shape depends on the
//! pattern and on how far the handshake has come: handshake material in
//! front of the payload, an authentication tag behind it. This module
//! keeps what a session reports of itself and does the offset arithmetic,
//! so that the framing code never needs to know which message is in flight.

use crate::bytes::{copy_range, push_range, push_zeros, zeros};
use crate::error::NoiseError;
use crate::frame::SessionReply;
use vstd::prelude::*;

verus! {

/// The length in bytes of an authentication tag.
pub const TAG_LEN: usize = 16;

/// The longest prefix of handshake material in front of a payload.
pub const MAX_PREFIX_LEN: usize = 80;

/// A handshake pattern.
#[derive(PartialEq, Eq, Structural, Clone, Copy, Debug)]
pub enum Pattern {
    /// The initiator knows the responder's static key in advance.
    IK,
    /// Both static keys are sent in the clear and then mixed in.
    IX,
    /// Both static keys are sent under the encryption that exists by then.
    XX,
}

/// What a session reports of itself.
#[derive(PartialEq, Eq, Clone, Copy, Debug)]
pub struct SessionStatus {
    /// The number of messages the session has processed.
    pub message_count: u64,
    /// Whether the handshake is over.
    pub transport: bool,
    /// The static public key of the remote, once it is known.
    pub remote_static: Option<[u8; 32]>,
}

/// The shape of the buffer that a session works on.
#[derive(PartialEq, Eq, Structural, Clone, Copy, Debug)]
pub struct Layout {
    /// The bytes of handshake material in front of the payload.
    pub prefix: usize,
    /// The bytes of the authentication tag behind the payload.
    pub tag: usize,
}

/// The shape of the next message of a session, by pattern, message count
/// and mode.
///
/// | Pattern | message 0 | message 1 | message 2 | transport |
/// |---------|-----------|-----------|-----------|-----------|
/// | IK      | 80        | 32        |           | 0         |
/// | IX      | 64        | 80        |           | 0         |
/// | XX      | 32        | 80        | 48        | 0         |
///
/// Every message ends in a tag of 16 bytes, but for the first message of
/// IX and of XX, whose payload travels in the clear.
pub open spec fn spec_layout(pattern: Pattern, message_count: u64, transport: bool) -> Layout {
    match pattern {
        Pattern::IK => if message_count > 1 && transport {
            Layout { prefix: 0, tag: 16 }
        } else if message_count == 0 {
            Layout { prefix: 80, tag: 16 }
        } else {
            Layout { prefix: 32, tag: 16 }
        },
        Pattern::IX => if message_count > 1 && transport {
            Layout { prefix: 0, tag: 16 }
        } else if message_count == 0 {
            Layout { prefix: 64, tag: 0 }
        } else {
            Layout { prefix: 80, tag: 16 }
        },
        Pattern::XX => if message_count > 2 && transport {
            Layout { prefix: 0, tag: 16 }
        } else if message_count == 0 {
            Layout { prefix: 32, tag: 0 }
        } else if message_count == 1 {
            Layout { prefix: 80, tag: 16 }
        } else {
            Layout { prefix: 48, tag: 16 }
        },
    }
}

/// The buffer that a session's send works on: room for the handshake
/// material, the payload, room for the tag.
pub open spec fn spec_pad(layout: Layout, plaintext: Seq<u8>) -> Seq<u8> {
    zeros(layout.prefix as nat) + plaintext + zeros(layout.tag as nat)
}

/// The payload of a buffer that a session's receive has worked on, if the
/// buffer is long enough to hold the handshake material and the tag.
pub open spec fn spec_strip(layout: Layout, buffer: Seq<u8>) -> Option<Seq<u8>> {
    if layout.prefix + layout.tag <= buffer.len() {
        Some(buffer.subrange(layout.prefix as int, buffer.len() - layout.tag))
    } else {
        None
    }
}

/// What an inbound message holds, given what the session's receive made of
/// it: the payload of the buffer, or nothing where the receive failed or the
/// buffer is too short for its shape.
pub open spec fn spec_opened(layout: Layout, output: Option<Seq<u8>>) -> Option<Seq<u8>> {
    match output {
        Some(buffer) => spec_strip(layout, buffer),
        None => None,
    }
}

/// The ciphertext of an outbound message, given what the session's send
/// made of the buffer laid out for `plain_len` bytes of payload: that
/// buffer, or nothing where the send failed. The send works in place: a
/// buffer of another length than the one laid out counts as a failure.
pub open spec fn spec_sealed(layout: Layout, plain_len: nat, output: Option<Seq<u8>>) -> Option<
    Seq<u8>,
> {
    match output {
        Some(ciphertext) => if ciphertext.len() == layout.prefix + plain_len + layout.tag {
            Some(ciphertext)
        } else {
            None
        },
        None => None,
    }
}

/// The shape of the next message of a session.
pub fn layout(pattern: Pattern, message_count: u64, transport: bool) -> (l: Layout)
    ensures
        l == spec_layout(pattern, message_count, transport),
        l.prefix <= MAX_PREFIX_LEN,
        l.tag <= TAG_LEN,
        l.prefix + l.tag >= TAG_LEN,
{
    match pattern {
        Pattern::IK => {
            if message_count > 1 && transport {
                Layout { prefix: 0, tag: 16 }
            } else if message_count == 0 {
                Layout { prefix: 80, tag: 16 }
            } else {
                Layout { prefix: 32, tag: 16 }
            }
        },
        Pattern::IX => {
            if message_count > 1 && transport {
                Layout { prefix: 0, tag: 16 }
            } else if message_count == 0 {
                Layout { prefix: 64, tag: 0 }
            } else {
                Layout { prefix: 80, tag: 16 }
            }
        },
        Pattern::XX => {
            if message_count > 2 && transport {
                Layout { prefix: 0, tag: 16 }
            } else if message_count == 0 {
                Layout { prefix: 32, tag: 0 }
            } else if message_count == 1 {
                Layout { prefix: 80, tag: 16 }
            } else {
                Layout { prefix: 48, tag: 16 }
            }
        },
    }
}

/// The library's side of a Noise session: the pattern it runs and what the
/// session last reported of itself.
///
/// The cryptographic state lives with the session primitive, outside this
/// library. Whoever drives the primitive reports back after every message
/// what the primitive made of the buffer and what it says of itself, see
/// [`NoiseSession::read_message`] and [`NoiseSession::sent_message`].
#[derive(PartialEq, Eq, Clone, Copy, Debug)]
pub enum NoiseSession {
    /// A session of the IK pattern.
    IK(SessionStatus),
    /// A session of the IX pattern.
    IX(SessionStatus),
    /// A session of the XX pattern.
    XX(SessionStatus),
}

impl NoiseSession {
    /// The pattern of the session.
    pub open spec fn spec_pattern(&self) -> Pattern {
        match *self {
            NoiseSession::IK(_) => Pattern::IK,
            NoiseSession::IX(_) => Pattern::IX,
            NoiseSession::XX(_) => Pattern::XX,
        }
    }

    /// What the session last reported of itself.
    pub open spec fn spec_status(&self) -> SessionStatus {
        match *self {
            NoiseSession::IK(s) => s,
            NoiseSession::IX(s) => s,
            NoiseSession::XX(s) => s,
        }
    }

    /// The shape of the next message.
    pub open spec fn spec_next_layout(&self) -> Layout {
        spec_layout(
            self.spec_pattern(),
            self.spec_status().message_count,
            self.spec_status().transport,
        )
    }

    /// The session of `pattern` whose status is `status`.
    pub open spec fn spec_new(pattern: Pattern, status: SessionStatus) -> NoiseSession {
        match pattern {
            Pattern::IK => NoiseSession::IK(status),
            Pattern::IX => NoiseSession::IX(status),
            Pattern::XX => NoiseSession::XX(status),
        }
    }

    /// A session of `pattern` that has processed no message yet;
    /// `remote_static` is the remote's static key where it is known in
    /// advance.
    pub fn new(pattern: Pattern, remote_static: Option<[u8; 32]>) -> (s: NoiseSession)
        ensures
            s == NoiseSession::spec_new(
                pattern,
                (SessionStatus { message_count: 0, transport: false, remote_static }),
            ),
    {
        let status = SessionStatus { message_count: 0, transport: false, remote_static };
        match pattern {
            Pattern::IK => NoiseSession::IK(status),
            Pattern::IX => NoiseSession::IX(status),
            Pattern::XX => NoiseSession::XX(status),
        }
    }

    /// The pattern of the session.
    #[verifier::when_used_as_spec(spec_pattern)]
    pub fn pattern(&self) -> (p: Pattern)
        ensures
            p == self.spec_pattern(),
    {
        match self {
            NoiseSession::IK(_) => Pattern::IK,
            NoiseSession::IX(_) => Pattern::IX,
            NoiseSession::XX(_) => Pattern::XX,
        }
    }

    /// What the session last reported of itself.
    #[verifier::when_used_as_spec(spec_status)]
    pub fn status(&self) -> (s: SessionStatus)
        ensures
            s == self.spec_status(),
    {
        match self {
            NoiseSession::IK(s) => *s,
            NoiseSession::IX(s) => *s,
            NoiseSession::XX(s) => *s,
        }
    }

    /// Records what the session reports of itself after a message.
    pub fn observe(&mut self, status: SessionStatus)
        ensures
            *final(self) == NoiseSession::spec_new(old(self).spec_pattern(), status),
    {
        let next = match self {
            NoiseSession::IK(_) => NoiseSession::IK(status),
            NoiseSession::IX(_) => NoiseSession::IX(status),
            NoiseSession::XX(_) => NoiseSession::XX(status),
        };
        *self = next;
    }

    /// The shape of the next message.
    #[verifier::when_used_as_spec(spec_next_layout)]
    pub fn next_layout(&self) -> (l: Layout)
        ensures
            l == self.spec_next_layout(),
            l.prefix <= MAX_PREFIX_LEN,
            l.tag <= TAG_LEN,
            l.prefix + l.tag >= TAG_LEN,
    {
        let status = self.status();
        layout(self.pattern(), status.message_count, status.transport)
    }

    /// Takes an inbound message from the session: given what the session's
    /// receive made of the frame, records what the session reports of itself
    /// and returns the payload, which lies between the handshake material
    /// and the tag.
    ///
    /// A failure of the session is a `CryptoError`, and so is a buffer too
    /// short to hold handshake material and tag, which cannot have come
    /// from a sound session.
    pub fn read_message(&mut self, reply: SessionReply) -> (r: Result<Vec<u8>, NoiseError>)
        ensures
            *final(self) == NoiseSession::spec_new(old(self).spec_pattern(), reply.status),
            match spec_opened(old(self).spec_next_layout(), reply@.output) {
                Some(payload) => r is Ok && r->Ok_0@ == payload,
                None => r == Err::<Vec<u8>, NoiseError>(NoiseError::CryptoError),
            },
    {
        let l = self.next_layout();
        self.observe(reply.status);
        match reply.output {
            Some(transport_buffer) => {
                let n = transport_buffer.len();
                if n < l.prefix + l.tag {
                    return Err(NoiseError::CryptoError);
                }
                Ok(copy_range(transport_buffer.as_slice(), l.prefix, n - l.tag))
            },
            None => Err(NoiseError::CryptoError),
        }
    }

    /// Lays out the buffer that the session's send works on: zero bytes
    /// where the handshake material goes, the payload, zero bytes where the
    /// tag goes.
    pub fn write_message(&self, plaintext: Vec<u8>) -> (buffer: Vec<u8>)
        ensures
            buffer@ == spec_pad(self.spec_next_layout(), plaintext@),
    {
        let l = self.next_layout();
        if l.prefix == 0 {
            let mut output = plaintext;
            push_zeros(&mut output, l.tag);
            assert(output@ =~= spec_pad(l, plaintext@));
            output
        } else {
            let mut output: Vec<u8> = Vec::new();
            push_zeros(&mut output, l.prefix);
            push_range(&mut output, plaintext.as_slice(), 0, plaintext.len());
            push_zeros(&mut output, l.tag);
            assert(plaintext@.subrange(0, plaintext@.len() as int) =~= plaintext@);
            assert(output@ =~= spec_pad(l, plaintext@));
            output
        }
    }

    /// Takes an outbound message from the session: given what the session's
    /// send made of the buffer laid out for `plain_len` bytes of payload,
    /// records what the session reports of itself and returns the
    /// ciphertext.
    ///
    /// A failure of the session is a `CryptoError`, and so is a buffer of
    /// another length than the one laid out.
    pub fn sent_message(&mut self, plain_len: usize, reply: SessionReply) -> (r: Result<
        Vec<u8>,
        NoiseError,
    >)
        ensures
            *final(self) == NoiseSession::spec_new(old(self).spec_pattern(), reply.status),
            match spec_sealed(old(self).spec_next_layout(), plain_len as nat, reply@.output) {
                Some(ciphertext) => r is Ok && r->Ok_0@ == ciphertext,
                None => r == Err::<Vec<u8>, NoiseError>(NoiseError::CryptoError),
            },
    {
        let l = self.next_layout();
        self.observe(reply.status);
        match reply.output {
            Some(ciphertext) => {
                let n = ciphertext.len();
                if n < l.prefix + l.tag || n - l.prefix - l.tag != plain_len {
                    return Err(NoiseError::CryptoError);
                }
                Ok(ciphertext)
            },
            None => Err(NoiseError::CryptoError),
        }
    }

    /// The static public key of the remote, or `InvalidKey` while the
    /// session has not learnt it.
    pub fn get_remote_static(&self) -> (r: Result<[u8; 32], NoiseError>)
        ensures
            r == match self.spec_status().remote_static {
                Some(key) => Ok::<[u8; 32], NoiseError>(key),
                None => Err::<[u8; 32], NoiseError>(NoiseError::InvalidKey),
            },
    {
        match self.status().remote_static {
            Some(public_key) => Ok(public_key),
            None => Err(NoiseError::InvalidKey),
        }
    }
}

} // verus!
