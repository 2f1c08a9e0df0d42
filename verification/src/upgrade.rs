//! The upgrade surface: one configuration for each handshake pattern.
//!
//! A configuration holds the local static keys. Given a role, it says how
//! the session primitive is to be set up and which handshake is to be run:
//! who owns the transport creates the primitive from the one and polls the
//! other.

use crate::driver::{Driven, DriverView};
use crate::rt1;
use crate::rt15;
use crate::session::{NoiseSession, Pattern, SessionStatus};
use vstd::prelude::*;

verus! {

/// A static public key: 32 bytes.
#[derive(PartialEq, Eq, Clone, Copy, Debug)]
pub struct PublicKey(pub [u8; 32]);

impl PublicKey {
    /// The key of all zeros, which stands for no key.
    pub fn empty() -> (k: PublicKey)
        ensures
            forall|i: int| 0 <= i < 32 ==> k.0[i] == 0u8,
    {
        PublicKey([0u8; 32])
    }

    /// The key that `k` holds.
    pub fn from_bytes(k: [u8; 32]) -> (key: PublicKey)
        ensures
            key.0 == k,
    {
        PublicKey(k)
    }

    /// The bytes of the key.
    pub fn as_bytes(&self) -> (k: [u8; 32])
        ensures
            k == self.0,
    {
        self.0
    }
}

/// A static keypair: a private key of 32 bytes and the public key that
/// belongs to it. It does not change once it is made.
#[derive(PartialEq, Eq, Clone, Copy, Debug)]
pub struct Keypair {
    private_key: [u8; 32],
    public_key: PublicKey,
}

impl Keypair {
    /// The private key.
    pub closed spec fn spec_private_key(&self) -> [u8; 32] {
        self.private_key
    }

    /// The public key.
    pub closed spec fn spec_public_key(&self) -> PublicKey {
        self.public_key
    }

    /// The pair of `private_key` and the public key derived from it.
    pub fn new(private_key: [u8; 32], public_key: PublicKey) -> (k: Keypair)
        ensures
            k.spec_private_key() == private_key,
            k.spec_public_key() == public_key,
    {
        Keypair { private_key, public_key }
    }

    /// The private key.
    #[verifier::when_used_as_spec(spec_private_key)]
    pub fn private_key(&self) -> (k: [u8; 32])
        ensures
            k == self.spec_private_key(),
    {
        self.private_key
    }

    /// The public key.
    #[verifier::when_used_as_spec(spec_public_key)]
    pub fn public_key(&self) -> (k: PublicKey)
        ensures
            k == self.spec_public_key(),
    {
        self.public_key
    }
}

/// The identifier under which a pattern is negotiated.
pub fn protocol_name(pattern: Pattern) -> (name: &'static str)
    ensures
        name@ == match pattern {
            Pattern::IK => "/noise/ik/25519/chachapoly/blake2s/0.1.0"@,
            Pattern::IX => "/noise/ix/25519/chachapoly/blake2s/0.1.0"@,
            Pattern::XX => "/noise/xx/25519/chachapoly/blake2s/0.1.0"@,
        },
{
    match pattern {
        Pattern::IK => "/noise/ik/25519/chachapoly/blake2s/0.1.0",
        Pattern::IX => "/noise/ix/25519/chachapoly/blake2s/0.1.0",
        Pattern::XX => "/noise/xx/25519/chachapoly/blake2s/0.1.0",
    }
}

/// The prologue that a session of a pattern is set up with.
pub fn prologue(pattern: Pattern) -> (name: &'static str)
    ensures
        name@ == match pattern {
            Pattern::IK => "Noise_IK_25519_ChaChaPoly_Blake2s"@,
            Pattern::IX => "Noise_IX_25519_ChaChaPoly_Blake2s"@,
            Pattern::XX => "Noise_XX_25519_ChaChaPoly_Blake2s"@,
        },
{
    match pattern {
        Pattern::IK => "Noise_IK_25519_ChaChaPoly_Blake2s",
        Pattern::IX => "Noise_IX_25519_ChaChaPoly_Blake2s",
        Pattern::XX => "Noise_XX_25519_ChaChaPoly_Blake2s",
    }
}

/// How the session primitive is to be set up.
#[derive(PartialEq, Eq, Clone, Copy, Debug)]
pub struct SessionInit {
    /// The pattern of the session.
    pub pattern: Pattern,
    /// Whether the session is the initiator's.
    pub initiator: bool,
    /// The prologue.
    pub prologue: &'static str,
    /// The local static keys.
    pub keypair: Keypair,
    /// The static public key of the remote, where it is known in advance.
    pub remote: Option<PublicKey>,
}

/// An upgrade that is about to start: how to set the session up, and the
/// handshake to run.
pub struct Upgrade<F> {
    /// How the session primitive is to be set up.
    pub init: SessionInit,
    /// The handshake.
    pub future: F,
}

/// The session of `pattern` before its first message; `remote` is the
/// remote's static key where it is known in advance.
pub open spec fn initial_session(pattern: Pattern, remote: Option<[u8; 32]>) -> NoiseSession {
    NoiseSession::spec_new(
        pattern,
        SessionStatus { message_count: 0, transport: false, remote_static: remote },
    )
}

// Handshake pattern IX /////////////////////////////////////////////////////

/// The configuration for the IX handshake pattern.
#[derive(Clone, Copy, Debug)]
pub struct IX(Keypair);

impl IX {
    /// The local static keys.
    pub closed spec fn keypair(&self) -> Keypair {
        self.0
    }

    /// Create a new configuration for the IX handshake pattern.
    pub fn new(k: Keypair) -> (c: IX)
        ensures
            c.keypair() == k,
    {
        IX(k)
    }

    /// The identifier under which the upgrade is negotiated.
    pub fn protocol_info(&self) -> (name: &'static str)
        ensures
            name@ == "/noise/ix/25519/chachapoly/blake2s/0.1.0"@,
    {
        protocol_name(Pattern::IX)
    }

    /// The upgrade of a connection that the remote opened: the responder's
    /// side, one round trip.
    pub fn upgrade_inbound(self) -> (u: Upgrade<rt1::NoiseInboundFuture>)
        ensures
            u.init.pattern == Pattern::IX,
            !u.init.initiator,
            u.init.prologue@ == "Noise_IX_25519_ChaChaPoly_Blake2s"@,
            u.init.keypair == self.keypair(),
            u.init.remote is None,
            u.future.wf(),
            u.future.driver() == DriverView::fresh(
                rt1::NoiseInboundFuture::ops(),
                initial_session(Pattern::IX, None),
            ),
    {
        let init = SessionInit {
            pattern: Pattern::IX,
            initiator: false,
            prologue: prologue(Pattern::IX),
            keypair: self.0,
            remote: None,
        };
        Upgrade { init, future: rt1::NoiseInboundFuture::new(NoiseSession::new(Pattern::IX, None)) }
    }

    /// The upgrade of a connection that this side opened: the initiator's
    /// side, one round trip.
    pub fn upgrade_outbound(self) -> (u: Upgrade<rt1::NoiseOutboundFuture>)
        ensures
            u.init.pattern == Pattern::IX,
            u.init.initiator,
            u.init.prologue@ == "Noise_IX_25519_ChaChaPoly_Blake2s"@,
            u.init.keypair == self.keypair(),
            u.init.remote is None,
            u.future.wf(),
            u.future.driver() == DriverView::fresh(
                rt1::NoiseOutboundFuture::ops(),
                initial_session(Pattern::IX, None),
            ),
    {
        let init = SessionInit {
            pattern: Pattern::IX,
            initiator: true,
            prologue: prologue(Pattern::IX),
            keypair: self.0,
            remote: None,
        };
        Upgrade { init, future: rt1::NoiseOutboundFuture::new(NoiseSession::new(Pattern::IX, None)) }
    }
}

// Handshake pattern XX /////////////////////////////////////////////////////

/// The configuration for the XX handshake pattern.
#[derive(Clone, Copy, Debug)]
pub struct XX(Keypair);

impl XX {
    /// The local static keys.
    pub closed spec fn keypair(&self) -> Keypair {
        self.0
    }

    /// Create a new configuration for the XX handshake pattern.
    pub fn new(k: Keypair) -> (c: XX)
        ensures
            c.keypair() == k,
    {
        XX(k)
    }

    /// The identifier under which the upgrade is negotiated.
    pub fn protocol_info(&self) -> (name: &'static str)
        ensures
            name@ == "/noise/xx/25519/chachapoly/blake2s/0.1.0"@,
    {
        protocol_name(Pattern::XX)
    }

    /// The upgrade of a connection that the remote opened: the responder's
    /// side, one and a half round trips.
    pub fn upgrade_inbound(self) -> (u: Upgrade<rt15::NoiseInboundFuture>)
        ensures
            u.init.pattern == Pattern::XX,
            !u.init.initiator,
            u.init.prologue@ == "Noise_XX_25519_ChaChaPoly_Blake2s"@,
            u.init.keypair == self.keypair(),
            u.init.remote is None,
            u.future.wf(),
            u.future.driver() == DriverView::fresh(
                rt15::NoiseInboundFuture::ops(),
                initial_session(Pattern::XX, None),
            ),
    {
        let init = SessionInit {
            pattern: Pattern::XX,
            initiator: false,
            prologue: prologue(Pattern::XX),
            keypair: self.0,
            remote: None,
        };
        Upgrade { init, future: rt15::NoiseInboundFuture::new(NoiseSession::new(Pattern::XX, None)) }
    }

    /// The upgrade of a connection that this side opened: the initiator's
    /// side, one and a half round trips.
    pub fn upgrade_outbound(self) -> (u: Upgrade<rt15::NoiseOutboundFuture>)
        ensures
            u.init.pattern == Pattern::XX,
            u.init.initiator,
            u.init.prologue@ == "Noise_XX_25519_ChaChaPoly_Blake2s"@,
            u.init.keypair == self.keypair(),
            u.init.remote is None,
            u.future.wf(),
            u.future.driver() == DriverView::fresh(
                rt15::NoiseOutboundFuture::ops(),
                initial_session(Pattern::XX, None),
            ),
    {
        let init = SessionInit {
            pattern: Pattern::XX,
            initiator: true,
            prologue: prologue(Pattern::XX),
            keypair: self.0,
            remote: None,
        };
        Upgrade { init, future: rt15::NoiseOutboundFuture::new(NoiseSession::new(Pattern::XX, None)) }
    }
}

// Handshake pattern IK /////////////////////////////////////////////////////

/// The configuration for the IK handshake pattern.
#[derive(Clone, Copy, Debug)]
pub struct IK(Keypair, [u8; 32]);

impl IK {
    /// The local static keys.
    pub closed spec fn keypair(&self) -> Keypair {
        self.0
    }

    /// The static public key of the remote; all zeros where none is known.
    pub closed spec fn remote(&self) -> [u8; 32] {
        self.1
    }

    /// Create a new configuration for the IK handshake pattern (recipient side).
    pub fn new_listener(k: Keypair) -> (c: IK)
        ensures
            c.keypair() == k,
            forall|i: int| 0 <= i < 32 ==> c.remote()[i] == 0u8,
    {
        IK(k, PublicKey::empty().as_bytes())
    }

    /// Create a new configuration for the IK handshake pattern (initiator side).
    pub fn new_dialer(k: Keypair, remote: PublicKey) -> (c: IK)
        ensures
            c.keypair() == k,
            c.remote() == remote.0,
    {
        IK(k, remote.as_bytes())
    }

    /// The identifier under which the upgrade is negotiated.
    pub fn protocol_info(&self) -> (name: &'static str)
        ensures
            name@ == "/noise/ik/25519/chachapoly/blake2s/0.1.0"@,
    {
        protocol_name(Pattern::IK)
    }

    /// The upgrade of a connection that the remote opened: the responder's
    /// side, one round trip. The remote's key is learnt in the handshake.
    pub fn upgrade_inbound(self) -> (u: Upgrade<rt1::NoiseInboundFuture>)
        ensures
            u.init.pattern == Pattern::IK,
            !u.init.initiator,
            u.init.prologue@ == "Noise_IK_25519_ChaChaPoly_Blake2s"@,
            u.init.keypair == self.keypair(),
            u.init.remote is None,
            u.future.wf(),
            u.future.driver() == DriverView::fresh(
                rt1::NoiseInboundFuture::ops(),
                initial_session(Pattern::IK, None),
            ),
    {
        let init = SessionInit {
            pattern: Pattern::IK,
            initiator: false,
            prologue: prologue(Pattern::IK),
            keypair: self.0,
            remote: None,
        };
        Upgrade { init, future: rt1::NoiseInboundFuture::new(NoiseSession::new(Pattern::IK, None)) }
    }

    /// The upgrade of a connection that this side opened: the initiator's
    /// side, one round trip. The remote's key is the one the configuration
    /// was made with.
    pub fn upgrade_outbound(self) -> (u: Upgrade<rt1::NoiseOutboundFuture>)
        ensures
            u.init.pattern == Pattern::IK,
            u.init.initiator,
            u.init.prologue@ == "Noise_IK_25519_ChaChaPoly_Blake2s"@,
            u.init.keypair == self.keypair(),
            u.init.remote == Some(PublicKey(self.remote())),
            u.future.wf(),
            u.future.driver() == DriverView::fresh(
                rt1::NoiseOutboundFuture::ops(),
                initial_session(Pattern::IK, Some(self.remote())),
            ),
    {
        let public_key = PublicKey::from_bytes(self.1);
        let init = SessionInit {
            pattern: Pattern::IK,
            initiator: true,
            prologue: prologue(Pattern::IK),
            keypair: self.0,
            remote: Some(public_key),
        };
        Upgrade {
            init,
            future: rt1::NoiseOutboundFuture::new(NoiseSession::new(Pattern::IK, Some(self.1))),
        }
    }
}

} // verus!
