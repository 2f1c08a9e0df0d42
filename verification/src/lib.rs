//! A Noise secure-channel upgrade for peer-to-peer transports, written as
//! state machines that never perform I/O themselves, together with the
//! multihash codec used to name peers and content.
//!
//! The channel ([`io`]) frames, and hands to a Noise session, what passes
//! between a caller and a byte transport; the handshake ([`driver`], [`rt1`],
//! [`rt15`]) runs the fixed exchange of a pattern before the channel is
//! handed over; the configurations ([`upgrade`]) say how either is set up.
//! None of them owns the transport or the cryptographic state: they ask for
//! an [`frame::Action`] and are told its outcome as an [`frame::Event`].

pub mod bytes;
pub mod driver;
pub mod error;
pub mod frame;
pub mod io;
pub mod laws;
pub mod multihash;
pub mod rt1;
pub mod rt15;
pub mod session;
pub mod upgrade;

pub use crate::error::NoiseError;
pub use crate::multihash::errors::{DecodeError, DecodeOwnedError, EncodeError};
pub use crate::io::NoiseOutput;
pub use crate::multihash::{encode, to_hex, Multihash, MultihashRef};
pub use crate::session::NoiseSession;
pub use crate::upgrade::{Keypair, PublicKey, IK, IX, XX};
