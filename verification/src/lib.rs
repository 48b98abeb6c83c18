//! Slates: partial transactions that wallets pass around until all participants
//! have signed.
//!
//! A sender makes a [`Slate`], adds inputs and outputs, and goes through the first
//! round, which adds the sender's public keys. The recipient does the same, and
//! then each of them goes through the second round, which adds a partial
//! signature. Whoever comes last finalizes the slate: the partial signatures are
//! added up, and the transaction's kernel gets the sum.
//!
//! The modules:
//! - `keys`: keys, signatures and commitments as byte strings
//! - `outside`, `curve`: the types and functions of other crates, with what is
//!   taken for granted of them
//! - `transaction`: inputs, outputs and kernels, with and without tokens
//! - `participant`: what each participant adds to a slate
//! - `slate`, `version`, `v4`: the slate, how it is read and written, and the
//!   conversions from and to version 4 of the format
//! - `kernel`, `elements`, `rounds`, `finalize`: the operations on a slate
//! - `conversion_laws`, `transaction_laws`, `round_laws`, `finalize_laws`: what each
//!   operation does, in terms of what goes in and what comes out
//! - `laws`: what holds over several operations
pub mod conversion_laws;
pub mod curve;
pub mod elements;
pub mod error;
pub mod finalize;
pub mod finalize_laws;
pub mod kernel;
pub mod keys;
pub mod laws;
pub mod outside;
pub mod participant;
pub mod round_laws;
pub mod rounds;
pub mod slate;
pub mod text;
pub mod transaction;
pub mod transaction_laws;
pub mod v4;
pub mod version;

pub use error::Error;
pub use keys::{
    BlindingFactor, Commitment, Identifier, Message, PublicKey, SecretKey, Signature, TokenKey,
};
pub use participant::{ParticipantData, ParticipantMessageData, ParticipantMessages};
pub use slate::{PaymentInfo, Slate};
pub use version::{SlateVersionProbe, VersionCompatInfo};
