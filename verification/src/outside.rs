//! Types of other crates that a slate carries without looking inside.
use ed25519_dalek::PublicKey as DalekPublicKey;
use ed25519_dalek::Signature as DalekSignature;
use vstd::prelude::*;

verus! {

/// The wallet's keychain. It holds the master key that `sign_from_key_id`
/// derives from, and a secp context that can sign, verify and commit.
#[verifier::external_type_specification]
#[verifier::external_body]
pub struct ExExtKeychain(grin_keychain::ExtKeychain);

/// The identifier of a transaction.
#[verifier::external_type_specification]
#[verifier::external_body]
pub struct ExUuid(uuid::Uuid);

/// The range proof of an output.
#[verifier::external_type_specification]
#[verifier::external_body]
pub struct ExRangeProof(grin_util::secp::pedersen::RangeProof);

/// The ed25519 address of a payment proof.
#[verifier::external_type_specification]
#[verifier::external_body]
pub struct ExDalekPublicKey(DalekPublicKey);

/// The ed25519 signature of a payment proof.
#[verifier::external_type_specification]
#[verifier::external_body]
pub struct ExDalekSignature(DalekSignature);

} // verus!
