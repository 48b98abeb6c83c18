//! What the outside crates compute, as trusted items on byte strings.
//!
//! Signatures are the aggregated Schnorr signatures of `grin_core`, commitments
//! the Pedersen commitments of `grin_util::secp`. An outside error is handed on
//! as the text that its `Debug` form shows.
use crate::keys::{
    be_value, group_order, is_key_or_zero, is_secret_key, zero_blind, BlindingFactor, Commitment,
    Identifier, Message, PublicKey, SecretKey, Signature,
};
use crate::transaction::{KernelFeatures, TransactionBody, TxKernel};
use blake2_rfc::blake2b::blake2b;
use grin_core::libtx::aggsig;
use grin_keychain::{BlindSum, ExtKeychain, Keychain};
use grin_util::secp;
use grin_util::ToHex;
use rand::rngs::mock::StepRng;
use vstd::arithmetic::power::pow;
use vstd::prelude::*;

verus! {

// Keys

/// The compressed encoding of the key that `secp::PublicKey::from_slice` reads
/// from `data`, or `None` where it refuses `data`.
pub uninterp spec fn parsed_key(data: Seq<u8>) -> Option<Seq<u8>>;

/// The public key that `secp::PublicKey::from_secret_key` gives for a secret key.
pub uninterp spec fn public_key_of(secret: Seq<u8>) -> Seq<u8>;

/// The key that `secp::PublicKey::from_combination` gives for the sum of `keys`,
/// or `None` where the sum is not a key.
pub uninterp spec fn key_sum(keys: Seq<Seq<u8>>) -> Option<Seq<u8>>;

/// The encodings of a sequence of public keys.
pub open spec fn key_bytes(keys: Seq<PublicKey>) -> Seq<Seq<u8>> {
    keys.map_values(|key: PublicKey| key@)
}

/// Whether a list is another one in the given order: `order` lists every index of
/// the first once, and `b` has the elements of `a` in that order.
pub open spec fn reordered<T>(a: Seq<T>, b: Seq<T>, order: Seq<int>) -> bool {
    &&& a.len() == b.len() == order.len()
    &&& forall|i: int| 0 <= i < order.len() ==> 0 <= #[trigger] order[i] < a.len()
    &&& forall|i: int, j: int|
        0 <= i < j < order.len() ==> #[trigger] order[i] != #[trigger] order[j]
    &&& forall|i: int| 0 <= i < b.len() ==> #[trigger] b[i] == a[order[i]]
}

/// Whether the keys have the given sum in every order.
pub open spec fn sum_in_any_order(keys: Seq<Seq<u8>>, sum: Option<Seq<u8>>) -> bool {
    forall|other: Seq<Seq<u8>>, order: Seq<int>| #[trigger]
        reordered(keys, other, order) ==> key_sum(other) == sum
}

/// `secp::SecretKey::from_slice`: takes 32 bytes that spell a nonzero number
/// below the group order as they are, and refuses everything else with
/// `InvalidSecretKey`.
#[verifier::external_body]
pub(crate) fn secret_key_from_slice(keychain: &ExtKeychain, data: &[u8]) -> (r: Result<
    SecretKey,
    String,
>)
    ensures
        r is Ok <==> is_secret_key(data@),
        r matches Ok(key) ==> key@ == data@,
        r matches Err(e) ==> e@ == "InvalidSecretKey"@,
{
    secp::SecretKey::from_slice(keychain.secp(), data)
        .map(|key| SecretKey { bytes: key.0 })
        .map_err(|e| format!("{:?}", e))
}

/// `secp::PublicKey::from_slice`, and `serialize_vec` for the compressed form of
/// what it read. The only error is `InvalidPublicKey`.
#[verifier::external_body]
pub(crate) fn public_key_from_slice(keychain: &ExtKeychain, data: &[u8]) -> (r: Result<
    PublicKey,
    String,
>)
    ensures
        r matches Ok(key) ==> parsed_key(data@) == Some(key@),
        r matches Err(e) ==> parsed_key(data@) is None && e@ == "InvalidPublicKey"@,
{
    let context = keychain.secp();
    secp::PublicKey::from_slice(context, data)
        .map(|key| PublicKey { bytes: key.serialize_vec(context, true)[..].try_into().unwrap() })
        .map_err(|e| format!("{:?}", e))
}

/// `secp::PublicKey::from_secret_key`: the public key of a secret key. With a
/// keychain's context, which can sign, it does not fail. The zero key has no public
/// key (it panics in debug builds).
#[verifier::external_body]
pub(crate) fn public_key(keychain: &ExtKeychain, secret: &SecretKey) -> (r: PublicKey)
    requires
        is_secret_key(secret@),
    ensures
        r@ == public_key_of(secret@),
{
    let secret = secp::SecretKey(secret.bytes);
    let key = secp::PublicKey::from_secret_key(keychain.secp(), &secret).unwrap();
    PublicKey { bytes: key.serialize_vec(keychain.secp(), true)[..].try_into().unwrap() }
}

/// `secp::PublicKey::from_combination`: the sum of the keys, which is a sum of points
/// and the same in every order. Of no keys at all the underlying library takes no
/// sum (it aborts). The only error is `InvalidPublicKey`, where the keys cancel
/// out.
#[verifier::external_body]
pub(crate) fn sum_keys(keychain: &ExtKeychain, keys: &Vec<PublicKey>) -> (r: Result<
    PublicKey,
    String,
>)
    requires
        keys@.len() > 0,
    ensures
        r matches Ok(sum) ==> key_sum(key_bytes(keys@)) == Some(sum@),
        r matches Err(e) ==> key_sum(key_bytes(keys@)) is None && e@ == "InvalidPublicKey"@,
        r matches Ok(sum) ==> sum_in_any_order(key_bytes(keys@), Some(sum@)),
        r is Err ==> sum_in_any_order(key_bytes(keys@), None),
{
    let context = keychain.secp();
    let keys: Vec<secp::PublicKey> = keys.iter()
        .map(|key| secp::PublicKey::from_slice(context, &key.bytes).unwrap())
        .collect();
    secp::PublicKey::from_combination(context, keys.iter().collect())
        .map(|key| PublicKey { bytes: key.serialize_vec(context, true)[..].try_into().unwrap() })
        .map_err(|e| format!("{:?}", e))
}

/// `secp::SecretKey::new` with the thread's random number generator: some secret
/// key, which is not zero. Nothing else is known of it.
#[verifier::external_body]
pub(crate) fn random_secret_key(keychain: &ExtKeychain) -> (r: SecretKey)
    ensures
        is_secret_key(r@),
{
    SecretKey { bytes: secp::SecretKey::new(keychain.secp(), &mut rand::thread_rng()).0 }
}

/// The eight bytes of a number, the lowest first.
pub open spec fn le_bytes(n: u64) -> Seq<u8> {
    Seq::new(8, |i: int| (n as int / pow(256, i as nat) % 256) as u8)
}

/// The eight bytes of a number, the highest first.
pub open spec fn be_bytes(n: u64) -> Seq<u8> {
    le_bytes(n).reverse()
}

/// The `k`-th number that a step generator yields.
pub open spec fn step_word(initial: u64, increment: u64, k: int) -> u64 {
    ((initial + k * increment) % 0x1_0000_0000_0000_0000) as u64
}

/// The first 32 bytes that a step generator yields.
pub open spec fn step_bytes(initial: u64, increment: u64) -> Seq<u8> {
    le_bytes(step_word(initial, increment, 0)) + le_bytes(step_word(initial, increment, 1))
        + le_bytes(step_word(initial, increment, 2)) + le_bytes(step_word(initial, increment, 3))
}

/// `secp::SecretKey::new` with a `StepRng`: the key is the first 32 bytes that
/// the generator yields, where these are a secret key (where they are not, it
/// tries on, and may not end).
#[verifier::external_body]
pub(crate) fn step_secret_key(
    keychain: &ExtKeychain,
    initial: u64,
    increment: u64,
) -> (r: SecretKey)
    requires
        is_secret_key(step_bytes(initial, increment)),
    ensures
        r@ == step_bytes(initial, increment),
{
    let mut generator = StepRng::new(initial, increment);
    SecretKey { bytes: secp::SecretKey::new(keychain.secp(), &mut generator).0 }
}

/// `Keychain::blind_sum` of one positive and one negative blinding factor: their
/// difference modulo the group order, where either may be zero. Where the
/// difference is zero there is no such key, and the error is
/// `Secp(InvalidSecretKey)`.
#[verifier::external_body]
pub(crate) fn blind_difference(
    keychain: &ExtKeychain,
    positive: &SecretKey,
    negative: &SecretKey,
) -> (r: Result<SecretKey, String>)
    ensures
        r matches Ok(key) ==> is_secret_key(key@) && be_value(key@) == (be_value(positive@)
            - be_value(negative@)) % (group_order() as int),
        r matches Err(e) ==> (be_value(positive@) - be_value(negative@)) % (group_order() as int)
            == 0 && e@ == "Secp(InvalidSecretKey)"@,
{
    let positive = grin_keychain::BlindingFactor::from_slice(&positive.bytes);
    let negative = grin_keychain::BlindingFactor::from_slice(&negative.bytes);
    let sum = BlindSum::new().add_blinding_factor(positive).sub_blinding_factor(negative);
    keychain.blind_sum(&sum)
        .map(|blind| SecretKey { bytes: blind.as_ref().try_into().unwrap() })
        .map_err(|e| format!("{:?}", e))
}

// Messages

/// The hash that `blake2b` of `blake2_rfc` gives: `size` bytes of BLAKE2b over
/// `data` under `key`.
pub uninterp spec fn blake2b_hash(size: usize, key: Seq<u8>, data: Seq<u8>) -> Seq<u8>;

/// `blake2_rfc::blake2b::blake2b`: the hash has the length asked for. Sizes and
/// keys that BLAKE2b does not have are left out (it panics on them).
#[verifier::external_body]
pub(crate) fn blake2b_digest(size: usize, key: &[u8], data: &[u8]) -> (r: Vec<u8>)
    requires
        1 <= size <= 64,
        key@.len() <= 64,
    ensures
        r@ == blake2b_hash(size, key@, data@),
        r@.len() == size,
{
    blake2b(size, key, data).as_bytes().to_vec()
}

/// The bytes of a kernel's features that its signature covers: the feature byte,
/// then the fee and the lock height where the kernel has them.
pub open spec fn kernel_bytes(features: KernelFeatures) -> Seq<u8> {
    match features {
        KernelFeatures::Plain { fee } => seq![0u8] + be_bytes(fee),
        KernelFeatures::Coinbase => seq![1u8],
        KernelFeatures::HeightLocked { fee, lock_height } => seq![2u8] + be_bytes(fee) + be_bytes(
            lock_height,
        ),
    }
}

/// The message that a kernel's signature signs: the 32-byte hash of its features.
pub open spec fn kernel_message(features: KernelFeatures) -> Seq<u8> {
    blake2b_hash(32, seq![], kernel_bytes(features))
}

/// `KernelFeatures::kernel_sig_msg` of `grin_core`: the hash of the feature byte
/// and of what the features hold. Every `u64` fee is taken as it is.
#[verifier::external_body]
pub(crate) fn kernel_sig_msg(features: &KernelFeatures) -> (r: Message)
    ensures
        r@ == kernel_message(*features),
{
    let raw = |fee: u64| serde_json::from_value(serde_json::Value::from(fee)).unwrap();
    let features = match *features {
        KernelFeatures::Plain { fee } => grin_core::core::KernelFeatures::Plain { fee: raw(fee) },
        KernelFeatures::Coinbase => grin_core::core::KernelFeatures::Coinbase,
        KernelFeatures::HeightLocked { fee, lock_height } =>
            grin_core::core::KernelFeatures::HeightLocked { fee: raw(fee), lock_height },
    };
    Message { bytes: features.kernel_sig_msg().unwrap()[..].try_into().unwrap() }
}

// Signatures

/// The signature that `aggsig::calculate_partial_sig` gives for a secret key and
/// a secret nonce, with the sums of all nonces and of all keys, on a message.
pub uninterp spec fn partial_signature(
    secret: Seq<u8>,
    nonce: Seq<u8>,
    nonce_sum: Seq<u8>,
    key_sum: Option<Seq<u8>>,
    msg: Seq<u8>,
) -> Seq<u8>;

/// The signature that `aggsig::sign_single` gives where it is handed the nonce.
pub uninterp spec fn single_signature(
    msg: Seq<u8>,
    secret: Seq<u8>,
    nonce: Seq<u8>,
    key_sum: Option<Seq<u8>>,
) -> Seq<u8>;

/// Whether `aggsig::verify_single` accepts a signature: on `msg`, under `key`,
/// with the nonce sum and the key sum that the signer put into the challenge,
/// and as a part or as a whole.
pub uninterp spec fn signature_valid(
    sig: Seq<u8>,
    msg: Seq<u8>,
    nonce_sum: Option<Seq<u8>>,
    key: Seq<u8>,
    key_sum: Option<Seq<u8>>,
    is_partial: bool,
) -> bool;

/// The signature that `aggsig::add_signatures` gives for the sum of `sigs`.
pub uninterp spec fn signature_sum(sigs: Seq<Seq<u8>>, nonce_sum: Seq<u8>) -> Result<
    Seq<u8>,
    Seq<char>,
>;

/// The bytes of a sequence of signatures.
pub open spec fn signature_bytes(sigs: Seq<Signature>) -> Seq<Seq<u8>> {
    sigs.map_values(|sig: Signature| sig@)
}

/// The optional key of a call, by its bytes.
pub open spec fn optional_key(key: Option<&PublicKey>) -> Option<Seq<u8>> {
    match key {
        Some(k) => Some(k@),
        None => None,
    }
}

/// An outcome by its bytes or by the text of its error.
pub open spec fn signature_outcome(r: Result<Signature, String>) -> Result<Seq<u8>, Seq<char>> {
    match r {
        Ok(sig) => Ok(sig@),
        Err(e) => Err(e@),
    }
}

/// An outcome by its bytes or by the text of its error.
pub open spec fn commitment_outcome(r: Result<Commitment, String>) -> Result<Seq<u8>, Seq<char>> {
    match r {
        Ok(commit) => Ok(commit@),
        Err(e) => Err(e@),
    }
}

/// What `aggsig` answers to a signature that does not hold.
pub open spec fn bad_signature() -> Seq<char> {
    "Signature(\"Signature validation error\")"@
}

/// Whether a signature is the share of a signer with the given public key, made
/// with the given sums.
pub open spec fn honest_share(
    sig: Seq<u8>,
    nonce_sum: Seq<u8>,
    key: Seq<u8>,
    key_sum: Option<Seq<u8>>,
    msg: Seq<u8>,
) -> bool {
    exists|secret: Seq<u8>, nonce: Seq<u8>|
        is_secret_key(secret) && is_secret_key(nonce) && key == public_key_of(secret)
            && sig == #[trigger] partial_signature(secret, nonce, nonce_sum, key_sum, msg)
}

/// Signers who each used their own secret key and nonce, with the sums of the
/// public keys and public nonces of all of them, on one message.
pub open spec fn honest_shares(
    sigs: Seq<Seq<u8>>,
    secrets: Seq<Seq<u8>>,
    nonces: Seq<Seq<u8>>,
    nonce_total: Seq<u8>,
    key_total: Seq<u8>,
    msg: Seq<u8>,
) -> bool {
    &&& msg.len() == 32
    &&& sigs.len() == secrets.len() == nonces.len()
    &&& forall|i: int|
        0 <= i < sigs.len() ==> is_secret_key(#[trigger] secrets[i]) && is_secret_key(nonces[i])
            && sigs[i] == partial_signature(
            secrets[i],
            nonces[i],
            nonce_total,
            Some(key_total),
            msg,
        )
    &&& key_sum(nonces.map_values(|nonce: Seq<u8>| public_key_of(nonce))) == Some(nonce_total)
    &&& key_sum(secrets.map_values(|secret: Seq<u8>| public_key_of(secret))) == Some(key_total)
}

/// If the shares come from honest signers, their sum is a signature that verifies
/// under the sum of the signers' keys, as a part and as a whole.
pub open spec fn honest_sum_verifies(
    sigs: Seq<Seq<u8>>,
    nonce_total: Seq<u8>,
    sum: Result<Seq<u8>, Seq<char>>,
) -> bool {
    forall|secrets: Seq<Seq<u8>>, nonces: Seq<Seq<u8>>, key: Seq<u8>, msg: Seq<u8>| #[trigger]
        honest_shares(sigs, secrets, nonces, nonce_total, key, msg) ==> (sum matches Ok(sig)
            && signature_valid(sig, msg, None, key, Some(key), true) && signature_valid(
            sig,
            msg,
            None,
            key,
            Some(key),
            false,
        ))
}

/// `aggsig::calculate_partial_sig`: a share of an aggregated signature, which for a
/// nonce and sums that are valid does not fail. The zero key signs too, but has no
/// public key; the share of any other key verifies as a part under the public key
/// of that key, with the sums that it was made with. The zero nonce is left out:
/// its point is not defined.
#[verifier::external_body]
pub(crate) fn calculate_partial_sig(
    keychain: &ExtKeychain,
    secret: &SecretKey,
    nonce: &SecretKey,
    nonce_sum: &PublicKey,
    key_sum: Option<&PublicKey>,
    msg: &Message,
) -> (r: Result<Signature, String>)
    requires
        is_secret_key(nonce@),
    ensures
        r is Ok,
        r matches Ok(sig) ==> sig@ == partial_signature(
            secret@,
            nonce@,
            nonce_sum@,
            optional_key(key_sum),
            msg@,
        ),
        r matches Ok(sig) ==> (is_secret_key(secret@) ==> signature_valid(
            sig@,
            msg@,
            Some(nonce_sum@),
            public_key_of(secret@),
            optional_key(key_sum),
            true,
        )),
{
    let context = keychain.secp();
    let secret = secp::SecretKey(secret.bytes);
    let nonce = secp::SecretKey(nonce.bytes);
    let nonce_sum = secp::PublicKey::from_slice(context, &nonce_sum.bytes).unwrap();
    let key_sum = key_sum.map(|key| secp::PublicKey::from_slice(context, &key.bytes).unwrap());
    let msg = secp::Message::from_slice(&msg.bytes).unwrap();
    aggsig::calculate_partial_sig(context, &secret, &nonce, &nonce_sum, key_sum.as_ref(), &msg)
        .map(|sig| Signature { bytes: sig.to_raw_data() })
        .map_err(|e| format!("{:?}", e))
}

/// `aggsig::verify_partial_sig`: `verify_single` with a nonce sum, of a part. A
/// share that was made with the same sums and message is accepted.
#[verifier::external_body]
pub(crate) fn verify_partial_sig(
    keychain: &ExtKeychain,
    sig: &Signature,
    nonce_sum: &PublicKey,
    key: &PublicKey,
    key_sum: Option<&PublicKey>,
    msg: &Message,
) -> (r: Result<(), String>)
    ensures
        r is Ok <==> signature_valid(
            sig@,
            msg@,
            Some(nonce_sum@),
            key@,
            optional_key(key_sum),
            true,
        ),
        honest_share(sig@, nonce_sum@, key@, optional_key(key_sum), msg@) ==> r is Ok,
        r matches Err(e) ==> e@ == bad_signature(),
{
    let context = keychain.secp();
    let sig = secp::Signature::from_raw_data(&sig.bytes).unwrap();
    let nonce_sum = secp::PublicKey::from_slice(context, &nonce_sum.bytes).unwrap();
    let key = secp::PublicKey::from_slice(context, &key.bytes).unwrap();
    let key_sum = key_sum.map(|key| secp::PublicKey::from_slice(context, &key.bytes).unwrap());
    let msg = secp::Message::from_slice(&msg.bytes).unwrap();
    aggsig::verify_partial_sig(context, &sig, &nonce_sum, &key, key_sum.as_ref(), &msg)
        .map_err(|e| format!("{:?}", e))
}

/// `aggsig::sign_single`: a signature of one signer, which for a nonce and a sum that
/// are valid does not fail. Where the nonce is given the signature depends on the
/// arguments alone; otherwise a fresh random nonce is used. The zero key signs too,
/// but has no public key; the signature of any other key verifies as a whole under
/// the public key of that key, with the key sum that it was made with. The zero
/// nonce is left out: its point is not defined.
#[verifier::external_body]
pub(crate) fn sign_single(
    keychain: &ExtKeychain,
    msg: &Message,
    secret: &SecretKey,
    nonce: Option<&SecretKey>,
    key_sum: Option<&PublicKey>,
) -> (r: Result<Signature, String>)
    requires
        nonce matches Some(n) ==> is_secret_key(n@),
    ensures
        r is Ok,
        r matches Ok(sig) ==> (nonce matches Some(n) ==> sig@ == single_signature(
            msg@,
            secret@,
            n@,
            optional_key(key_sum),
        )),
        r matches Ok(sig) ==> (is_secret_key(secret@) ==> signature_valid(
            sig@,
            msg@,
            None,
            public_key_of(secret@),
            optional_key(key_sum),
            false,
        )),
{
    let context = keychain.secp();
    let msg = secp::Message::from_slice(&msg.bytes).unwrap();
    let secret = secp::SecretKey(secret.bytes);
    let nonce = nonce.map(|n| secp::SecretKey(n.bytes));
    let key_sum = key_sum.map(|key| secp::PublicKey::from_slice(context, &key.bytes).unwrap());
    aggsig::sign_single(context, &msg, &secret, nonce.as_ref(), key_sum.as_ref())
        .map(|sig| Signature { bytes: sig.to_raw_data() })
        .map_err(|e| format!("{:?}", e))
}

/// `aggsig::verify_single` in a context that can only verify.
#[verifier::external_body]
pub(crate) fn verify_single(
    sig: &Signature,
    msg: &Message,
    nonce_sum: Option<&PublicKey>,
    key: &PublicKey,
    key_sum: Option<&PublicKey>,
    is_partial: bool,
) -> (r: bool)
    ensures
        r == signature_valid(
            sig@,
            msg@,
            optional_key(nonce_sum),
            key@,
            optional_key(key_sum),
            is_partial,
        ),
{
    let context = &secp::Secp256k1::with_caps(secp::ContextFlag::VerifyOnly);
    let sig = secp::Signature::from_raw_data(&sig.bytes).unwrap();
    let msg = secp::Message::from_slice(&msg.bytes).unwrap();
    let nonce = nonce_sum.map(|key| secp::PublicKey::from_slice(context, &key.bytes).unwrap());
    let key = secp::PublicKey::from_slice(context, &key.bytes).unwrap();
    let sum = key_sum.map(|key| secp::PublicKey::from_slice(context, &key.bytes).unwrap());
    aggsig::verify_single(context, &sig, &msg, nonce.as_ref(), &key, sum.as_ref(), is_partial)
}

/// `aggsig::add_signatures`: the sum of shares. The shares of honest signers add
/// up to a signature that verifies under the sum of their keys.
#[verifier::external_body]
pub(crate) fn add_signatures(
    keychain: &ExtKeychain,
    sigs: &Vec<Signature>,
    nonce_sum: &PublicKey,
) -> (r: Result<Signature, String>)
    ensures
        signature_outcome(r) == signature_sum(signature_bytes(sigs@), nonce_sum@),
        honest_sum_verifies(signature_bytes(sigs@), nonce_sum@, signature_outcome(r)),
{
    let context = keychain.secp();
    let nonce_sum = secp::PublicKey::from_slice(context, &nonce_sum.bytes).unwrap();
    let sigs: Vec<secp::Signature> = sigs.iter()
        .map(|sig| secp::Signature::from_raw_data(&sig.bytes).unwrap())
        .collect();
    aggsig::add_signatures(context, sigs.iter().collect(), &nonce_sum)
        .map(|sig| Signature { bytes: sig.to_raw_data() })
        .map_err(|e| format!("{:?}", e))
}

/// `aggsig::verify_completed_sig`: `verify_single` without a nonce sum, of a
/// signature that is summed up from parts.
#[verifier::external_body]
pub(crate) fn verify_completed_sig(
    keychain: &ExtKeychain,
    sig: &Signature,
    key: &PublicKey,
    key_sum: Option<&PublicKey>,
    msg: &Message,
) -> (r: Result<(), String>)
    ensures
        r is Ok <==> signature_valid(sig@, msg@, None, key@, optional_key(key_sum), true),
        r matches Err(e) ==> e@ == bad_signature(),
{
    let context = keychain.secp();
    let sig = secp::Signature::from_raw_data(&sig.bytes).unwrap();
    let key = secp::PublicKey::from_slice(context, &key.bytes).unwrap();
    let key_sum = key_sum.map(|key| secp::PublicKey::from_slice(context, &key.bytes).unwrap());
    let msg = secp::Message::from_slice(&msg.bytes).unwrap();
    aggsig::verify_completed_sig(context, &sig, &key, key_sum.as_ref(), &msg)
        .map_err(|e| format!("{:?}", e))
}

// Derived keys

/// The bytes of the master key that a keychain holds, and its chain code: the
/// fields `secret_key` and `chain_code` of `ExtKeychain::master`.
pub uninterp spec fn master_of(keychain: ExtKeychain) -> (Seq<u8>, Seq<u8>);

/// The secret key that `ExtKeychain::derive_key` derives for an amount and a path,
/// with a regular switch commitment, from a master key and its chain code, or the
/// text of the error where it derives none.
pub uninterp spec fn derived_key(
    master: Seq<u8>,
    chain_code: Seq<u8>,
    amount: u64,
    path: Seq<u8>,
) -> Result<Seq<u8>, Seq<char>>;

/// The field `ExtKeychain::master`, with `secp::SecretKey::from_slice` for its key:
/// the master key and the chain code. A key that is out of range, which masking a
/// keychain can leave behind, is refused with `InvalidSecretKey`.
#[verifier::external_body]
pub(crate) fn master_key(keychain: &ExtKeychain) -> (r: Result<(SecretKey, [u8; 32]), String>)
    ensures
        r is Ok <==> is_secret_key(master_of(*keychain).0),
        r matches Ok((key, chain_code)) ==> (key@, chain_code@) == master_of(*keychain),
        r matches Err(e) ==> e@ == "InvalidSecretKey"@,
{
    let chain_code = keychain.master.chain_code[..].try_into().unwrap();
    secp::SecretKey::from_slice(keychain.secp(), &keychain.master.secret_key.0)
        .map(|key| (SecretKey { bytes: key.0 }, chain_code))
        .map_err(|e| format!("{:?}", e))
}

/// An outcome by its bytes or by the text of its error.
pub open spec fn secret_outcome(r: Result<SecretKey, String>) -> Result<Seq<u8>, Seq<char>> {
    match r {
        Ok(key) => Ok(key@),
        Err(e) => Err(e@),
    }
}

/// `ExtKeychain::derive_key` with a regular switch commitment, in a keychain with the
/// given master key and chain code: neither the rest of the keychain nor the
/// network that it is for enters the derivation. The error is the one that
/// `grin_core::libtx` makes of the keychain's. That the hash which the switch adds
/// to the key is below the group order is taken for granted, there and here.
#[verifier::external_body]
pub(crate) fn derive_key(
    master: &SecretKey,
    chain_code: &[u8; 32],
    amount: u64,
    id: &Identifier,
) -> (r: Result<SecretKey, String>)
    requires
        is_secret_key(master@),
        id.wf(),
    ensures
        r matches Ok(key) ==> is_secret_key(key@),
        secret_outcome(r) == derived_key(master@, chain_code@, amount, id.bytes@),
{
    let mut keychain = ExtKeychain::from_seed(&[0; 32], false).unwrap();
    keychain.master.secret_key = secp::SecretKey(master.bytes);
    keychain.master.chain_code = grin_keychain::extkey_bip32::ChainCode::from(&chain_code[..]);
    let id = grin_keychain::Identifier::from_bytes(&id.bytes);
    keychain.derive_key(amount, &id, grin_keychain::SwitchCommitmentType::Regular)
        .map(|key| SecretKey { bytes: key.0 })
        .map_err(|e| format!("{:?}", grin_core::libtx::Error::from(e)))
}

// Commitments

/// The commitment that `Secp256k1::commit` gives for a value and a blinding
/// factor, or `None` where there is none.
pub uninterp spec fn pedersen_commitment(value: u64, blind: Seq<u8>) -> Option<Seq<u8>>;

/// What `Secp256k1::commit_sum` gives for the sum of some commitments less the
/// sum of others.
pub uninterp spec fn commitment_sum(positive: Seq<Seq<u8>>, negative: Seq<Seq<u8>>) -> Result<
    Seq<u8>,
    Seq<char>,
>;

/// The public key that `Commitment::to_pubkey` reads a commitment as, or `None`
/// where the bytes are no commitment.
pub uninterp spec fn commitment_key(commit: Seq<u8>) -> Option<Seq<u8>>;

/// What `Committed::sum_commitments` gives for the outputs' commitments less the
/// inputs' commitments, with the overage on its side.
pub uninterp spec fn committed_sum(
    inputs: Seq<Seq<u8>>,
    outputs: Seq<Seq<u8>>,
    overage: i64,
) -> Result<Seq<u8>, Seq<char>>;

/// The bytes of a sequence of commitments.
pub open spec fn commitment_bytes(commits: Seq<Commitment>) -> Seq<Seq<u8>> {
    commits.map_values(|commit: Commitment| commit@)
}

/// `BlindingFactor::secret_key`: the blinding factor as a secret key. Zero is taken as
/// it is, and so is a secret key; other bytes are refused with
/// `Secp(InvalidSecretKey)`.
#[verifier::external_body]
pub(crate) fn blind_secret(keychain: &ExtKeychain, blind: &BlindingFactor) -> (r: Result<
    SecretKey,
    String,
>)
    ensures
        r is Ok <==> is_key_or_zero(blind@),
        r matches Ok(secret) ==> secret@ == blind@,
        r matches Err(e) ==> e@ == "Secp(InvalidSecretKey)"@,
{
    grin_keychain::BlindingFactor::from_slice(&blind.bytes).secret_key(keychain.secp())
        .map(|secret| SecretKey { bytes: secret.0 })
        .map_err(|e| format!("{:?}", e))
}

/// `Secp256k1::commit`: the commitment to a value under a secret key, which may be
/// zero. The only error is `InvalidCommit`.
#[verifier::external_body]
pub(crate) fn commit(keychain: &ExtKeychain, value: u64, blind: &SecretKey) -> (r: Result<
    Commitment,
    String,
>)
    ensures
        r matches Ok(commit) ==> pedersen_commitment(value, blind@) == Some(commit@),
        r matches Err(e) ==> pedersen_commitment(value, blind@) is None && e@ == "InvalidCommit"@,
{
    keychain.secp().commit(value, secp::SecretKey(blind.bytes))
        .map(|commit| Commitment { bytes: commit.0 })
        .map_err(|e| format!("{:?}", e))
}

/// `Secp256k1::commit_value`: the commitment to a value under the zero blinding
/// factor. Every value but zero has one.
#[verifier::external_body]
pub(crate) fn commit_value(keychain: &ExtKeychain, value: u64) -> (r: Result<Commitment, String>)
    ensures
        r matches Ok(commit) ==> pedersen_commitment(value, zero_blind()) == Some(commit@),
        r matches Err(e) ==> pedersen_commitment(value, zero_blind()) is None && e@
            == "InvalidCommit"@,
        value > 0 ==> r is Ok,
{
    keychain.secp().commit_value(value)
        .map(|commit| Commitment { bytes: commit.0 })
        .map_err(|e| format!("{:?}", e))
}

/// `Secp256k1::commit_sum`: the sum of the positive commitments less the sum of
/// the negative ones.
#[verifier::external_body]
pub(crate) fn commit_sum(
    keychain: &ExtKeychain,
    positive: &Vec<Commitment>,
    negative: &Vec<Commitment>,
) -> (r: Result<Commitment, String>)
    ensures
        commitment_outcome(r) == commitment_sum(
            commitment_bytes(positive@),
            commitment_bytes(negative@),
        ),
{
    let positive = positive.iter().map(|c| secp::pedersen::Commitment(c.bytes)).collect();
    let negative = negative.iter().map(|c| secp::pedersen::Commitment(c.bytes)).collect();
    keychain.secp().commit_sum(positive, negative)
        .map(|commit| Commitment { bytes: commit.0 })
        .map_err(|e| format!("{:?}", e))
}

/// `Commitment::to_pubkey`: the commitment read as a public key. The only error
/// is `InvalidCommit`.
#[verifier::external_body]
pub(crate) fn to_pubkey(keychain: &ExtKeychain, commit: &Commitment) -> (r: Result<
    PublicKey,
    String,
>)
    ensures
        r matches Ok(key) ==> commitment_key(commit@) == Some(key@),
        r matches Err(e) ==> commitment_key(commit@) is None && e@ == "InvalidCommit"@,
{
    let context = keychain.secp();
    secp::pedersen::Commitment(commit.bytes).to_pubkey(context)
        .map(|key| PublicKey { bytes: key.serialize_vec(context, true)[..].try_into().unwrap() })
        .map_err(|e| format!("{:?}", e))
}

/// `Committed::sum_commitments` of a `grin_core` transaction with the same input
/// and output commitments.
#[verifier::external_body]
pub(crate) fn sum_commitments(body: &TransactionBody, overage: i64) -> (r: Result<
    Commitment,
    String,
>)
    ensures
        commitment_outcome(r) == committed_sum(
            body@.inputs.map_values(|input: crate::transaction::Input| input.commit@),
            body@.outputs.map_values(|output: crate::transaction::Output| output.commit@),
            overage,
        ),
{
    let plain = grin_core::core::OutputFeatures::Plain;
    let commit = |c: Commitment| secp::pedersen::Commitment(c.bytes);
    let inputs: Vec<_> = body.inputs.iter()
        .map(|i| grin_core::core::Input::new(plain, commit(i.commit)))
        .collect();
    let outputs: Vec<_> = body.outputs.iter()
        .map(|o| grin_core::core::Output::new(plain, commit(o.commit), o.proof))
        .collect();
    let tx = grin_core::core::Transaction::new(inputs.as_slice().into(), &outputs, &[]);
    grin_core::core::Committed::sum_commitments(&tx, overage)
        .map(|commit| Commitment { bytes: commit.0 })
        .map_err(|e| format!("{:?}", e))
}

/// Whether a kernel's signature holds: its excess is read as a public key, and
/// the signature verifies under that key on the message of the features.
pub open spec fn kernel_valid(kernel: TxKernel) -> bool {
    commitment_key(kernel.excess@) matches Some(key) && signature_valid(
        kernel.excess_sig@,
        kernel_message(kernel.features),
        None,
        key,
        Some(key),
        false,
    )
}

/// The text of the error with which a kernel that does not hold is refused.
pub open spec fn kernel_fault(kernel: TxKernel) -> Seq<char> {
    if commitment_key(kernel.excess@) is None {
        "Secp(InvalidCommit)"@
    } else {
        "IncorrectSignature"@
    }
}

/// `TxKernel::verify` of `grin_core` on the kernel with the same contents.
#[verifier::external_body]
pub(crate) fn verify_kernel(kernel: &TxKernel) -> (r: Result<(), String>)
    ensures
        r is Ok <==> kernel_valid(*kernel),
        r matches Err(e) ==> e@ == kernel_fault(*kernel),
{
    let raw = |fee: u64| serde_json::from_value(serde_json::Value::from(fee)).unwrap();
    let features = match kernel.features {
        KernelFeatures::Plain { fee } => grin_core::core::KernelFeatures::Plain { fee: raw(fee) },
        KernelFeatures::Coinbase => grin_core::core::KernelFeatures::Coinbase,
        KernelFeatures::HeightLocked { fee, lock_height } =>
            grin_core::core::KernelFeatures::HeightLocked { fee: raw(fee), lock_height },
    };
    let excess = secp::pedersen::Commitment(kernel.excess.bytes);
    let excess_sig = secp::Signature::from_raw_data(&kernel.excess_sig.bytes).unwrap();
    grin_core::core::TxKernel { features, excess, excess_sig }.verify()
        .map_err(|e| format!("{:?}", e))
}

// Texts and identifiers

/// `grin_core::core::amount_to_hr_string`: an amount in whole units, as text. The
/// number of decimals comes from a floating-point logarithm, which may differ from
/// machine to machine, so nothing is stated of the text.
#[verifier::external_body]
pub(crate) fn amount_to_hr_string(amount: u64, truncate: bool) -> String {
    grin_core::core::amount_to_hr_string(amount, truncate)
}

/// Whether a text is one that can come out for an amount in whole units.
pub closed spec fn reads_as(amount: u64, text: Seq<char>) -> bool {
    exists|s: String| s@ == text && #[trigger] call_ensures(amount_to_hr_string, (amount, false), s)
}

/// An amount in whole units, as text.
pub(crate) fn amount_text(amount: u64) -> (r: String)
    ensures
        reads_as(amount, r@),
{
    let write = amount_to_hr_string;
    write(amount, false)
}

/// The lower-case hexadecimal digit of a number below sixteen.
pub open spec fn hex_digit(n: int) -> char {
    "0123456789abcdef"@[n]
}

/// Two hexadecimal digits for each byte.
pub open spec fn hex_text(bytes: Seq<u8>) -> Seq<char> {
    Seq::new(
        2 * bytes.len(),
        |i: int|
            if i % 2 == 0 {
                hex_digit(bytes[i / 2] as int / 16)
            } else {
                hex_digit(bytes[i / 2] as int % 16)
            },
    )
}

/// `grin_util::ToHex::to_hex`: two lower-case hexadecimal digits for each byte.
#[verifier::external_body]
pub(crate) fn to_hex(bytes: &[u8]) -> (r: String)
    ensures
        r@ == hex_text(bytes@),
{
    bytes.to_hex()
}

/// `Uuid::new_v4`: some identifier. Nothing else is known of it.
#[verifier::external_body]
pub(crate) fn new_id() -> uuid::Uuid {
    uuid::Uuid::new_v4()
}

} // verus!
