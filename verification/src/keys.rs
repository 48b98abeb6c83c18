//! Keys, nonces, signatures and commitments as byte strings.
//!
//! A secret key and a public key keep their validity as a type invariant; the
//! other values are byte strings of a fixed length without further structure.
use crate::curve;
use grin_keychain::ExtKeychain;
use vstd::arithmetic::power::pow;
use vstd::prelude::*;

verus! {

/// The number that a byte string spells in big-endian order.
pub open spec fn be_value(bytes: Seq<u8>) -> nat
    decreases bytes.len(),
{
    if bytes.len() == 0 {
        0
    } else {
        256 * be_value(bytes.drop_last()) + bytes.last() as nat
    }
}

/// The order of the group of secp256k1.
pub open spec fn group_order() -> nat {
    0xFFFFFFFF_FFFFFFFF_FFFFFFFF_FFFFFFFE_BAAEDCE6_AF48A03B_BFD25E8C_D0364141nat
}

/// A secret key is a nonzero number below the group order, in 32 bytes.
pub open spec fn is_secret_key(bytes: Seq<u8>) -> bool {
    bytes.len() == 32 && 0 < be_value(bytes) < group_order()
}

/// A public key is the compressed encoding of a point: one that parses to itself.
pub open spec fn is_public_key(bytes: Seq<u8>) -> bool {
    bytes.len() == 33 && curve::parsed_key(bytes) == Some(bytes)
}

/// A byte string lies between what its first byte alone spells and the next such
/// number.
proof fn be_value_by_first_byte(bytes: Seq<u8>)
    requires
        bytes.len() > 0,
    ensures
        bytes[0] * pow(256, (bytes.len() - 1) as nat) <= be_value(bytes) < (bytes[0] + 1) * pow(
            256,
            (bytes.len() - 1) as nat,
        ),
    decreases bytes.len(),
{
    reveal_with_fuel(be_value, 2);
    reveal_with_fuel(pow, 2);
    if bytes.len() > 1 {
        let rest = bytes.drop_last();
        be_value_by_first_byte(rest);
        let p = pow(256, (rest.len() - 1) as nat);
        let first = bytes[0] as int;
        assert(pow(256, (bytes.len() - 1) as nat) == 256 * p);
        assert(first * (256 * p) == 256 * (first * p)) by (nonlinear_arith);
        assert((first + 1) * (256 * p) == 256 * ((first + 1) * p)) by (nonlinear_arith);
    } else {
        assert(bytes.drop_last() =~= seq![]);
    }
}

/// 32 bytes are a secret key where the first of them is neither the lowest nor
/// the highest.
pub proof fn secret_key_by_first_byte(bytes: Seq<u8>)
    requires
        bytes.len() == 32,
        0 < bytes[0] < 0xFF,
    ensures
        is_secret_key(bytes),
{
    be_value_by_first_byte(bytes);
    let p = pow(256, 31);
    assert(p == 0x1_00000000_00000000_00000000_00000000_00000000_00000000_00000000_000000int) by {
        reveal_with_fuel(pow, 32);
    }
    let first = bytes[0] as int;
    assert(p <= first * p && (first + 1) * p <= 0xFF * p) by (nonlinear_arith)
        requires
            1 <= first < 0xFF,
            p > 0,
    ;
}

/// Zero bytes spell zero.
proof fn zeros_spell_zero(bytes: Seq<u8>)
    requires
        forall|i: int| 0 <= i < bytes.len() ==> #[trigger] bytes[i] == 0,
    ensures
        be_value(bytes) == 0,
    decreases bytes.len(),
{
    if bytes.len() > 0 {
        zeros_spell_zero(bytes.drop_last());
    }
}

/// The zero blinding factor spells zero, so it is no secret key.
pub proof fn zero_is_no_secret_key()
    ensures
        be_value(zero_blind()) == 0,
        !is_secret_key(zero_blind()),
{
    zeros_spell_zero(zero_blind());
}

/// A secret key, or zero where there is none.
pub open spec fn is_key_or_zero(bytes: Seq<u8>) -> bool {
    is_secret_key(bytes) || bytes == zero_blind()
}

/// A secret key or secret nonce, or zero where there is none.
#[derive(Clone, Copy)]
pub struct SecretKey {
    pub(crate) bytes: [u8; 32],
}

impl View for SecretKey {
    type V = Seq<u8>;

    closed spec fn view(&self) -> Seq<u8> {
        self.bytes@
    }
}

impl SecretKey {
    #[verifier::type_invariant]
    pub(crate) open spec fn in_range(self) -> bool {
        is_key_or_zero(self@)
    }

    /// The zero key, which stands for none.
    pub fn zero() -> (r: SecretKey)
        ensures
            r@ == zero_blind(),
    {
        let bytes: [u8; 32] = [0u8; 32];
        assert(bytes@ =~= zero_blind());
        SecretKey { bytes }
    }

    /// Whether this is the zero key.
    pub fn is_zero(&self) -> (r: bool)
        ensures
            r == (self@ == zero_blind()),
            r == !is_secret_key(self@),
    {
        proof {
            use_type_invariant(self);
            zero_is_no_secret_key();
        }
        BlindingFactor { bytes: self.bytes }.is_zero()
    }

    /// Reads a secret key from 32 bytes, refusing what is out of range.
    pub fn from_slice(keychain: &ExtKeychain, data: &[u8]) -> (r: Result<SecretKey, String>)
        ensures
            r is Ok <==> is_secret_key(data@),
            r matches Ok(key) ==> key@ == data@,
            r matches Err(e) ==> e@ == "InvalidSecretKey"@,
    {
        curve::secret_key_from_slice(keychain, data)
    }

    /// The bytes of the key.
    pub fn to_bytes(&self) -> (r: [u8; 32])
        ensures
            r@ == self@,
            is_key_or_zero(r@),
    {
        proof {
            use_type_invariant(self);
        }
        self.bytes
    }
}

/// A public key or public nonce, in compressed form.
#[derive(Clone, Copy, Debug)]
pub struct PublicKey {
    pub(crate) bytes: [u8; 33],
}

impl View for PublicKey {
    type V = Seq<u8>;

    closed spec fn view(&self) -> Seq<u8> {
        self.bytes@
    }
}

impl PublicKey {
    #[verifier::type_invariant]
    pub(crate) open spec fn is_point(self) -> bool {
        is_public_key(self@)
    }

    /// Reads a public key from its compressed or its uncompressed encoding.
    pub fn from_slice(keychain: &ExtKeychain, data: &[u8]) -> (r: Result<PublicKey, String>)
        ensures
            r matches Ok(key) ==> curve::parsed_key(data@) == Some(key@),
            r matches Err(e) ==> curve::parsed_key(data@) is None && e@ == "InvalidPublicKey"@,
    {
        curve::public_key_from_slice(keychain, data)
    }

    /// The compressed encoding.
    pub fn to_bytes(&self) -> (r: [u8; 33])
        ensures
            r@ == self@,
            is_public_key(r@),
    {
        proof {
            use_type_invariant(self);
        }
        self.bytes
    }
}

/// An aggregated signature or a part of one.
#[derive(Clone, Copy, Debug)]
pub struct Signature {
    pub bytes: [u8; 64],
}

impl View for Signature {
    type V = Seq<u8>;

    open spec fn view(&self) -> Seq<u8> {
        self.bytes@
    }
}

/// A Pedersen commitment.
#[derive(Clone, Copy, Debug)]
pub struct Commitment {
    pub bytes: [u8; 33],
}

impl View for Commitment {
    type V = Seq<u8>;

    open spec fn view(&self) -> Seq<u8> {
        self.bytes@
    }
}

/// The 32 bytes that a signature signs.
#[derive(Clone, Copy, Debug)]
pub struct Message {
    pub bytes: [u8; 32],
}

impl View for Message {
    type V = Seq<u8>;

    open spec fn view(&self) -> Seq<u8> {
        self.bytes@
    }
}

/// A blinding factor: a secret key, or zero where there is none.
#[derive(Clone, Copy, Debug)]
pub struct BlindingFactor {
    pub bytes: [u8; 32],
}

impl View for BlindingFactor {
    type V = Seq<u8>;

    open spec fn view(&self) -> Seq<u8> {
        self.bytes@
    }
}

/// The 32 zero bytes of the blinding factor that stands for none.
pub open spec fn zero_blind() -> Seq<u8> {
    Seq::new(32, |i: int| 0u8)
}

impl BlindingFactor {
    /// The zero blinding factor.
    pub fn zero() -> (r: BlindingFactor)
        ensures
            r@ == zero_blind(),
    {
        let r = BlindingFactor { bytes: [0u8; 32] };
        assert(r@ =~= zero_blind());
        r
    }

    /// The blinding factor with the bytes of a secret key.
    pub fn from_secret_key(key: &SecretKey) -> (r: BlindingFactor)
        ensures
            r@ == key@,
    {
        BlindingFactor { bytes: key.bytes }
    }

    /// The secret key with the bytes of the blinding factor, which for the zero
    /// blinding factor is the zero key.
    pub fn secret_key(&self, keychain: &ExtKeychain) -> (r: Result<SecretKey, String>)
        ensures
            r is Ok <==> is_key_or_zero(self@),
            r matches Ok(key) ==> key@ == self@,
            r matches Err(e) ==> e@ == "Secp(InvalidSecretKey)"@,
    {
        curve::blind_secret(keychain, self)
    }

    /// Whether this is the zero blinding factor.
    pub fn is_zero(&self) -> (r: bool)
        ensures
            r == (self@ == zero_blind()),
    {
        let mut i: usize = 0;
        while i < 32
            invariant
                i <= 32,
                forall|j: int| 0 <= j < i ==> self@[j] == 0,
            decreases 32 - i,
        {
            if self.bytes[i] != 0 {
                assert(self@[i as int] != zero_blind()[i as int]);
                return false;
            }
            i = i + 1;
        }
        assert(self@ =~= zero_blind());
        true
    }
}

/// The path of a key in the keychain: its depth, then four child numbers.
#[derive(Clone, Copy, Debug)]
pub struct Identifier {
    pub bytes: [u8; 17],
}

impl Identifier {
    /// The depth is at most the four child numbers that follow it.
    pub open spec fn wf(self) -> bool {
        self.bytes@[0] <= 4
    }
}

/// The kind of token that an output, an input or a kernel is about.
#[derive(Clone, Copy, Debug)]
pub struct TokenKey {
    pub bytes: [u8; 32],
}

impl View for TokenKey {
    type V = Seq<u8>;

    open spec fn view(&self) -> Seq<u8> {
        self.bytes@
    }
}

impl TokenKey {
    /// Whether two keys name the same token.
    pub fn same(&self, other: &TokenKey) -> (r: bool)
        ensures
            r == (self@ == other@),
    {
        let mut i: usize = 0;
        while i < 32
            invariant
                i <= 32,
                forall|j: int| 0 <= j < i ==> self@[j] == other@[j],
            decreases 32 - i,
        {
            if self.bytes[i] != other.bytes[i] {
                return false;
            }
            i = i + 1;
        }
        assert(self@ =~= other@);
        true
    }
}

} // verus!
