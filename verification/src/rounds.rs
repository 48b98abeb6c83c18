//! The rounds of a transaction: each participant first adds public keys, and
//! then, once all have done so, a partial signature.
use crate::curve;
use crate::error::{outcome, Error, ErrorView};
use crate::kernel::{fees_checked, fees_fit, message_made};
use crate::keys::{
    be_value, group_order, is_secret_key, zero_blind, BlindingFactor, Message, PublicKey, SecretKey,
    Signature, TokenKey,
};
use crate::participant::ParticipantData;
use crate::round_laws::{
    every_share_holds, messages_accepted_iff_all_hold, shares_accepted_iff_all_hold,
    sums_are_over_everybody,
};
use crate::slate::{Slate, SlateView};
use crate::transaction::{ElementCounts, TokenKernelFeatures};
use grin_keychain::ExtKeychain;
use vstd::arithmetic::power::pow;
use vstd::prelude::*;
use vstd::string::*;
use vstd::utf8::encode_utf8;

verus! {

// Messages of participants

/// The hash of a participant's message, which is what the participant signs.
pub open spec fn message_hash(text: Seq<char>) -> Seq<u8> {
    curve::blake2b_hash(32, seq![], encode_utf8(text))
}

/// Hashes a participant's message.
fn hash_message(text: &str) -> (r: Message)
    ensures
        r@ == message_hash(text@),
{
    let no_key: [u8; 0] = [];
    assert(no_key@ =~= seq![]);
    let digest = curve::blake2b_digest(32, &no_key, text.as_bytes());
    let mut bytes: [u8; 32] = [0u8; 32];
    let mut i: usize = 0;
    while i < 32
        invariant
            i <= 32,
            digest@.len() == 32,
            forall|j: int| 0 <= j < i ==> bytes@[j] == digest@[j],
        decreases 32 - i,
    {
        bytes[i] = digest[i];
        i = i + 1;
    }
    assert(bytes@ =~= digest@);
    Message { bytes }
}

/// What is wrong with the message of a participant, if anything is: there is a
/// message without a signature, or one whose signature does not hold.
pub open spec fn fault_of(p: ParticipantData, holds: bool) -> Option<Seq<char>> {
    if p.message is None {
        None
    } else if p.message_sig is None {
        Some("Optional participant messages doesn't have signature"@)
    } else if !holds {
        Some("Optional participant messages do not match signatures"@)
    } else {
        None
    }
}

/// Whether a participant signed the hash of the message that is there.
pub open spec fn message_signed(p: ParticipantData) -> bool {
    &&& p.message matches Some(text)
    &&& p.message_sig matches Some(sig)
    &&& curve::signature_valid(
        sig@,
        message_hash(text@),
        None,
        p.public_blind_excess@,
        Some(p.public_blind_excess@),
        false,
    )
}

/// What is wrong with the message of a participant.
pub open spec fn message_fault(p: ParticipantData) -> Option<Seq<char>> {
    fault_of(p, message_signed(p))
}

/// Judges the message of a participant, where it is known whether its signature
/// holds.
pub fn message_verdict(p: &ParticipantData, holds: bool) -> (r: Result<(), Error>)
    ensures
        outcome(r) == match fault_of(*p, holds) {
            Some(text) => Err::<(), ErrorView>(ErrorView::Signature(text)),
            None => Ok(()),
        },
{
    if p.message.is_none() {
        return Ok(());
    }
    if p.message_sig.is_none() {
        return Err(
            Error::Signature(
                String::from_str("Optional participant messages doesn't have signature"),
            ),
        );
    }
    if !holds {
        return Err(
            Error::Signature(
                String::from_str("Optional participant messages do not match signatures"),
            ),
        );
    }
    Ok(())
}

/// The outcome of checking the participants' messages in order: the first fault,
/// if there is one.
pub open spec fn messages_outcome(parts: Seq<ParticipantData>) -> Result<(), ErrorView>
    decreases parts.len(),
{
    if parts.len() == 0 {
        Ok(())
    } else {
        match messages_outcome(parts.drop_last()) {
            Err(e) => Err(e),
            Ok(_) => match message_fault(parts.last()) {
                Some(text) => Err(ErrorView::Signature(text)),
                None => Ok(()),
            },
        }
    }
}

// Sums of keys

/// The sum of the public nonces.
pub open spec fn nonce_total(parts: Seq<ParticipantData>) -> Option<Seq<u8>> {
    curve::key_sum(parts.map_values(|p: ParticipantData| p.public_nonce@))
}

/// The sum of the public blinding factors.
pub open spec fn blind_total(parts: Seq<ParticipantData>) -> Option<Seq<u8>> {
    curve::key_sum(parts.map_values(|p: ParticipantData| p.public_blind_excess@))
}

/// A sum as the outcome of taking it.
pub open spec fn sum_outcome(sum: Option<Seq<u8>>) -> Result<Seq<u8>, ErrorView> {
    match sum {
        Some(key) => Ok(key),
        None => Err(ErrorView::Secp("InvalidPublicKey"@)),
    }
}

/// What a key function gave, by its bytes or by its error.
pub open spec fn key_outcome(r: Result<PublicKey, Error>) -> Result<Seq<u8>, ErrorView> {
    match r {
        Ok(key) => Ok(key@),
        Err(e) => Err(e@),
    }
}

// Partial signatures

/// Whether all participants have signed.
pub open spec fn all_complete(parts: Seq<ParticipantData>) -> bool {
    forall|i: int| 0 <= i < parts.len() ==> (#[trigger] parts[i]).part_sig is Some
}

/// Whether a participant's partial signature, if there is one, holds.
pub open spec fn share_valid(
    p: ParticipantData,
    nonce_sum: Seq<u8>,
    blind_sum: Seq<u8>,
    msg: Seq<u8>,
) -> bool {
    p.part_sig matches Some(sig) ==> curve::signature_valid(
        sig@,
        msg,
        Some(nonce_sum),
        p.public_blind_excess@,
        Some(blind_sum),
        true,
    )
}

/// The outcome of verifying the partial signatures. The sums are only taken where
/// somebody has signed.
pub open spec fn shares_outcome(parts: Seq<ParticipantData>, msg: Seq<u8>) -> Result<
    (),
    ErrorView,
> {
    if forall|i: int| 0 <= i < parts.len() ==> (#[trigger] parts[i]).part_sig is None {
        Ok(())
    } else {
        match (sum_outcome(nonce_total(parts)), sum_outcome(blind_total(parts))) {
            (Err(e), _) => Err(e),
            (_, Err(e)) => Err(e),
            (Ok(nonce_sum), Ok(blind_sum)) => if forall|i: int|
                0 <= i < parts.len() ==> share_valid(
                    #[trigger] parts[i],
                    nonce_sum,
                    blind_sum,
                    msg,
                ) {
                Ok(())
            } else {
                Err(ErrorView::LibTx(curve::bad_signature()))
            },
        }
    }
}

/// Whether every partial signature that is there is an honest share.
pub open spec fn shares_honest(parts: Seq<ParticipantData>, msg: Seq<u8>) -> bool {
    &&& nonce_total(parts) matches Some(nonce_sum)
    &&& blind_total(parts) matches Some(blind_sum)
    &&& forall|i: int|
        0 <= i < parts.len() ==> match (#[trigger] parts[i]).part_sig {
            Some(sig) => curve::honest_share(
                sig@,
                nonce_sum,
                parts[i].public_blind_excess@,
                Some(blind_sum),
                msg,
            ),
            None => true,
        }
}

impl Slate {
    /// Verifies any messages in the slate's participant data match their signatures.
    pub fn verify_messages(&self) -> (r: Result<(), Error>)
        ensures
            outcome(r) == messages_outcome(self@.participant_data),
            r is Ok <==> forall|i: int|
                0 <= i < self@.participant_data.len() && (
                #[trigger] self@.participant_data[i]).message is Some ==> {
                    let p = self@.participant_data[i];
                    p.message_sig is Some && curve::signature_valid(
                        p.message_sig.unwrap()@,
                        curve::blake2b_hash(32, seq![], encode_utf8(p.message.unwrap()@)),
                        None,
                        p.public_blind_excess@,
                        Some(p.public_blind_excess@),
                        false,
                    )
                },
    {
        proof {
            messages_accepted_iff_all_hold(self@.participant_data);
        }
        let parts = &self.participant_data;
        let mut i: usize = 0;
        assert(parts@.take(0) =~= seq![]);
        while i < parts.len()
            invariant
                i <= parts@.len(),
                parts@ == self@.participant_data,
                messages_outcome(parts@.take(i as int)) is Ok,
            decreases parts@.len() - i,
        {
            assert(parts@.take(i + 1).drop_last() =~= parts@.take(i as int));
            let p = &parts[i];
            let holds = match (&p.message, &p.message_sig) {
                (Some(text), Some(sig)) => {
                    let msg = hash_message(text.as_str());
                    let key = &p.public_blind_excess;
                    curve::verify_single(sig, &msg, None, key, Some(key), false)
                },
                _ => false,
            };
            match message_verdict(p, holds) {
                Ok(_) => {},
                Err(e) => {
                    proof {
                        fault_is_first(parts@, i as int);
                    }
                    return Err(e);
                },
            }
            i = i + 1;
        }
        assert(parts@.take(i as int) =~= parts@);
        Ok(())
    }

    /// Returns the sum of public nonces, of all participants and in whatever order they
    /// stand.
    pub fn pub_nonce_sum(&self, keychain: &ExtKeychain) -> (r: Result<PublicKey, Error>)
        requires
            self@.participant_data.len() > 0,
        ensures
            key_outcome(r) == sum_outcome(nonce_total(self@.participant_data)),
            forall|other: Seq<ParticipantData>, order: Seq<int>| #[trigger]
                curve::reordered(self@.participant_data, other, order) ==> key_outcome(r)
                    == sum_outcome(nonce_total(other)),
    {
        let parts = &self.participant_data;
        let mut keys: Vec<PublicKey> = Vec::new();
        for i in 0..parts.len()
            invariant
                keys@.len() == i,
                parts@ == self@.participant_data,
                forall|j: int| 0 <= j < i ==> keys@[j] == (#[trigger] parts@[j]).public_nonce,
        {
            keys.push(parts[i].public_nonce);
        }
        assert(curve::key_bytes(keys@) =~= parts@.map_values(|p: ParticipantData| p.public_nonce@));
        assert forall|other: Seq<ParticipantData>, order: Seq<int>| #[trigger]
            curve::reordered(parts@, other, order) implies curve::reordered(
            curve::key_bytes(keys@),
            other.map_values(|p: ParticipantData| p.public_nonce@),
            order,
        ) by {
        }
        match curve::sum_keys(keychain, &keys) {
            Ok(sum) => Ok(sum),
            Err(text) => Err(Error::Secp(text)),
        }
    }

    /// Returns the sum of public blinding factors, of all participants and in whatever
    /// order they stand.
    pub fn pub_blind_sum(&self, keychain: &ExtKeychain) -> (r: Result<PublicKey, Error>)
        requires
            self@.participant_data.len() > 0,
        ensures
            key_outcome(r) == sum_outcome(blind_total(self@.participant_data)),
            forall|other: Seq<ParticipantData>, order: Seq<int>| #[trigger]
                curve::reordered(self@.participant_data, other, order) ==> key_outcome(r)
                    == sum_outcome(blind_total(other)),
    {
        let parts = &self.participant_data;
        let mut keys: Vec<PublicKey> = Vec::new();
        for i in 0..parts.len()
            invariant
                keys@.len() == i,
                parts@ == self@.participant_data,
                forall|j: int|
                    0 <= j < i ==> keys@[j] == (#[trigger] parts@[j]).public_blind_excess,
        {
            keys.push(parts[i].public_blind_excess);
        }
        assert(curve::key_bytes(keys@) =~= parts@.map_values(
            |p: ParticipantData| p.public_blind_excess@,
        ));
        assert forall|other: Seq<ParticipantData>, order: Seq<int>| #[trigger]
            curve::reordered(parts@, other, order) implies curve::reordered(
            curve::key_bytes(keys@),
            other.map_values(|p: ParticipantData| p.public_blind_excess@),
            order,
        ) by {
        }
        match curve::sum_keys(keychain, &keys) {
            Ok(sum) => Ok(sum),
            Err(text) => Err(Error::Secp(text)),
        }
    }

    /// Verifies all of the partial signatures in the slate are valid.
    pub fn verify_part_sigs(&self, keychain: &ExtKeychain, msg: &Message) -> (r: Result<
        (),
        Error,
    >)
        ensures
            outcome(r) == shares_outcome(self@.participant_data, msg@),
            r is Ok <==> forall|i: int|
                0 <= i < self@.participant_data.len() && (
                #[trigger] self@.participant_data[i]).part_sig is Some ==> {
                    let p = self@.participant_data[i];
                    let nonces = curve::key_sum(
                        self@.participant_data.map_values(|q: ParticipantData| q.public_nonce@),
                    );
                    let blinds = curve::key_sum(
                        self@.participant_data.map_values(
                            |q: ParticipantData| q.public_blind_excess@,
                        ),
                    );
                    nonces is Some && blinds is Some && curve::signature_valid(
                        p.part_sig.unwrap()@,
                        msg@,
                        nonces,
                        p.public_blind_excess@,
                        blinds,
                        true,
                    )
                },
            shares_honest(self@.participant_data, msg@) ==> r is Ok,
    {
        proof {
            shares_accepted_iff_all_hold(self@.participant_data, msg@);
            sums_are_over_everybody(self@.participant_data);
        }
        let parts = &self.participant_data;
        let mut i: usize = 0;
        while i < parts.len()
            invariant
                i <= parts@.len(),
                parts@ == self@.participant_data,
                shares_outcome(parts@, msg@) is Ok <==> every_share_holds(parts@, msg@),
                (exists|j: int| 0 <= j < i && (#[trigger] parts@[j]).part_sig is Some) ==> {
                    &&& nonce_total(parts@) matches Some(n)
                    &&& blind_total(parts@) matches Some(b)
                    &&& forall|j: int|
                        0 <= j < i ==> share_valid(#[trigger] parts@[j], n, b, msg@)
                },
            decreases parts@.len() - i,
        {
            if let Some(sig) = &parts[i].part_sig {
                assert(parts@[i as int].part_sig is Some);
                let nonce_sum = match self.pub_nonce_sum(keychain) {
                    Ok(sum) => sum,
                    Err(e) => return Err(e),
                };
                let blind_sum = match self.pub_blind_sum(keychain) {
                    Ok(sum) => sum,
                    Err(e) => return Err(e),
                };
                match curve::verify_partial_sig(
                    keychain,
                    sig,
                    &nonce_sum,
                    &parts[i].public_blind_excess,
                    Some(&blind_sum),
                    msg,
                ) {
                    Ok(_) => {},
                    Err(text) => {
                        assert(!share_valid(
                            parts@[i as int],
                            nonce_sum@,
                            blind_sum@,
                            msg@,
                        ));
                        return Err(Error::LibTx(text));
                    },
                }
            }
            i = i + 1;
        }
        Ok(())
    }
}

/// The first fault decides the outcome, whatever follows it.
proof fn fault_is_first(parts: Seq<ParticipantData>, i: int)
    requires
        0 <= i < parts.len(),
        messages_outcome(parts.take(i)) is Ok,
        message_fault(parts[i]) is Some,
    ensures
        messages_outcome(parts) == Err::<(), ErrorView>(
            ErrorView::Signature(message_fault(parts[i]).unwrap()),
        ),
    decreases parts.len(),
{
    if i == parts.len() - 1 {
        assert(parts.drop_last() =~= parts.take(i));
    } else {
        assert(parts.drop_last().take(i) =~= parts.take(i));
        fault_is_first(parts.drop_last(), i);
    }
}

// The first round

/// The secret nonce that messages are signed with in tests: 32 bytes of 1.
pub open spec fn test_nonce() -> Seq<u8> {
    Seq::new(32, |i: int| 1u8)
}

/// The offset that tests get: what a generator that starts at 1234567890 and
/// counts up by one yields first.
pub open spec fn test_offset() -> Seq<u8> {
    curve::step_bytes(1_234_567_890, 1)
}

/// Whether an offset was split off the secret key `key`: the transaction has the
/// offset, and what is left of the key is its difference from the offset. Where
/// nothing would be left the key stays as it was, and the transaction has the
/// offset all the same.
pub open spec fn offset_taken(
    s: SlateView,
    after: SlateView,
    key: Seq<u8>,
    left: Seq<u8>,
    offset: BlindingFactor,
    r: Result<(), ErrorView>,
) -> bool {
    let difference = (be_value(key) - be_value(offset@)) % (group_order() as int);
    match s.tx {
        None => r == Err::<(), ErrorView>(ErrorView::SlateTransactionRequired) && after == s && left
            == key,
        Some(tx) => {
            &&& after == s.with_tx(tx.with_offset(offset))
            &&& if difference == 0 {
                r == Err::<(), ErrorView>(ErrorView::Keychain("Secp(InvalidSecretKey)"@)) && left
                    == key
            } else {
                r == Ok::<(), ErrorView>(()) && is_secret_key(left) && be_value(left) == difference
            }
        },
    }
}

/// Whether some offset was split off the secret key, and in tests the test offset.
pub open spec fn offset_split(
    s: SlateView,
    after: SlateView,
    key: Seq<u8>,
    left: Seq<u8>,
    use_test_rng: bool,
    r: Result<(), ErrorView>,
) -> bool {
    exists|offset: BlindingFactor|
        {
            &&& is_secret_key(offset@)
            &&& use_test_rng ==> offset@ == test_offset()
            &&& #[trigger] offset_taken(s, after, key, left, offset, r)
        }
}

/// Whether the data of a participant is what a secret key, a secret nonce, an id
/// and a message make it.
pub open spec fn participant_made(
    p: ParticipantData,
    secret: Seq<u8>,
    nonce: Seq<u8>,
    id: u64,
    part_sig: Option<Signature>,
    message: Option<String>,
) -> bool {
    &&& p.id == id
    &&& p.public_blind_excess@ == curve::public_key_of(secret)
    &&& p.public_nonce@ == curve::public_key_of(nonce)
    &&& p.part_sig == part_sig
    &&& p.message == message
    &&& p.message_sig is Some <==> message is Some
    &&& message_fault(p) is None
}

/// Whether a participant was added to a slate, behind the others. In tests, the
/// signature of the message follows from the arguments.
pub open spec fn participant_added(
    s: SlateView,
    after: SlateView,
    secret: Seq<u8>,
    nonce: Seq<u8>,
    id: u64,
    part_sig: Option<Signature>,
    message: Option<String>,
    use_test_rng: bool,
) -> bool {
    exists|p: ParticipantData|
        {
            &&& #[trigger] participant_made(p, secret, nonce, id, part_sig, message)
            &&& after == SlateView { participant_data: s.participant_data.push(p), ..s }
            &&& message is Some && use_test_rng ==> p.message_sig.unwrap()@
                == curve::single_signature(
                message_hash(message.unwrap()@),
                secret,
                test_nonce(),
                Some(curve::public_key_of(secret)),
            )
        }
}

/// Whether a slate went through the first round of a participant: whoever comes
/// first splits off an offset, and then the public data is added, of the token
/// key where the slate has a token type and of what is left of the key otherwise.
pub open spec fn round_1_filled(
    s: SlateView,
    after: SlateView,
    key: Seq<u8>,
    left: Seq<u8>,
    token_key: Seq<u8>,
    nonce: Seq<u8>,
    id: u64,
    message: Option<String>,
    use_test_rng: bool,
    r: Result<(), ErrorView>,
) -> bool {
    let secret = if s.token_type is Some {
        token_key
    } else {
        left
    };
    match s.tx {
        None => r == Err::<(), ErrorView>(ErrorView::SlateTransactionRequired) && after == s && left
            == key,
        Some(tx) => if tx.offset@ == zero_blind() {
            ||| offset_split(s, after, key, left, use_test_rng, r) && r is Err
            ||| exists|split: SlateView| #[trigger]
                offset_split(s, split, key, left, use_test_rng, Ok(())) && participant_added(
                    split,
                    after,
                    secret,
                    nonce,
                    id,
                    None,
                    message,
                    use_test_rng,
                ) && r == Ok::<(), ErrorView>(())
        } else {
            r == Ok::<(), ErrorView>(()) && left == key && participant_added(
                s,
                after,
                secret,
                nonce,
                id,
                None,
                message,
                use_test_rng,
            )
        },
    }
}

/// What the first round needs of the keys: the nonce is not zero, and neither is
/// the key that is used. That is the token key where the slate has a token type.
/// Otherwise it is the other key, which may be zero where an offset is still to be
/// split off it. The key that is not used may be zero in any case.
pub open spec fn round_1_ready(
    s: SlateView,
    key: Seq<u8>,
    token_key: Seq<u8>,
    nonce: Seq<u8>,
) -> bool {
    s.tx matches Some(tx) ==> {
        &&& is_secret_key(nonce)
        &&& if s.token_type is Some {
            is_secret_key(token_key)
        } else {
            tx.offset@ == zero_blind() || is_secret_key(key)
        }
    }
}

impl Slate {
    /// Adds a participant's public keys to the slate data. A message is signed
    /// with the secret key.
    pub(crate) fn add_participant_info(
        &mut self,
        keychain: &ExtKeychain,
        sec_key: &SecretKey,
        sec_nonce: &SecretKey,
        id: usize,
        part_sig: Option<Signature>,
        message: Option<String>,
        use_test_rng: bool,
    ) -> (r: Result<(), Error>)
        requires
            is_secret_key(sec_key@),
            is_secret_key(sec_nonce@),
        ensures
            r is Ok,
            participant_added(
                old(self)@,
                final(self)@,
                sec_key@,
                sec_nonce@,
                id as u64,
                part_sig,
                message,
                use_test_rng,
            ),
    {
        // Add our public key and nonce to the slate
        let pub_key = curve::public_key(keychain, sec_key);
        let pub_nonce = curve::public_key(keychain, sec_nonce);

        let nonce_bytes: [u8; 32] = [1u8; 32];
        proof {
            assert(nonce_bytes@ =~= test_nonce());
            crate::keys::secret_key_by_first_byte(nonce_bytes@);
        }
        let test_message_nonce = SecretKey::from_slice(keychain, &nonce_bytes).unwrap();
        let message_nonce = if use_test_rng {
            Some(&test_message_nonce)
        } else {
            None
        };

        // Sign the provided message
        let message_sig = match &message {
            Some(text) => {
                let msg = hash_message(text.as_str());
                match curve::sign_single(keychain, &msg, sec_key, message_nonce, Some(&pub_key)) {
                    Ok(sig) => Some(sig),
                    Err(e) => return Err(Error::LibTx(e)),
                }
            },
            None => None,
        };
        let p = ParticipantData {
            id: id as u64,
            public_blind_excess: pub_key,
            public_nonce: pub_nonce,
            part_sig,
            message,
            message_sig,
        };
        assert(participant_made(p, sec_key@, sec_nonce@, id as u64, part_sig, message));
        self.participant_data.push(p);
        Ok(())
    }

    /// Somebody involved needs to generate an offset with their private key.
    /// For now, we'll have the transaction initiator be responsible for it.
    /// What is left of the private key is for the participant to use later in the
    /// transaction.
    pub fn generate_offset(
        &mut self,
        keychain: &ExtKeychain,
        sec_key: &mut SecretKey,
        use_test_rng: bool,
    ) -> (r: Result<(), Error>)
        ensures
            offset_split(
                old(self)@,
                final(self)@,
                old(sec_key)@,
                final(sec_key)@,
                use_test_rng,
                outcome(r),
            ),
    {
        // Generate a random kernel offset here
        // and subtract it from the blind_sum so we create
        // the aggsig context with the "split" key
        let offset = if use_test_rng {
            // allow for consistent test results
            proof {
                test_offset_is_key();
            }
            curve::step_secret_key(keychain, 1_234_567_890, 1)
        } else {
            curve::random_secret_key(keychain)
        };
        self.split_offset(keychain, sec_key, &offset)
    }

    /// Splits an offset off the private key.
    pub fn split_offset(
        &mut self,
        keychain: &ExtKeychain,
        sec_key: &mut SecretKey,
        offset: &SecretKey,
    ) -> (r: Result<(), Error>)
        ensures
            exists|blind: BlindingFactor|
                blind@ == offset@ && #[trigger] offset_taken(
                    old(self)@,
                    final(self)@,
                    old(sec_key)@,
                    final(sec_key)@,
                    blind,
                    outcome(r),
                ),
    {
        let blind = BlindingFactor::from_secret_key(offset);
        let tx = match self.tx_or_err_mut() {
            Ok(tx) => tx,
            Err(e) => {
                assert(offset_taken(
                    old(self)@,
                    old(self)@,
                    old(sec_key)@,
                    old(sec_key)@,
                    blind,
                    Err(e@),
                ));
                return Err(e);
            },
        };
        tx.offset = blind;
        assert(self@ == old(self)@.with_tx(old(self)@.tx.unwrap().with_offset(blind)));
        let r = match curve::blind_difference(keychain, sec_key, offset) {
            Ok(left) => {
                *sec_key = left;
                Ok(())
            },
            Err(text) => Err(Error::Keychain(text)),
        };
        assert(offset_taken(old(self)@, self@, old(sec_key)@, sec_key@, blind, outcome(r)));
        r
    }

    /// Completes callers part of round 1, adding public key info to the slate.
    pub fn fill_round_1(
        &mut self,
        keychain: &ExtKeychain,
        sec_key: &mut SecretKey,
        token_sec_key: &SecretKey,
        sec_nonce: &SecretKey,
        participant_id: usize,
        message: Option<String>,
        use_test_rng: bool,
    ) -> (r: Result<(), Error>)
        requires
            round_1_ready(old(self)@, old(sec_key)@, token_sec_key@, sec_nonce@),
        ensures
            round_1_filled(
                old(self)@,
                final(self)@,
                old(sec_key)@,
                final(sec_key)@,
                token_sec_key@,
                sec_nonce@,
                participant_id as u64,
                message,
                use_test_rng,
                outcome(r),
            ),
    {
        // Whoever does this first generates the offset
        let first = match self.tx_or_err() {
            Ok(tx) => tx.offset.is_zero(),
            Err(e) => return Err(e),
        };
        if first {
            match self.generate_offset(keychain, sec_key, use_test_rng) {
                Ok(_) => {},
                Err(e) => return Err(e),
            }
        }
        let key = match self.token_type {
            Some(_) => token_sec_key,
            None => &*sec_key,
        };
        self.add_participant_info(
            keychain,
            key,
            sec_nonce,
            participant_id,
            None,
            message,
            use_test_rng,
        )
    }
}

/// The offset that tests get is a secret key.
proof fn test_offset_is_key()
    ensures
        is_secret_key(test_offset()),
{
    reveal_with_fuel(pow, 1);
    assert(pow(256, 0) == 1);
    assert(test_offset()[0] == 0xD2);
    crate::keys::secret_key_by_first_byte(test_offset());
}

// The second round

/// Whether the `i`-th participant is the first with the given id.
pub open spec fn is_first(parts: Seq<ParticipantData>, i: int, id: u64) -> bool {
    &&& 0 <= i < parts.len()
    &&& parts[i].id == id
    &&& forall|j: int| 0 <= j < i ==> (#[trigger] parts[j]).id != id
}

/// Whether all participants have performed the first round.
pub open spec fn all_joined(s: SlateView) -> bool {
    s.num_participants <= s.participant_data.len()
}

impl SlateView {
    /// The slate with the partial signature of its `i`-th participant.
    pub open spec fn with_part_sig(self, i: int, sig: Signature) -> SlateView {
        let p = ParticipantData { part_sig: Some(sig), ..self.participant_data[i] };
        SlateView { participant_data: self.participant_data.update(i, p), ..self }
    }
}

/// Whether a partial signature was filled in: for the first participant with the
/// given id, and for nobody where there is none among the first
/// `num_participants`.
pub open spec fn part_sig_filled(
    s: SlateView,
    after: SlateView,
    id: u64,
    sig: Signature,
) -> bool {
    &&& forall|i: int| #[trigger]
        is_first(s.participant_data, i, id) && i < s.num_participants ==> after == s.with_part_sig(
            i,
            sig,
        )
    &&& (forall|i: int| #[trigger]
        is_first(s.participant_data, i, id) ==> i >= s.num_participants) ==> after == s
}

/// The partial signature that a secret key and a secret nonce make in the second
/// round, where all partial signatures that are there already hold.
pub open spec fn share_outcome(
    parts: Seq<ParticipantData>,
    secret: Seq<u8>,
    nonce: Seq<u8>,
    msg: Seq<u8>,
) -> Result<Seq<u8>, ErrorView> {
    match shares_outcome(parts, msg) {
        Err(e) => Err(e),
        Ok(_) => match (sum_outcome(nonce_total(parts)), sum_outcome(blind_total(parts))) {
            (Err(e), _) => Err(e),
            (_, Err(e)) => Err(e),
            (Ok(nonce_sum), Ok(blind_sum)) => Ok(
                curve::partial_signature(secret, nonce, nonce_sum, Some(blind_sum), msg),
            ),
        },
    }
}

/// Whether a partial signature holds under the public key of a secret key.
pub open spec fn share_holds(
    parts: Seq<ParticipantData>,
    secret: Seq<u8>,
    sig: Seq<u8>,
    msg: Seq<u8>,
) -> bool {
    curve::signature_valid(
        sig,
        msg,
        nonce_total(parts),
        curve::public_key_of(secret),
        blind_total(parts),
        true,
    )
}

/// The secret key that signs: the token key where the slate has a token type.
pub open spec fn signing_key(s: SlateView, key: Seq<u8>, token_key: Seq<u8>) -> Seq<u8> {
    if s.token_type is Some {
        token_key
    } else {
        key
    }
}

/// Whether all participants have performed the first round, the partial signatures
/// that are there hold, and another one was made on the message and filled in.
pub open spec fn share_filled(
    s: SlateView,
    after: SlateView,
    secret: Seq<u8>,
    nonce: Seq<u8>,
    id: u64,
    msg: Seq<u8>,
    r: Result<(), ErrorView>,
) -> bool {
    match share_outcome(s.participant_data, secret, nonce, msg) {
        Err(e) => r == Err::<(), ErrorView>(e) && after == s,
        Ok(bytes) => {
            &&& r == Ok::<(), ErrorView>(())
            &&& all_joined(s)
            &&& is_secret_key(secret) ==> share_holds(s.participant_data, secret, bytes, msg)
            &&& exists|sig: Signature|
                sig@ == bytes && #[trigger] part_sig_filled(s, after, id, sig)
        },
    }
}

/// Whether a slate went through the second round of a participant: the fees and
/// the partial signatures of the others were checked, and the participant's own
/// was filled in. Where something fails the slate stays as it was.
pub open spec fn round_2_filled<F, K, M>(
    s: SlateView,
    after: SlateView,
    secret: Seq<u8>,
    nonce: Seq<u8>,
    id: u64,
    tx_fee: F,
    token_key: K,
    token_msg: M,
    r: Result<(), ErrorView>,
) -> bool where
    F: Fn(ElementCounts) -> u64,
    K: Fn(&String) -> Result<TokenKey, Error>,
    M: Fn(TokenKernelFeatures, TokenKey) -> Result<Message, Error>,
 {
    ||| r is Err && after == s && fees_checked(s, tx_fee, r)
    ||| r is Err && after == s && fees_checked(s, tx_fee, Ok(())) && message_made(
        s,
        token_key,
        token_msg,
        Err(r->Err_0),
    )
    ||| fees_checked(s, tx_fee, Ok(())) && exists|msg: Seq<u8>| #[trigger]
        message_made(s, token_key, token_msg, Ok(msg)) && share_filled(
            s,
            after,
            secret,
            nonce,
            id,
            msg,
            r,
        )
}

/// What the second round needs of a slate once its fees are checked and there is
/// a message to sign: somebody whose keys can be summed, and before a partial
/// signature is made a nonce that is not zero, and everybody.
pub open spec fn round_2_ready<F, K, M>(
    s: SlateView,
    secret: Seq<u8>,
    nonce: Seq<u8>,
    tx_fee: F,
    token_key: K,
    token_msg: M,
) -> bool where
    F: Fn(ElementCounts) -> u64,
    K: Fn(&String) -> Result<TokenKey, Error>,
    M: Fn(TokenKernelFeatures, TokenKey) -> Result<Message, Error>,
 {
    forall|msg: Seq<u8>|
        fees_checked(s, tx_fee, Ok(())) && #[trigger] message_made(s, token_key, token_msg, Ok(msg))
            ==> {
            &&& s.participant_data.len() > 0
            &&& share_outcome(s.participant_data, secret, nonce, msg) is Ok ==> all_joined(s)
                && is_secret_key(nonce)
        }
}

impl Slate {
    /// Fills in the partial signature of a participant.
    pub fn set_part_sig(&mut self, participant_id: usize, sig: Signature)
        requires
            all_joined(old(self)@),
        ensures
            part_sig_filled(old(self)@, final(self)@, participant_id as u64, sig),
    {
        let mut i: usize = 0;
        while i < self.num_participants
            invariant
                all_joined(old(self)@),
                i <= self.num_participants,
                self@ == old(self)@,
                forall|j: int|
                    0 <= j < i ==> (#[trigger] self@.participant_data[j]).id
                        != participant_id as u64,
            decreases self.num_participants - i,
        {
            if self.participant_data[i].id == participant_id as u64 {
                assert(is_first(self@.participant_data, i as int, participant_id as u64));
                self.participant_data[i].part_sig = Some(sig);
                assert(self@ =~= old(self)@.with_part_sig(i as int, sig));
                return;
            }
            i = i + 1;
        }
    }

    /// Completes caller's part of round 2, completing signatures.
    pub fn fill_round_2<F, K, M>(
        &mut self,
        keychain: &ExtKeychain,
        sec_key: &SecretKey,
        token_sec_key: &SecretKey,
        sec_nonce: &SecretKey,
        participant_id: usize,
        tx_fee: &F,
        token_key: &K,
        token_msg: &M,
    ) -> (r: Result<(), Error>) where
        F: Fn(ElementCounts) -> u64,
        K: Fn(&String) -> Result<TokenKey, Error>,
        M: Fn(TokenKernelFeatures, TokenKey) -> Result<Message, Error>,

        requires
            forall|counts: ElementCounts| tx_fee.requires((counts,)),
            forall|t: &String| token_key.requires((t,)),
            forall|f: TokenKernelFeatures, k: TokenKey| token_msg.requires((f, k)),
            fees_fit(old(self)@, *tx_fee),
            round_2_ready(
                old(self)@,
                signing_key(old(self)@, sec_key@, token_sec_key@),
                sec_nonce@,
                *tx_fee,
                *token_key,
                *token_msg,
            ),
        ensures
            round_2_filled(
                old(self)@,
                final(self)@,
                signing_key(old(self)@, sec_key@, token_sec_key@),
                sec_nonce@,
                participant_id as u64,
                *tx_fee,
                *token_key,
                *token_msg,
                outcome(r),
            ),
    {
        match self.check_fees(tx_fee) {
            Ok(_) => {},
            Err(e) => return Err(e),
        }
        let msg = match self.signed_msg(token_key, token_msg) {
            Ok(msg) => msg,
            Err(e) => return Err(e),
        };
        assert(message_made(self@, *token_key, *token_msg, Ok(msg@)));
        let key = match self.token_type {
            Some(_) => token_sec_key,
            None => sec_key,
        };
        let sig_part = match self.round_2_share(keychain, key, sec_nonce, &msg) {
            Ok(sig) => sig,
            Err(e) => return Err(e),
        };
        self.set_part_sig(participant_id, sig_part);
        Ok(())
    }

    /// Checks the partial signatures that are there and makes another.
    fn round_2_share(
        &self,
        keychain: &ExtKeychain,
        key: &SecretKey,
        sec_nonce: &SecretKey,
        msg: &Message,
    ) -> (r: Result<Signature, Error>)
        requires
            self@.participant_data.len() > 0,
            share_outcome(self@.participant_data, key@, sec_nonce@, msg@) is Ok ==> is_secret_key(
                sec_nonce@,
            ),
        ensures
            signature_view(r) == share_outcome(self@.participant_data, key@, sec_nonce@, msg@),
            r matches Ok(sig) ==> (is_secret_key(key@) ==> share_holds(
                self@.participant_data,
                key@,
                sig@,
                msg@,
            )),
    {
        match self.verify_part_sigs(keychain, msg) {
            Ok(_) => {},
            Err(e) => return Err(e),
        }
        let nonce_sum = match self.pub_nonce_sum(keychain) {
            Ok(sum) => sum,
            Err(e) => return Err(e),
        };
        let blind_sum = match self.pub_blind_sum(keychain) {
            Ok(sum) => sum,
            Err(e) => return Err(e),
        };
        match curve::calculate_partial_sig(
            keychain,
            key,
            sec_nonce,
            &nonce_sum,
            Some(&blind_sum),
            msg,
        ) {
            Ok(sig) => Ok(sig),
            Err(text) => Err(Error::LibTx(text)),
        }
    }

    /// Completes caller's part of round 2 where all participants have performed
    /// round 1 and the nonce is not zero. Otherwise the slate stays as it was, and
    /// nothing is returned.
    pub fn try_fill_round_2<F, K, M>(
        &mut self,
        keychain: &ExtKeychain,
        sec_key: &SecretKey,
        token_sec_key: &SecretKey,
        sec_nonce: &SecretKey,
        participant_id: usize,
        tx_fee: &F,
        token_key: &K,
        token_msg: &M,
    ) -> (r: Option<Result<(), Error>>) where
        F: Fn(ElementCounts) -> u64,
        K: Fn(&String) -> Result<TokenKey, Error>,
        M: Fn(TokenKernelFeatures, TokenKey) -> Result<Message, Error>,

        requires
            forall|counts: ElementCounts| tx_fee.requires((counts,)),
            forall|t: &String| token_key.requires((t,)),
            forall|f: TokenKernelFeatures, k: TokenKey| token_msg.requires((f, k)),
            fees_fit(old(self)@, *tx_fee),
        ensures
            r is Some <==> old(self)@.participant_data.len() > 0 && all_joined(old(self)@)
                && is_secret_key(sec_nonce@),
            r is None ==> *final(self) == *old(self),
            r matches Some(filled) ==> round_2_filled(
                old(self)@,
                final(self)@,
                signing_key(old(self)@, sec_key@, token_sec_key@),
                sec_nonce@,
                participant_id as u64,
                *tx_fee,
                *token_key,
                *token_msg,
                outcome(filled),
            ),
    {
        let joined: usize = self.participant_data.len();
        if joined > 0 && self.num_participants <= joined && !sec_nonce.is_zero() {
            Some(
                self.fill_round_2(
                    keychain,
                    sec_key,
                    token_sec_key,
                    sec_nonce,
                    participant_id,
                    tx_fee,
                    token_key,
                    token_msg,
                ),
            )
        } else {
            None
        }
    }
}

/// What a signature function gave, by its bytes or by its error.
pub open spec fn signature_view(r: Result<Signature, Error>) -> Result<Seq<u8>, ErrorView> {
    match r {
        Ok(sig) => Ok(sig@),
        Err(e) => Err(e@),
    }
}

} // verus!
