//! What the two rounds check and change: messages, partial signatures, keys and
//! offsets.
use crate::curve;
use crate::error::{Error, ErrorView};
use crate::kernel::{fees_checked, message_made};
use crate::keys::{
    be_value, group_order, is_secret_key, BlindingFactor, Message, Signature, TokenKey,
};
use crate::participant::ParticipantData;
use crate::rounds::{
    all_complete, all_joined, blind_total, fault_of, is_first, message_fault, messages_outcome,
    nonce_total, offset_split, offset_taken, part_sig_filled, participant_added, participant_made,
    round_1_filled, round_2_filled, share_filled, share_outcome, share_valid, shares_outcome,
    signing_key, test_offset,
};
use crate::slate::SlateView;
use crate::transaction::{ElementCounts, TokenKernelFeatures};
use crate::transaction_laws::same_but_tx;
use vstd::arithmetic::power::pow;
use vstd::prelude::*;
use vstd::utf8::encode_utf8;

verus! {

// Messages

/// Whether the message of a participant is in order: there is none, or there is a
/// signature on its hash that holds under the participant's public blinding factor.
pub open spec fn message_in_order(p: ParticipantData) -> bool {
    p.message matches Some(text) ==> (p.message_sig matches Some(sig) && curve::signature_valid(
        sig@,
        curve::blake2b_hash(32, Seq::<u8>::empty(), encode_utf8(text@)),
        None,
        p.public_blind_excess@,
        Some(p.public_blind_excess@),
        false,
    ))
}

/// The messages are accepted if and only if that of every participant is in order,
/// whoever it is. Otherwise the first that is not decides the error: it has no
/// signature, or one that does not hold.
pub proof fn messages_accepted_iff_all_signed(parts: Seq<ParticipantData>)
    ensures
        messages_outcome(parts) is Ok <==> forall|i: int|
            0 <= i < parts.len() ==> message_in_order(#[trigger] parts[i]),
        messages_outcome(parts) matches Err(e) ==> exists|i: int|
            {
                &&& 0 <= i < parts.len()
                &&& !message_in_order(#[trigger] parts[i])
                &&& forall|j: int| 0 <= j < i ==> message_in_order(#[trigger] parts[j])
                &&& parts[i].message_sig is None ==> e == ErrorView::Signature(
                    "Optional participant messages doesn't have signature"@,
                )
                &&& parts[i].message_sig is Some ==> e == ErrorView::Signature(
                    "Optional participant messages do not match signatures"@,
                )
            },
    decreases parts.len(),
{
    if parts.len() > 0 {
        let rest = parts.drop_last();
        messages_accepted_iff_all_signed(rest);
        assert(parts.last() == parts[parts.len() - 1]);
        assert(forall|i: int| 0 <= i < rest.len() ==> rest[i] == parts[i]);
        one_message_judged(parts.last());
        if messages_outcome(rest) is Ok {
            assert forall|i: int| 0 <= i < rest.len() implies message_in_order(
                #[trigger] parts[i],
            ) by {
                assert(message_in_order(rest[i]));
            }
            if messages_outcome(parts) is Err {
                assert(!message_in_order(parts[parts.len() - 1]));
            }
        } else {
            let e = messages_outcome(rest)->Err_0;
            let i = choose|i: int|
                {
                    &&& 0 <= i < rest.len()
                    &&& !message_in_order(#[trigger] rest[i])
                    &&& forall|j: int| 0 <= j < i ==> message_in_order(#[trigger] rest[j])
                    &&& rest[i].message_sig is None ==> e == ErrorView::Signature(
                        "Optional participant messages doesn't have signature"@,
                    )
                    &&& rest[i].message_sig is Some ==> e == ErrorView::Signature(
                        "Optional participant messages do not match signatures"@,
                    )
                };
            assert(!message_in_order(parts[i]));
            assert forall|j: int| 0 <= j < i implies message_in_order(#[trigger] parts[j]) by {
                assert(message_in_order(rest[j]));
            }
        }
    }
}

/// The messages are accepted if and only if every message that there is has a signature
/// by its participant on its hash, whoever the participant is.
pub proof fn messages_accepted_iff_all_hold(parts: Seq<ParticipantData>)
    ensures
        messages_outcome(parts) is Ok <==> forall|i: int|
            0 <= i < parts.len() && (#[trigger] parts[i]).message is Some ==> parts[i].message_sig
                is Some && curve::signature_valid(
                parts[i].message_sig.unwrap()@,
                curve::blake2b_hash(32, seq![], encode_utf8(parts[i].message.unwrap()@)),
                None,
                parts[i].public_blind_excess@,
                Some(parts[i].public_blind_excess@),
                false,
            ),
{
    messages_accepted_iff_all_signed(parts);
    if messages_outcome(parts) is Ok {
        assert(forall|i: int| 0 <= i < parts.len() ==> message_in_order(#[trigger] parts[i]));
    }
}

/// Who the participants are does not matter to what is judged: with other ids, the
/// messages, the sums, the partial signatures and the share of the next signer come out
/// the same.
pub proof fn ids_do_not_matter(
    parts: Seq<ParticipantData>,
    others: Seq<ParticipantData>,
    secret: Seq<u8>,
    nonce: Seq<u8>,
    msg: Seq<u8>,
)
    requires
        parts.len() == others.len(),
        forall|i: int|
            0 <= i < parts.len() ==> (#[trigger] others[i]) == (ParticipantData {
                id: others[i].id,
                ..parts[i]
            }),
    ensures
        messages_outcome(parts) == messages_outcome(others),
        nonce_total(parts) == nonce_total(others),
        blind_total(parts) == blind_total(others),
        shares_outcome(parts, msg) == shares_outcome(others, msg),
        share_outcome(parts, secret, nonce, msg) == share_outcome(others, secret, nonce, msg),
        all_complete(parts) == all_complete(others),
{
    messages_without_ids(parts, others);
    assert(parts.map_values(|p: ParticipantData| p.public_nonce@) =~= others.map_values(
        |p: ParticipantData| p.public_nonce@,
    ));
    assert(parts.map_values(|p: ParticipantData| p.public_blind_excess@) =~= others.map_values(
        |p: ParticipantData| p.public_blind_excess@,
    ));
    assert(forall|i: int|
        0 <= i < parts.len() ==> (#[trigger] parts[i]).part_sig == others[i].part_sig);
    assert(forall|i: int, n: Seq<u8>, b: Seq<u8>|
        0 <= i < parts.len() ==> #[trigger] share_valid(parts[i], n, b, msg) == share_valid(
            others[i],
            n,
            b,
            msg,
        ));
    if nonce_total(parts) is Some && blind_total(parts) is Some {
        let n = nonce_total(parts).unwrap();
        let b = blind_total(parts).unwrap();
        assert((forall|i: int|
            0 <= i < parts.len() ==> share_valid(#[trigger] parts[i], n, b, msg)) ==> (forall|
            i: int,
        |
            0 <= i < others.len() ==> share_valid(#[trigger] others[i], n, b, msg))) by {
            if forall|i: int| 0 <= i < parts.len() ==> share_valid(#[trigger] parts[i], n, b, msg) {
                assert forall|i: int| 0 <= i < others.len() implies share_valid(
                    #[trigger] others[i],
                    n,
                    b,
                    msg,
                ) by {
                    assert(share_valid(parts[i], n, b, msg));
                }
            }
        }
        assert((forall|i: int|
            0 <= i < others.len() ==> share_valid(#[trigger] others[i], n, b, msg)) ==> (forall|
            i: int,
        |
            0 <= i < parts.len() ==> share_valid(#[trigger] parts[i], n, b, msg))) by {
            if forall|i: int|
                0 <= i < others.len() ==> share_valid(#[trigger] others[i], n, b, msg) {
                assert forall|i: int| 0 <= i < parts.len() implies share_valid(
                    #[trigger] parts[i],
                    n,
                    b,
                    msg,
                ) by {
                    assert(share_valid(others[i], n, b, msg));
                }
            }
        }
    }
}

proof fn messages_without_ids(parts: Seq<ParticipantData>, others: Seq<ParticipantData>)
    requires
        parts.len() == others.len(),
        forall|i: int|
            0 <= i < parts.len() ==> (#[trigger] others[i]) == (ParticipantData {
                id: others[i].id,
                ..parts[i]
            }),
    ensures
        messages_outcome(parts) == messages_outcome(others),
    decreases parts.len(),
{
    if parts.len() > 0 {
        messages_without_ids(parts.drop_last(), others.drop_last());
        assert(others.last() == others[parts.len() - 1]);
        assert(message_fault(parts.last()) == message_fault(others.last()));
    }
}

/// A message is at fault if and only if it is not in order, and the fault says whether
/// the signature is missing.
pub proof fn one_message_judged(p: ParticipantData)
    ensures
        message_fault(p) is None <==> message_in_order(p),
        !message_in_order(p) && p.message_sig is None ==> message_fault(p) == Some(
            "Optional participant messages doesn't have signature"@,
        ),
        !message_in_order(p) && p.message_sig is Some ==> message_fault(p) == Some(
            "Optional participant messages do not match signatures"@,
        ),
{
}

/// Where it is known whether a signature holds, a message is at fault without a
/// signature or with one that does not hold, and a participant without a message never
/// is.
pub proof fn verdict_follows_signature(p: ParticipantData, holds: bool)
    ensures
        p.message is None ==> fault_of(p, holds) is None,
        p.message is Some && p.message_sig is None ==> fault_of(p, holds) == Some(
            "Optional participant messages doesn't have signature"@,
        ),
        p.message is Some && p.message_sig is Some && !holds ==> fault_of(p, holds) == Some(
            "Optional participant messages do not match signatures"@,
        ),
        p.message is Some && p.message_sig is Some && holds ==> fault_of(p, holds) is None,
{
}

// Sums and shares

/// The sums are over everybody: the public nonces of all participants, and the public
/// blinding factors of all participants.
pub proof fn sums_are_over_everybody(parts: Seq<ParticipantData>)
    ensures
        nonce_total(parts) == curve::key_sum(
            Seq::new(parts.len(), |i: int| parts[i].public_nonce@),
        ),
        blind_total(parts) == curve::key_sum(
            Seq::new(parts.len(), |i: int| parts[i].public_blind_excess@),
        ),
{
    assert(Seq::new(parts.len(), |i: int| parts[i].public_nonce@) =~= parts.map_values(
        |p: ParticipantData| p.public_nonce@,
    ));
    assert(Seq::new(parts.len(), |i: int| parts[i].public_blind_excess@) =~= parts.map_values(
        |p: ParticipantData| p.public_blind_excess@,
    ));
}

/// Whether every partial signature that is there holds, whoever made it: under the
/// participant's own public blinding factor, with the sums over everybody.
pub open spec fn every_share_holds(parts: Seq<ParticipantData>, msg: Seq<u8>) -> bool {
    let nonces = curve::key_sum(Seq::new(parts.len(), |i: int| parts[i].public_nonce@));
    let blinds = curve::key_sum(Seq::new(parts.len(), |i: int| parts[i].public_blind_excess@));
    forall|i: int|
        0 <= i < parts.len() && (#[trigger] parts[i]).part_sig is Some ==> {
            &&& nonces is Some
            &&& blinds is Some
            &&& curve::signature_valid(
                parts[i].part_sig.unwrap()@,
                msg,
                nonces,
                parts[i].public_blind_excess@,
                blinds,
                true,
            )
        }
}

/// The partial signatures are accepted if and only if every one that is there holds.
/// Otherwise the error is that of a sum which cannot be taken, the nonces first, or
/// that of a signature.
pub proof fn shares_accepted_iff_all_hold(parts: Seq<ParticipantData>, msg: Seq<u8>)
    ensures
        shares_outcome(parts, msg) is Ok <==> every_share_holds(parts, msg),
        shares_outcome(parts, msg) matches Err(e) ==> e == (if nonce_total(parts) is None
            || blind_total(parts) is None {
            ErrorView::Secp("InvalidPublicKey"@)
        } else {
            ErrorView::LibTx("Signature(\"Signature validation error\")"@)
        }),
{
    sums_are_over_everybody(parts);
    if shares_outcome(parts, msg) is Ok {
        assert forall|i: int|
            0 <= i < parts.len() && (#[trigger] parts[i]).part_sig is Some implies {
            &&& nonce_total(parts) is Some
            &&& blind_total(parts) is Some
            &&& curve::signature_valid(
                parts[i].part_sig.unwrap()@,
                msg,
                nonce_total(parts),
                parts[i].public_blind_excess@,
                blind_total(parts),
                true,
            )
        } by {
            assert(share_valid(
                parts[i],
                nonce_total(parts).unwrap(),
                blind_total(parts).unwrap(),
                msg,
            ));
        }
        assert(every_share_holds(parts, msg));
    } else {
        let i = choose|i: int| 0 <= i < parts.len() && (#[trigger] parts[i]).part_sig is Some && (
        nonce_total(parts) is Some && blind_total(parts) is Some ==> !share_valid(
            parts[i],
            nonce_total(parts).unwrap(),
            blind_total(parts).unwrap(),
            msg,
        ));
        assert(parts[i].part_sig is Some);
    }
}

/// One partial signature that does not hold is enough to refuse them all, whoever made
/// it and whatever the others are.
pub proof fn one_bad_share_is_refused(parts: Seq<ParticipantData>, msg: Seq<u8>, i: int)
    requires
        0 <= i < parts.len(),
        parts[i].part_sig is Some,
        !curve::signature_valid(
            parts[i].part_sig.unwrap()@,
            msg,
            curve::key_sum(Seq::new(parts.len(), |k: int| parts[k].public_nonce@)),
            parts[i].public_blind_excess@,
            curve::key_sum(Seq::new(parts.len(), |k: int| parts[k].public_blind_excess@)),
            true,
        ),
    ensures
        shares_outcome(parts, msg) is Err,
{
    shares_accepted_iff_all_hold(parts, msg);
    assert(parts[i].part_sig is Some);
}

/// One message whose signature does not hold, or is not there, is enough to refuse them
/// all, whoever left it and whatever the others are.
pub proof fn one_bad_message_is_refused(parts: Seq<ParticipantData>, i: int)
    requires
        0 <= i < parts.len(),
        parts[i].message is Some,
        parts[i].message_sig is Some ==> !curve::signature_valid(
            parts[i].message_sig.unwrap()@,
            curve::blake2b_hash(32, seq![], encode_utf8(parts[i].message.unwrap()@)),
            None,
            parts[i].public_blind_excess@,
            Some(parts[i].public_blind_excess@),
            false,
        ),
    ensures
        messages_outcome(parts) is Err,
{
    messages_accepted_iff_all_hold(parts);
    assert(parts[i].message is Some);
}

/// All are complete if and only if each has a partial signature, and all have joined
/// if and only if there are as many as were intended.
pub proof fn complete_and_joined(s: SlateView)
    ensures
        all_complete(s.participant_data) <==> (forall|i: int|
            0 <= i < s.participant_data.len() ==> (
            #[trigger] s.participant_data[i]).part_sig is Some),
        all_joined(s) <==> s.participant_data.len() >= s.num_participants,
{
}

// The first round

/// The test offset is counted up from 1234567890 in words of eight bytes, the lowest
/// byte of each first.
pub proof fn test_offset_counts_up(i: int)
    requires
        0 <= i < 32,
    ensures
        test_offset().len() == 32,
        test_offset()[i] == (1_234_567_890 + i / 8) / pow(256, (i % 8) as nat) % 256,
{
    assert((1_234_567_890int + 1) % 0x1_0000_0000_0000_0000 == 1_234_567_891);
    let p = pow(256, (i % 8) as nat);
    vstd::arithmetic::power::lemma_pow_positive(256, (i % 8) as nat);
    let word = 1_234_567_890 + i / 8;
    assert(0 <= word / p % 256 < 256);
    if i < 8 {
    } else if i < 16 {
        assert(i % 8 == i - 8);
    } else if i < 24 {
        assert(i % 8 == i - 16);
    } else {
        assert(i % 8 == i - 24);
    }
}

/// Splitting off an offset makes it the transaction's offset and changes nothing else
/// of the slate; the key that is left and the offset add up to the key. Where that
/// would leave nothing the key is kept, and that is the error.
pub proof fn offset_is_split_off(
    s: SlateView,
    after: SlateView,
    key: Seq<u8>,
    left: Seq<u8>,
    offset: BlindingFactor,
    r: Result<(), ErrorView>,
)
    requires
        offset_taken(s, after, key, left, offset, r),
    ensures
        same_but_tx(s, after),
        s.tx is None ==> after == s && left == key && r == Err::<(), ErrorView>(
            ErrorView::SlateTransactionRequired,
        ),
        s.tx matches Some(tx) ==> {
            &&& after.tx is Some
            &&& after.tx.unwrap().offset == offset
            &&& after.tx.unwrap().body == tx.body
            &&& r is Ok <==> (be_value(key) - be_value(offset@)) % (group_order() as int) != 0
            &&& r is Ok ==> is_secret_key(left) && be_value(left) == (be_value(key) - be_value(
                offset@,
            )) % (group_order() as int)
            &&& r is Err ==> left == key && r == Err::<(), ErrorView>(
                ErrorView::Keychain("Secp(InvalidSecretKey)"@),
            )
        },
{
}

/// A generated offset is split off in that way: some secret key, and the test offset in
/// tests.
pub proof fn generated_offset_is_a_key(
    s: SlateView,
    after: SlateView,
    key: Seq<u8>,
    left: Seq<u8>,
    use_test_rng: bool,
    r: Result<(), ErrorView>,
)
    requires
        offset_split(s, after, key, left, use_test_rng, r),
    ensures
        same_but_tx(s, after),
        s.tx is None ==> after == s && left == key && r == Err::<(), ErrorView>(
            ErrorView::SlateTransactionRequired,
        ),
        s.tx matches Some(tx) ==> {
            &&& after.tx is Some
            &&& after.tx.unwrap().body == tx.body
            &&& is_secret_key(after.tx.unwrap().offset@)
            &&& use_test_rng ==> after.tx.unwrap().offset@ == test_offset()
            &&& r is Ok <==> (be_value(key) - be_value(after.tx.unwrap().offset@)) % (
            group_order() as int) != 0
            &&& r is Ok ==> is_secret_key(left) && be_value(left) == (be_value(key) - be_value(
                after.tx.unwrap().offset@,
            )) % (group_order() as int)
            &&& r is Err ==> left == key && r == Err::<(), ErrorView>(
                ErrorView::Keychain("Secp(InvalidSecretKey)"@),
            )
        },
{
    let offset = choose|offset: BlindingFactor|
        {
            &&& is_secret_key(offset@)
            &&& use_test_rng ==> offset@ == test_offset()
            &&& #[trigger] offset_taken(s, after, key, left, offset, r)
        };
    offset_is_split_off(s, after, key, left, offset, r);
}

/// Whether a participant's data are those of a secret key, a nonce, an id and a message:
/// the public keys are those of the secrets, and a message, and only a message, comes
/// with a signature on its hash by the secret key.
pub open spec fn participant_fits(
    p: ParticipantData,
    secret: Seq<u8>,
    nonce: Seq<u8>,
    id: u64,
    part_sig: Option<Signature>,
    message: Option<String>,
    use_test_rng: bool,
) -> bool {
    &&& p.id == id
    &&& p.public_blind_excess@ == curve::public_key_of(secret)
    &&& p.public_nonce@ == curve::public_key_of(nonce)
    &&& p.part_sig == part_sig
    &&& p.message == message
    &&& message is None ==> p.message_sig is None
    &&& message matches Some(text) ==> {
        let hash = curve::blake2b_hash(32, Seq::<u8>::empty(), encode_utf8(text@));
        let key = curve::public_key_of(secret);
        &&& p.message_sig is Some
        &&& curve::signature_valid(p.message_sig.unwrap()@, hash, None, key, Some(key), false)
        &&& use_test_rng ==> p.message_sig.unwrap()@ == curve::single_signature(
            hash,
            secret,
            Seq::new(32, |i: int| 1u8),
            Some(key),
        )
    }
}

/// Adding a participant puts one who fits behind the others, and changes nothing else.
pub proof fn added_participant_fits(
    s: SlateView,
    after: SlateView,
    secret: Seq<u8>,
    nonce: Seq<u8>,
    id: u64,
    part_sig: Option<Signature>,
    message: Option<String>,
    use_test_rng: bool,
)
    requires
        participant_added(s, after, secret, nonce, id, part_sig, message, use_test_rng),
    ensures
        after.tx == s.tx,
        same_but_tx(
            s,
            (SlateView { participant_data: s.participant_data, ..after }),
        ),
        after.participant_data.len() == s.participant_data.len() + 1,
        forall|i: int|
            0 <= i < s.participant_data.len() ==> #[trigger] after.participant_data[i]
                == s.participant_data[i],
        participant_fits(
            after.participant_data[s.participant_data.len() as int],
            secret,
            nonce,
            id,
            part_sig,
            message,
            use_test_rng,
        ),
{
    assert(Seq::new(32, |i: int| 1u8) =~= crate::rounds::test_nonce());
    let p = choose|p: ParticipantData|
        {
            &&& #[trigger] participant_made(p, secret, nonce, id, part_sig, message)
            &&& after == SlateView { participant_data: s.participant_data.push(p), ..s }
            &&& message is Some && use_test_rng ==> p.message_sig.unwrap()@
                == curve::single_signature(
                crate::rounds::message_hash(message.unwrap()@),
                secret,
                crate::rounds::test_nonce(),
                Some(curve::public_key_of(secret)),
            )
        };
    one_message_judged(p);
    assert(after.participant_data[s.participant_data.len() as int] == p);
}

/// The first round as a whole. It succeeds where there is an offset already, and then
/// leaves the key alone. Where there is none it splits one off, and fails only where
/// that does. A participant is added if and only if it succeeds: with the token key
/// where the slate has a token type, with what is left of the key otherwise, and without
/// a partial signature. Nothing else of the slate changes.
pub proof fn round_1_as_a_whole(
    s: SlateView,
    after: SlateView,
    key: Seq<u8>,
    left: Seq<u8>,
    token_key: Seq<u8>,
    nonce: Seq<u8>,
    id: u64,
    message: Option<String>,
    use_test_rng: bool,
    r: Result<(), ErrorView>,
)
    requires
        round_1_filled(s, after, key, left, token_key, nonce, id, message, use_test_rng, r),
    ensures
        same_but_tx(s, (SlateView { participant_data: s.participant_data, ..after })),
        s.tx is None ==> after == s && left == key && r == Err::<(), ErrorView>(
            ErrorView::SlateTransactionRequired,
        ),
        r is Err ==> after.participant_data == s.participant_data,
        s.tx matches Some(tx) ==> {
            let none = tx.offset@.len() == 32 && forall|i: int|
                0 <= i < 32 ==> #[trigger] tx.offset@[i] == 0;
            &&& after.tx is Some
            &&& after.tx.unwrap().body == tx.body
            &&& !none ==> r is Ok && left == key && after.tx == s.tx
            &&& none ==> {
                let offset = after.tx.unwrap().offset@;
                let difference = (be_value(key) - be_value(offset)) % (group_order() as int);
                &&& is_secret_key(offset)
                &&& use_test_rng ==> offset == test_offset()
                &&& r is Ok <==> difference != 0
                &&& r is Ok ==> is_secret_key(left) && be_value(left) == difference
                &&& r is Err ==> left == key && r == Err::<(), ErrorView>(
                    ErrorView::Keychain("Secp(InvalidSecretKey)"@),
                )
            }
            &&& r is Ok ==> {
                &&& after.participant_data.len() == s.participant_data.len() + 1
                &&& forall|i: int|
                    0 <= i < s.participant_data.len() ==> #[trigger] after.participant_data[i]
                        == s.participant_data[i]
                &&& participant_fits(
                    after.participant_data[s.participant_data.len() as int],
                    if s.token_type is Some {
                        token_key
                    } else {
                        left
                    },
                    nonce,
                    id,
                    None,
                    message,
                    use_test_rng,
                )
            }
        },
{
    if let Some(tx) = s.tx {
        let none = tx.offset@.len() == 32 && forall|i: int|
            0 <= i < 32 ==> #[trigger] tx.offset@[i] == 0;
        if none {
            assert(tx.offset@ =~= crate::keys::zero_blind());
        } else {
            assert(tx.offset@ != crate::keys::zero_blind());
        }
        let secret = if s.token_type is Some {
            token_key
        } else {
            left
        };
        if !none {
            added_participant_fits(s, after, secret, nonce, id, None, message, use_test_rng);
        } else if r is Err {
            generated_offset_is_a_key(s, after, key, left, use_test_rng, r);
        } else {
            let split = choose|split: SlateView| #[trigger]
                offset_split(s, split, key, left, use_test_rng, Ok(())) && participant_added(
                    split,
                    after,
                    secret,
                    nonce,
                    id,
                    None,
                    message,
                    use_test_rng,
                );
            generated_offset_is_a_key(s, split, key, left, use_test_rng, Ok(()));
            added_participant_fits(split, after, secret, nonce, id, None, message, use_test_rng);
        }
    }
}

// The second round

/// A participant is the first with an id if it has the id and nobody before it has.
pub proof fn first_with_an_id(parts: Seq<ParticipantData>, i: int, id: u64)
    ensures
        is_first(parts, i, id) <==> 0 <= i < parts.len() && parts[i].id == id && (forall|j: int|
            0 <= j < i ==> (#[trigger] parts[j]).id != id),
{
}

/// A partial signature is filled in for the first participant with the id, among as many
/// as are intended, and nothing else changes.
pub proof fn part_sig_goes_to_its_owner(
    s: SlateView,
    after: SlateView,
    id: u64,
    sig: Signature,
    i: int,
)
    requires
        part_sig_filled(s, after, id, sig),
        0 <= i < s.participant_data.len(),
        s.participant_data[i].id == id,
        forall|j: int| 0 <= j < i ==> (#[trigger] s.participant_data[j]).id != id,
        i < s.num_participants,
    ensures
        after.tx == s.tx,
        same_but_tx(s, (SlateView { participant_data: s.participant_data, ..after })),
        after.participant_data.len() == s.participant_data.len(),
        after.participant_data[i].part_sig == Some(sig),
        after.participant_data[i].id == id,
        after.participant_data[i].public_blind_excess == s.participant_data[i].public_blind_excess,
        after.participant_data[i].public_nonce == s.participant_data[i].public_nonce,
        after.participant_data[i].message == s.participant_data[i].message,
        after.participant_data[i].message_sig == s.participant_data[i].message_sig,
        forall|j: int|
            0 <= j < s.participant_data.len() && j != i ==> #[trigger] after.participant_data[j]
                == s.participant_data[j],
{
    assert(is_first(s.participant_data, i, id));
}

/// Where nobody among as many as are intended has the id, nothing changes.
pub proof fn part_sig_without_owner_is_dropped(
    s: SlateView,
    after: SlateView,
    id: u64,
    sig: Signature,
)
    requires
        part_sig_filled(s, after, id, sig),
        forall|j: int|
            0 <= j < s.participant_data.len() && j < s.num_participants ==> (
            #[trigger] s.participant_data[j]).id != id,
    ensures
        after == s,
{
    assert forall|i: int| #[trigger] is_first(s.participant_data, i, id) implies i
        >= s.num_participants by {
        assert(s.participant_data[i].id == id);
    }
}

/// The token key signs for a slate with a token type, the other key for one without.
pub proof fn right_key_signs(s: SlateView, key: Seq<u8>, token_key: Seq<u8>)
    ensures
        s.token_type is Some ==> signing_key(s, key, token_key) == token_key,
        s.token_type is None ==> signing_key(s, key, token_key) == key,
{
}

/// A share is made if and only if the partial signatures that are there hold and both
/// sums can be taken. It is made with the secret key, the nonce and both sums, the nonces
/// and the blinding factors each in their place.
pub proof fn share_is_made_with_both_sums(
    parts: Seq<ParticipantData>,
    secret: Seq<u8>,
    nonce: Seq<u8>,
    msg: Seq<u8>,
)
    ensures
        ({
            let nonces = curve::key_sum(Seq::new(parts.len(), |i: int| parts[i].public_nonce@));
            let blinds = curve::key_sum(
                Seq::new(parts.len(), |i: int| parts[i].public_blind_excess@),
            );
            &&& share_outcome(parts, secret, nonce, msg) is Ok <==> every_share_holds(parts, msg)
                && nonces is Some && blinds is Some
            &&& share_outcome(parts, secret, nonce, msg) matches Ok(sig) ==> sig
                == curve::partial_signature(secret, nonce, nonces.unwrap(), blinds, msg)
            &&& share_outcome(parts, secret, nonce, msg) matches Err(e) ==> e == (if nonces is None
                || blinds is None {
                ErrorView::Secp("InvalidPublicKey"@)
            } else {
                ErrorView::LibTx("Signature(\"Signature validation error\")"@)
            })
        }),
{
    sums_are_over_everybody(parts);
    shares_accepted_iff_all_hold(parts, msg);
}

/// Where a share is filled in, every partial signature that was there holds, everybody
/// has joined, and the first participant with the id gets the share that the secret key
/// and the nonce make with both sums on the message. Where none is, nothing changes.
pub proof fn filled_share_is_right(
    s: SlateView,
    after: SlateView,
    secret: Seq<u8>,
    nonce: Seq<u8>,
    id: u64,
    msg: Seq<u8>,
    r: Result<(), ErrorView>,
)
    requires
        share_filled(s, after, secret, nonce, id, msg, r),
    ensures
        r is Err ==> after == s,
        r is Ok ==> {
            let parts = s.participant_data;
            let nonces = curve::key_sum(Seq::new(parts.len(), |i: int| parts[i].public_nonce@));
            let blinds = curve::key_sum(
                Seq::new(parts.len(), |i: int| parts[i].public_blind_excess@),
            );
            &&& s.num_participants <= parts.len()
            &&& every_share_holds(parts, msg)
            &&& nonces is Some && blinds is Some
            &&& after.tx == s.tx
            &&& after.participant_data.len() == parts.len()
            &&& forall|i: int| #[trigger]
                is_first(parts, i, id) && i < s.num_participants ==> {
                    &&& after.participant_data[i].part_sig is Some
                    &&& after.participant_data[i].part_sig.unwrap()@ == curve::partial_signature(
                        secret,
                        nonce,
                        nonces.unwrap(),
                        blinds,
                        msg,
                    )
                    &&& is_secret_key(secret) ==> curve::signature_valid(
                        after.participant_data[i].part_sig.unwrap()@,
                        msg,
                        nonces,
                        curve::public_key_of(secret),
                        blinds,
                        true,
                    )
                }
            &&& forall|i: int|
                0 <= i < parts.len() && parts[i].id != id ==> #[trigger] after.participant_data[i]
                    == parts[i]
        },
        r matches Err(e) ==> e == (if nonce_total(s.participant_data) is None || blind_total(
            s.participant_data,
        ) is None {
            ErrorView::Secp("InvalidPublicKey"@)
        } else {
            ErrorView::LibTx("Signature(\"Signature validation error\")"@)
        }),
{
    let parts = s.participant_data;
    sums_are_over_everybody(parts);
    share_is_made_with_both_sums(parts, secret, nonce, msg);
    if r is Ok {
        let bytes = share_outcome(parts, secret, nonce, msg)->Ok_0;
        let sig = choose|sig: Signature|
            sig@ == bytes && #[trigger] part_sig_filled(s, after, id, sig);
        if exists|i: int| #[trigger] is_first(parts, i, id) && i < s.num_participants {
            let i = choose|i: int| #[trigger] is_first(parts, i, id) && i < s.num_participants;
            part_sig_goes_to_its_owner(s, after, id, sig, i);
            assert forall|k: int| #[trigger] is_first(parts, k, id) implies k == i by {
                if k < i {
                    assert(parts[k].id != id);
                } else if i < k {
                    assert(parts[i].id != id);
                }
            }
        } else {
            assert(after == s);
        }
    }
}

/// The second round as a whole. It first checks the fees, then takes the message that the
/// slate asks for, and then fills in a share on that message. Where any of these fails
/// the slate stays as it was.
pub proof fn round_2_as_a_whole<F, K, M>(
    s: SlateView,
    after: SlateView,
    secret: Seq<u8>,
    nonce: Seq<u8>,
    id: u64,
    tx_fee: F,
    token_key: K,
    token_msg: M,
    r: Result<(), ErrorView>,
) where
    F: Fn(ElementCounts) -> u64,
    K: Fn(&String) -> Result<TokenKey, Error>,
    M: Fn(TokenKernelFeatures, TokenKey) -> Result<Message, Error>,

    requires
        round_2_filled(s, after, secret, nonce, id, tx_fee, token_key, token_msg, r),
    ensures
        r is Err ==> after == s,
        r is Ok ==> fees_checked(s, tx_fee, Ok(())) && exists|msg: Seq<u8>|
            {
                &&& #[trigger] message_made(s, token_key, token_msg, Ok(msg))
                &&& every_share_holds(s.participant_data, msg)
                &&& share_filled(s, after, secret, nonce, id, msg, Ok(()))
            },
        r is Err ==> {
            ||| fees_checked(s, tx_fee, r)
            ||| fees_checked(s, tx_fee, Ok(())) && message_made(
                s,
                token_key,
                token_msg,
                Err(r->Err_0),
            )
            ||| fees_checked(s, tx_fee, Ok(())) && exists|msg: Seq<u8>| #[trigger]
                message_made(s, token_key, token_msg, Ok(msg)) && (!every_share_holds(
                    s.participant_data,
                    msg,
                ) || nonce_total(s.participant_data) is None || blind_total(
                    s.participant_data,
                ) is None)
        },
{
    sums_are_over_everybody(s.participant_data);
    assert forall|msg: Seq<u8>, x: Result<(), ErrorView>| #[trigger]
        share_filled(s, after, secret, nonce, id, msg, x) implies (x is Err ==> after == s) && (
    x is Ok ==> every_share_holds(s.participant_data, msg)) && (x is Err ==> !every_share_holds(
        s.participant_data,
        msg,
    ) || nonce_total(s.participant_data) is None || blind_total(s.participant_data) is None) by {
        filled_share_is_right(s, after, secret, nonce, id, msg, x);
        share_is_made_with_both_sums(s.participant_data, secret, nonce, msg);
    }
}

} // verus!
