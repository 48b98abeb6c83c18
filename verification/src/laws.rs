//! What holds of a slate over several operations.
use crate::curve;
use crate::error::{Error, ErrorView};
use crate::finalize::{
    final_signature, finalized, honestly_signed, kernel_signed, token_kernel_signed,
};
use crate::kernel::{
    excess_outcome, fee_checked, fee_covered, fees_checked, kernel_updated, message_made,
    token_excess_made,
};
use crate::keys::{
    be_value, group_order, is_key_or_zero, is_secret_key, zero_blind, zero_is_no_secret_key,
    BlindingFactor, Message, Signature, TokenKey,
};
use crate::participant::ParticipantData;
use crate::rounds::{
    all_complete, blind_total, is_first, message_fault, messages_outcome, nonce_total,
    offset_split, offset_taken, participant_added, participant_made, round_1_filled, round_2_filled,
    share_filled, share_valid, shares_outcome,
};
use crate::slate::{
    format_outcome, is_blank, slate_read, slate_written, upgrade_outcome, Slate, SlateView,
};
use crate::transaction::{
    total_fee, unsigned, ElementCounts, TokenKernelFeatures, TokenTxKernel, Transaction,
    TransactionView, TxKernel,
};
use crate::v4::{slate_round_trip, version_from_v4, SlateV4};
use crate::version::{format_of, SlateFormat, SlateVersionProbe};
use vstd::arithmetic::div_mod::{
    lemma_add_mod_noop_right, lemma_mod_add_multiples_vanish, lemma_small_mod,
};
use vstd::prelude::*;

verus! {

// Kernels and fees

/// A kernel is plain if and only if the slate has no lock height, and so is a
/// token kernel.
pub proof fn plain_without_lock_height(s: SlateView)
    ensures
        s.kernel_features() is Plain <==> s.lock_height == 0,
        s.token_kernel_features() is PlainToken <==> s.lock_height == 0,
        s.kernel_features().fee_paid() == s.fee,
{
}

/// Once the kernel is updated, the transaction pays the slate's fee, and what the
/// participants sign is the message of that kernel.
pub proof fn updated_kernel_reflects_slate(s: SlateView, updated: SlateView)
    requires
        kernel_updated(s, updated),
    ensures
        updated.tx matches Some(tx) && tx.body.kernels.len() == 1 && tx.fee() == s.fee
            && tx.body.kernels[0].features == updated.kernel_features(),
{
    let tx = s.tx.unwrap();
    let kernel = choose|kernel: TxKernel|
        kernel.features == s.kernel_features() && updated == s.with_tx(
            #[trigger] tx.replace_kernel(kernel),
        );
    single_kernel_fee(tx.replace_kernel(kernel));
}

/// Updating the kernel again changes nothing.
pub proof fn update_kernel_again(s: SlateView, once: SlateView, twice: SlateView)
    requires
        kernel_updated(s, once),
        kernel_updated(once, twice),
    ensures
        twice == once,
{
    let tx = s.tx.unwrap();
    let first = choose|kernel: TxKernel|
        {
            &&& kernel.features == s.kernel_features()
            &&& unsigned(kernel.excess, kernel.excess_sig)
            &&& once == s.with_tx(#[trigger] tx.replace_kernel(kernel))
        };
    let second = choose|kernel: TxKernel|
        {
            &&& kernel.features == once.kernel_features()
            &&& unsigned(kernel.excess, kernel.excess_sig)
            &&& twice == once.with_tx(#[trigger] once.tx.unwrap().replace_kernel(kernel))
        };
    assert(first.excess@ =~= second.excess@);
    assert(first.excess.bytes =~= second.excess.bytes);
    assert(first.excess_sig@ =~= second.excess_sig@);
    assert(first.excess_sig.bytes =~= second.excess_sig.bytes);
    assert(first == second);
    assert(tx.replace_kernel(first).replace_kernel(second) =~= tx.replace_kernel(first));
}

/// A fee passes the check if and only if it is covered, by what the kernels pay
/// and by what is transferred.
pub proof fn fee_passes_if_covered(s: SlateView, fee: u64, checked: Result<(), ErrorView>)
    requires
        fee_checked(s, fee, checked),
    ensures
        checked is Ok <==> fee_covered(s, fee),
{
}

/// Where a fee passes the check, so does every lower one.
pub proof fn lower_fee_passes(
    s: SlateView,
    fee: u64,
    lower: u64,
    checked: Result<(), ErrorView>,
)
    requires
        fee_checked(s, fee, Ok(())),
        lower <= fee,
        fee_checked(s, lower, checked),
    ensures
        checked is Ok,
{
}

/// Signing the kernel leaves the transaction's fee and everything but the kernel
/// as it was.
pub proof fn signing_keeps_transaction(
    tx: TransactionView,
    signed: TransactionView,
    excess: Seq<u8>,
    sig: Seq<u8>,
)
    requires
        tx.body.kernels.len() == 1,
        kernel_signed(tx, signed, excess, sig),
    ensures
        signed.fee() == tx.fee(),
        signed.counts() == tx.counts(),
        signed.offset == tx.offset,
        signed.body.inputs == tx.body.inputs,
        signed.body.outputs == tx.body.outputs,
        signed.body.token_inputs == tx.body.token_inputs,
        signed.body.token_outputs == tx.body.token_outputs,
        signed.body.token_kernels == tx.body.token_kernels,
{
    single_kernel_fee(tx);
    single_kernel_fee(signed);
}

/// Signing the token kernel leaves the transaction's fee and everything but the
/// token kernel as it was.
pub proof fn token_signing_keeps_transaction(
    tx: TransactionView,
    signed: TransactionView,
    excess: Seq<u8>,
    sig: Seq<u8>,
)
    requires
        tx.body.token_kernels.len() == 1,
        token_kernel_signed(tx, signed, excess, sig),
    ensures
        signed.fee() == tx.fee(),
        signed.counts() == tx.counts(),
        signed.offset == tx.offset,
        signed.body.inputs == tx.body.inputs,
        signed.body.outputs == tx.body.outputs,
        signed.body.token_inputs == tx.body.token_inputs,
        signed.body.token_outputs == tx.body.token_outputs,
        signed.body.kernels == tx.body.kernels,
{
}

/// A transaction with a single kernel pays that kernel's fee.
proof fn single_kernel_fee(tx: TransactionView)
    requires
        tx.body.kernels.len() == 1,
    ensures
        tx.fee() == tx.body.kernels[0].features.fee_paid(),
{
    reveal_with_fuel(total_fee, 2);
    assert(tx.body.kernels.drop_last() =~= seq![]);
}

// The first round

/// The offset and what is left of the key add up to the key, modulo the group
/// order. The key may be zero.
pub proof fn offset_and_rest_restore_key(
    s: SlateView,
    after: SlateView,
    key: Seq<u8>,
    left: Seq<u8>,
    use_test_rng: bool,
)
    requires
        is_key_or_zero(key),
        offset_split(s, after, key, left, use_test_rng, Ok(())),
    ensures
        after.tx matches Some(tx) && is_secret_key(tx.offset@) && (be_value(left) + be_value(
            tx.offset@,
        )) % group_order() == be_value(key),
{
    zero_is_no_secret_key();
    let offset = be_value(after.tx.unwrap().offset@) as int;
    let order = group_order() as int;
    let difference = be_value(key) - offset;
    lemma_add_mod_noop_right(offset, difference, order);
    lemma_small_mod(be_value(key), group_order());
    assert((offset + difference % order) % order == (offset + difference) % order);
}

/// An offset can always be split off the zero key, and what is left is the negative
/// of the offset.
pub proof fn zero_key_takes_offset(
    s: SlateView,
    after: SlateView,
    left: Seq<u8>,
    offset: BlindingFactor,
    r: Result<(), ErrorView>,
)
    requires
        s.tx is Some,
        is_secret_key(offset@),
        offset_taken(s, after, zero_blind(), left, offset, r),
    ensures
        r == Ok::<(), ErrorView>(()),
        be_value(left) == (0 - be_value(offset@)) % (group_order() as int),
        be_value(left) == group_order() - be_value(offset@),
{
    zero_is_no_secret_key();
    let order = group_order() as int;
    let value = be_value(offset@) as int;
    lemma_mod_add_multiples_vanish(0 - value, order);
    lemma_small_mod((order - value) as nat, group_order());
}

/// A participant who is added signs the message that is added: the check of the
/// messages comes out as before.
pub proof fn added_message_holds(
    s: SlateView,
    after: SlateView,
    secret: Seq<u8>,
    nonce: Seq<u8>,
    id: u64,
    part_sig: Option<Signature>,
    message: Option<String>,
    use_test_rng: bool,
)
    requires
        participant_added(s, after, secret, nonce, id, part_sig, message, use_test_rng),
    ensures
        messages_outcome(after.participant_data) == messages_outcome(s.participant_data),
{
    let p = choose|p: ParticipantData|
        {
            &&& #[trigger] participant_made(p, secret, nonce, id, part_sig, message)
            &&& after == SlateView { participant_data: s.participant_data.push(p), ..s }
        };
    assert(s.participant_data.push(p).drop_last() =~= s.participant_data);
}

/// The first round adds one participant behind the others, who has not signed,
/// with the given id and message, and with the keys that sign later. It changes
/// nothing of the transaction but the offset, and that only where there was none;
/// and the check of the messages comes out as before.
pub proof fn round_1_adds_one(
    s: SlateView,
    after: SlateView,
    key: Seq<u8>,
    left: Seq<u8>,
    token_key: Seq<u8>,
    nonce: Seq<u8>,
    id: u64,
    message: Option<String>,
    use_test_rng: bool,
)
    requires
        round_1_filled(
            s,
            after,
            key,
            left,
            token_key,
            nonce,
            id,
            message,
            use_test_rng,
            Ok(()),
        ),
    ensures
        after.participant_data.len() == s.participant_data.len() + 1,
        after.participant_data.drop_last() == s.participant_data,
        after.participant_data.last().id == id,
        after.participant_data.last().message == message,
        after.participant_data.last().part_sig is None,
        after.participant_data.last().public_nonce@ == curve::public_key_of(nonce),
        after.participant_data.last().public_blind_excess@ == curve::public_key_of(
            if s.token_type is Some {
                token_key
            } else {
                left
            },
        ),
        messages_outcome(after.participant_data) == messages_outcome(s.participant_data),
        s.tx matches Some(tx) && after.tx matches Some(after_tx) && after_tx.body == tx.body && (
        tx.offset@ != zero_blind() ==> after_tx == tx && left == key),
{
    let secret = if s.token_type is Some {
        token_key
    } else {
        left
    };
    let split = if s.tx.unwrap().offset@ == zero_blind() {
        choose|split: SlateView| #[trigger]
            offset_split(s, split, key, left, use_test_rng, Ok(())) && participant_added(
                split,
                after,
                secret,
                nonce,
                id,
                None,
                message,
                use_test_rng,
            )
    } else {
        s
    };
    assert(split.participant_data == s.participant_data);
    added_message_holds(split, after, secret, nonce, id, None, message, use_test_rng);
    let p = choose|p: ParticipantData|
        #[trigger] participant_made(p, secret, nonce, id, None, message) && after == (SlateView {
            participant_data: split.participant_data.push(p),
            ..split
        });
    assert(split.participant_data.push(p).drop_last() =~= split.participant_data);
}

// The second round

/// The second round fills in the partial signature of one participant and leaves
/// everything else as it was: the other participants, everybody's keys and
/// messages, and the rest of the slate.
pub proof fn round_2_fills_one(
    s: SlateView,
    after: SlateView,
    secret: Seq<u8>,
    nonce: Seq<u8>,
    id: u64,
    msg: Seq<u8>,
    i: int,
)
    requires
        share_filled(s, after, secret, nonce, id, msg, Ok(())),
        is_first(s.participant_data, i, id),
        i < s.num_participants,
    ensures
        after.participant_data.len() == s.participant_data.len(),
        after.participant_data[i].part_sig is Some,
        forall|j: int|
            0 <= j < s.participant_data.len() && j != i ==> #[trigger] after.participant_data[j]
                == s.participant_data[j],
        after == (SlateView { participant_data: after.participant_data, ..s }),
        nonce_total(after.participant_data) == nonce_total(s.participant_data),
        blind_total(after.participant_data) == blind_total(s.participant_data),
        messages_outcome(after.participant_data) == messages_outcome(s.participant_data),
{
    assert(after.participant_data.map_values(|p: ParticipantData| p.public_nonce@)
        =~= s.participant_data.map_values(|p: ParticipantData| p.public_nonce@));
    assert(after.participant_data.map_values(|p: ParticipantData| p.public_blind_excess@)
        =~= s.participant_data.map_values(|p: ParticipantData| p.public_blind_excess@));
    same_messages(s.participant_data, after.participant_data);
}

/// The check of the messages depends on the participants' keys and messages alone.
proof fn same_messages(a: Seq<ParticipantData>, b: Seq<ParticipantData>)
    requires
        a.len() == b.len(),
        forall|i: int| 0 <= i < a.len() ==> message_fault(#[trigger] a[i]) == message_fault(b[i]),
    ensures
        messages_outcome(a) == messages_outcome(b),
    decreases a.len(),
{
    if a.len() > 0 {
        assert(a.last() == a[a.len() - 1] && b.last() == b[b.len() - 1]);
        same_messages(a.drop_last(), b.drop_last());
    }
}

/// A partial signature that its owner fills in holds: after the second
/// round all partial signatures verify.
pub proof fn own_share_verifies(
    s: SlateView,
    after: SlateView,
    secret: Seq<u8>,
    nonce: Seq<u8>,
    id: u64,
    msg: Seq<u8>,
    i: int,
)
    requires
        share_filled(s, after, secret, nonce, id, msg, Ok(())),
        is_first(s.participant_data, i, id),
        i < s.num_participants,
        is_secret_key(secret),
        s.participant_data[i].public_blind_excess@ == curve::public_key_of(secret),
    ensures
        shares_outcome(after.participant_data, msg) == Ok::<(), ErrorView>(()),
{
    round_2_fills_one(s, after, secret, nonce, id, msg, i);
    let parts = s.participant_data;
    let filled = after.participant_data;
    let nonce_sum = nonce_total(parts).unwrap();
    let blind_sum = blind_total(parts).unwrap();
    assert forall|j: int| 0 <= j < filled.len() implies share_valid(
        #[trigger] filled[j],
        nonce_sum,
        blind_sum,
        msg,
    ) by {
        if j != i {
            assert(filled[j] == parts[j]);
            if parts[j].part_sig is Some {
                assert(share_valid(parts[j], nonce_sum, blind_sum, msg));
            }
        }
    }
}

/// Whether the participants are as the given secret keys and secret nonces make
/// them, and those of them who have signed the message did so honestly.
pub open spec fn honest_so_far(
    parts: Seq<ParticipantData>,
    secrets: Seq<Seq<u8>>,
    nonces: Seq<Seq<u8>>,
    msg: Seq<u8>,
) -> bool {
    &&& parts.len() == secrets.len() == nonces.len()
    &&& forall|i: int|
        0 <= i < parts.len() ==> {
            let p = #[trigger] parts[i];
            &&& is_secret_key(secrets[i])
            &&& is_secret_key(nonces[i])
            &&& p.public_blind_excess@ == curve::public_key_of(secrets[i])
            &&& p.public_nonce@ == curve::public_key_of(nonces[i])
            &&& p.part_sig matches Some(sig) ==> sig@ == curve::partial_signature(
                secrets[i],
                nonces[i],
                nonce_total(parts).unwrap(),
                Some(blind_total(parts).unwrap()),
                msg,
            )
        }
}

/// Whoever gets through the second round has signed the message that the slate
/// asks for, and where the slate has no token type that is the kernel's.
pub proof fn round_2_signs_slate<F, K, M>(
    s: SlateView,
    after: SlateView,
    secret: Seq<u8>,
    nonce: Seq<u8>,
    id: u64,
    tx_fee: F,
    token_key: K,
    token_msg: M,
) where
    F: Fn(ElementCounts) -> u64,
    K: Fn(&String) -> Result<TokenKey, Error>,
    M: Fn(TokenKernelFeatures, TokenKey) -> Result<Message, Error>,

    requires
        round_2_filled(s, after, secret, nonce, id, tx_fee, token_key, token_msg, Ok(())),
    ensures
        fees_checked(s, tx_fee, Ok(())),
        exists|msg: Seq<u8>| #[trigger]
            message_made(s, token_key, token_msg, Ok(msg)) && share_filled(
                s,
                after,
                secret,
                nonce,
                id,
                msg,
                Ok(()),
            ),
        s.token_type is None ==> share_filled(
            s,
            after,
            secret,
            nonce,
            id,
            curve::kernel_message(s.kernel_features()),
            Ok(()),
        ),
{
}

/// The second round is only completed once all participants have performed the
/// first: until then nobody gets a partial signature.
pub proof fn round_2_waits_for_round_1<F, K, M>(
    s: SlateView,
    after: SlateView,
    secret: Seq<u8>,
    nonce: Seq<u8>,
    id: u64,
    tx_fee: F,
    token_key: K,
    token_msg: M,
    r: Result<(), ErrorView>,
) where
    F: Fn(ElementCounts) -> u64,
    K: Fn(&String) -> Result<TokenKey, Error>,
    M: Fn(TokenKernelFeatures, TokenKey) -> Result<Message, Error>,

    requires
        round_2_filled(s, after, secret, nonce, id, tx_fee, token_key, token_msg, r),
    ensures
        r is Ok ==> s.num_participants <= s.participant_data.len(),
        s.num_participants > s.participant_data.len() ==> after == s,
{
}

/// Participants who have just gone through the first round are honest so far.
pub proof fn honest_at_first(
    parts: Seq<ParticipantData>,
    secrets: Seq<Seq<u8>>,
    nonces: Seq<Seq<u8>>,
    msg: Seq<u8>,
)
    requires
        parts.len() == secrets.len() == nonces.len(),
        forall|i: int|
            0 <= i < parts.len() ==> {
                let p = #[trigger] parts[i];
                &&& is_secret_key(secrets[i])
                &&& is_secret_key(nonces[i])
                &&& p.public_blind_excess@ == curve::public_key_of(secrets[i])
                &&& p.public_nonce@ == curve::public_key_of(nonces[i])
                &&& p.part_sig is None
            },
    ensures
        honest_so_far(parts, secrets, nonces, msg),
{
}

/// Whoever goes through the second round with the own keys keeps the
/// participants honest.
pub proof fn honest_round_2(
    s: SlateView,
    after: SlateView,
    secrets: Seq<Seq<u8>>,
    nonces: Seq<Seq<u8>>,
    id: u64,
    msg: Seq<u8>,
    i: int,
)
    requires
        honest_so_far(s.participant_data, secrets, nonces, msg),
        share_filled(s, after, secrets[i], nonces[i], id, msg, Ok(())),
        is_first(s.participant_data, i, id),
        i < s.num_participants,
    ensures
        honest_so_far(after.participant_data, secrets, nonces, msg),
        after.participant_data[i].part_sig is Some,
{
    round_2_fills_one(s, after, secrets[i], nonces[i], id, msg, i);
    let parts = s.participant_data;
    let filled = after.participant_data;
    assert forall|j: int| 0 <= j < filled.len() implies {
        let p = #[trigger] filled[j];
        &&& p.public_blind_excess == parts[j].public_blind_excess
        &&& p.public_nonce == parts[j].public_nonce
    } by {
        if j != i {
            assert(filled[j] == parts[j]);
        }
    }
    assert forall|j: int| 0 <= j < filled.len() implies ((
    #[trigger] filled[j]).part_sig matches Some(sig) ==> sig@ == curve::partial_signature(
        secrets[j],
        nonces[j],
        nonce_total(filled).unwrap(),
        Some(blind_total(filled).unwrap()),
        msg,
    )) by {
        if j != i {
            assert(filled[j] == parts[j]);
        }
    }
    assert forall|j: int| 0 <= j < filled.len() implies {
        let p = #[trigger] filled[j];
        &&& is_secret_key(secrets[j])
        &&& is_secret_key(nonces[j])
        &&& p.public_blind_excess@ == curve::public_key_of(secrets[j])
        &&& p.public_nonce@ == curve::public_key_of(nonces[j])
    } by {
        assert(parts[j].public_nonce@ == curve::public_key_of(nonces[j]));
    }
}

/// Whether a run of slates is one of second rounds on a message: in each step one
/// participant, in the given order, signs with the own keys.
pub open spec fn honest_run(
    run: Seq<SlateView>,
    order: Seq<int>,
    secrets: Seq<Seq<u8>>,
    nonces: Seq<Seq<u8>>,
    msg: Seq<u8>,
) -> bool {
    &&& run.len() == order.len() + 1
    &&& forall|k: int|
        0 <= k < order.len() ==> {
            let (s, i) = (run[k], #[trigger] order[k]);
            &&& 0 <= i < s.num_participants
            &&& is_first(s.participant_data, i, s.participant_data[i].id)
            &&& share_filled(
                s,
                run[k + 1],
                secrets[i],
                nonces[i],
                s.participant_data[i].id,
                msg,
                Ok(()),
            )
        }
}

/// However many participants there are, and in whatever order they go through the
/// second round: where each of them signs with the own keys, all of them have
/// signed honestly in the end.
pub proof fn honest_run_signs_all(
    run: Seq<SlateView>,
    order: Seq<int>,
    secrets: Seq<Seq<u8>>,
    nonces: Seq<Seq<u8>>,
    msg: Seq<u8>,
)
    requires
        honest_run(run, order, secrets, nonces, msg),
        honest_so_far(run[0].participant_data, secrets, nonces, msg),
        forall|i: int| 0 <= i < run[0].participant_data.len() ==> #[trigger] order.contains(i),
    ensures
        honest_so_far(run.last().participant_data, secrets, nonces, msg),
        all_complete(run.last().participant_data),
        run.last() == (SlateView { participant_data: run.last().participant_data, ..run[0] }),
        nonce_total(run.last().participant_data) == nonce_total(run[0].participant_data),
        blind_total(run.last().participant_data) == blind_total(run[0].participant_data),
{
    honest_run_keeps(run, order, secrets, nonces, msg, order.len() as int);
    let end = run.last().participant_data;
    assert forall|i: int| 0 <= i < end.len() implies (#[trigger] end[i]).part_sig is Some by {
        assert(order.contains(i));
        let k = choose|k: int| 0 <= k < order.len() && order[k] == i;
        assert(order[k] == i);
    }
}

/// What an honest run has reached after some of its steps.
proof fn honest_run_keeps(
    run: Seq<SlateView>,
    order: Seq<int>,
    secrets: Seq<Seq<u8>>,
    nonces: Seq<Seq<u8>>,
    msg: Seq<u8>,
    steps: int,
)
    requires
        honest_run(run, order, secrets, nonces, msg),
        honest_so_far(run[0].participant_data, secrets, nonces, msg),
        0 <= steps <= order.len(),
    ensures
        honest_so_far(run[steps].participant_data, secrets, nonces, msg),
        run[steps] == (SlateView { participant_data: run[steps].participant_data, ..run[0] }),
        run[steps].participant_data.len() == run[0].participant_data.len(),
        forall|k: int|
            0 <= k < steps ==> run[steps].participant_data[#[trigger] order[k]].part_sig is Some,
        nonce_total(run[steps].participant_data) == nonce_total(run[0].participant_data),
        blind_total(run[steps].participant_data) == blind_total(run[0].participant_data),
    decreases steps,
{
    if steps > 0 {
        honest_run_keeps(run, order, secrets, nonces, msg, steps - 1);
        let s = run[steps - 1];
        let i = order[steps - 1];
        let id = s.participant_data[i].id;
        honest_round_2(s, run[steps], secrets, nonces, id, msg, i);
        round_2_fills_one(s, run[steps], secrets[i], nonces[i], id, msg, i);
        assert forall|k: int| 0 <= k < steps implies run[steps].participant_data[
            #[trigger] order[k]].part_sig is Some by {
            if order[k] != i {
                assert(run[k].participant_data.len() == s.participant_data.len()) by {
                    honest_run_keeps(run, order, secrets, nonces, msg, k);
                }
                assert(run[steps].participant_data[order[k]] == s.participant_data[order[k]]);
            }
        }
    }
}

// Finalizing

/// Where all participants have signed honestly, and their keys and nonces do not
/// cancel out, the slate is honestly signed.
pub proof fn honest_slate_is_signed(
    parts: Seq<ParticipantData>,
    secrets: Seq<Seq<u8>>,
    nonces: Seq<Seq<u8>>,
    msg: Seq<u8>,
)
    requires
        parts.len() > 0,
        msg.len() == 32,
        honest_so_far(parts, secrets, nonces, msg),
        all_complete(parts),
        nonce_total(parts) is Some,
        blind_total(parts) is Some,
    ensures
        honestly_signed(parts, secrets, nonces, msg),
{
}

/// An honestly signed slate is finalized: where all participants have signed the
/// message of the kernel honestly, the fees pass, the excess of the transaction is
/// the sum of the participants' keys, and the chain's rules accept every
/// transaction, finalizing succeeds and the kernel holds.
pub proof fn honest_slate_finalizes<F, K, M, T, V>(
    s: SlateView,
    after: Slate,
    tx_fee: F,
    token_key: K,
    token_msg: M,
    verify_token: T,
    validate: V,
    r: Result<(), ErrorView>,
    secrets: Seq<Seq<u8>>,
    nonces: Seq<Seq<u8>>,
    excess: Seq<u8>,
) where
    F: Fn(ElementCounts) -> u64,
    K: Fn(&String) -> Result<TokenKey, Error>,
    M: Fn(TokenKernelFeatures, TokenKey) -> Result<Message, Error>,
    T: Fn(&TokenTxKernel) -> Result<(), Error>,
    V: Fn(&Transaction) -> Result<(), Error>,

    requires
        finalized(s, after, tx_fee, token_key, token_msg, verify_token, validate, r),
        s.token_type is None,
        s.participant_data.len() > 0,
        honest_so_far(
            s.participant_data,
            secrets,
            nonces,
            curve::kernel_message(s.kernel_features()),
        ),
        all_complete(s.participant_data),
        nonce_total(s.participant_data) is Some,
        blind_total(s.participant_data) is Some,
        s.tx matches Some(tx) && tx.body.kernels.len() == 1 && tx.body.kernels[0].features
            == s.kernel_features() && excess_outcome(tx) == Ok::<Seq<u8>, ErrorView>(excess),
        curve::commitment_key(excess) == blind_total(s.participant_data),
        forall|checked: Result<(), ErrorView>|
            fees_checked(s, tx_fee, checked) ==> checked is Ok,
        forall|tx: &Transaction, valid: Result<(), Error>|
            validate.ensures((tx,), valid) ==> valid is Ok,
    ensures
        r == Ok::<(), ErrorView>(()),
        after.tx matches Some(signed) && curve::kernel_valid(signed@.body.kernels[0]) && after@
            == s.with_tx(signed@),
{
    let msg = curve::kernel_message(s.kernel_features());
    assert(message_made(s, token_key, token_msg, Ok(msg)));
    honest_slate_is_signed(s.participant_data, secrets, nonces, msg);
}

/// An honestly signed token slate is finalized: where all participants have signed
/// the message of the token kernel honestly, the fees pass, there is an excess, and
/// the chain's rules accept every token kernel and every transaction, finalizing
/// succeeds, and the token kernel gets a signature that verifies under the sum of
/// the participants' keys.
pub proof fn honest_token_slate_finalizes<F, K, M, T, V>(
    s: SlateView,
    after: Slate,
    tx_fee: F,
    token_key: K,
    token_msg: M,
    verify_token: T,
    validate: V,
    r: Result<(), ErrorView>,
    secrets: Seq<Seq<u8>>,
    nonces: Seq<Seq<u8>>,
    msg: Seq<u8>,
) where
    F: Fn(ElementCounts) -> u64,
    K: Fn(&String) -> Result<TokenKey, Error>,
    M: Fn(TokenKernelFeatures, TokenKey) -> Result<Message, Error>,
    T: Fn(&TokenTxKernel) -> Result<(), Error>,
    V: Fn(&Transaction) -> Result<(), Error>,

    requires
        finalized(s, after, tx_fee, token_key, token_msg, verify_token, validate, r),
        s.token_type is Some,
        s.participant_data.len() > 0,
        forall|made: Result<Seq<u8>, ErrorView>| #[trigger]
            message_made(s, token_key, token_msg, made) ==> made == Ok::<Seq<u8>, ErrorView>(msg),
        honest_so_far(s.participant_data, secrets, nonces, msg),
        all_complete(s.participant_data),
        nonce_total(s.participant_data) is Some,
        blind_total(s.participant_data) is Some,
        forall|checked: Result<(), ErrorView>|
            fees_checked(s, tx_fee, checked) ==> checked is Ok,
        forall|excess: Result<Seq<u8>, ErrorView>|
            token_excess_made(s, token_key, excess) ==> excess is Ok,
        forall|kernel: &TokenTxKernel, holds: Result<(), Error>|
            verify_token.ensures((kernel,), holds) ==> holds is Ok,
        forall|tx: &Transaction, valid: Result<(), Error>|
            validate.ensures((tx,), valid) ==> valid is Ok,
    ensures
        r == Ok::<(), ErrorView>(()),
        after.tx matches Some(signed) && after@ == s.with_tx(signed@) && curve::signature_valid(
            signed@.body.token_kernels[0].excess_sig@,
            msg,
            None,
            blind_total(s.participant_data).unwrap(),
            blind_total(s.participant_data),
            false,
        ),
{
    if msg.len() == 32 {
        honest_slate_is_signed(s.participant_data, secrets, nonces, msg);
    }
}

/// Only what holds is accepted: a final signature verifies under the sum of the
/// participants' keys, and so does every partial signature that went into it.
pub proof fn final_signature_verifies(parts: Seq<ParticipantData>, msg: Seq<u8>, sig: Seq<u8>)
    requires
        final_signature(parts, msg) == Ok::<Seq<u8>, ErrorView>(sig),
    ensures
        shares_outcome(parts, msg) is Ok,
        blind_total(parts) matches Some(key) && curve::signature_valid(
            sig,
            msg,
            None,
            key,
            Some(key),
            true,
        ),
{
}

// Reading and writing

/// A slate in version 4 that is written and read again is the same slate.
pub proof fn written_slate_reads_back(s: SlateView, probe: SlateVersionProbe, v4: SlateV4)
    requires
        s.version_info.version == 4,
        s.version_info.orig_version == 4,
        v4@ == s.to_v4(),
        probe.version_info == Some(version_from_v4(v4.version_info)),
    ensures
        format_of(s.version_info.orig_version) == Ok::<SlateFormat, ErrorView>(SlateFormat::V4),
        format_outcome(Some(probe)) == Ok::<SlateFormat, ErrorView>(SlateFormat::V4),
        upgrade_outcome(Some(v4)) == Ok::<SlateView, ErrorView>(s),
{
    slate_round_trip(s);
}

/// A slate in version 4 that is written and read again is the same slate, where what
/// reads text reads back what was written: the slate in version 4, and its version.
pub proof fn serialized_slate_reads_back<W, P, A, B, E>(
    s: SlateView,
    write_v4: W,
    probe: P,
    read_v4: A,
    read_v3: B,
    written: String,
    slate_json: &str,
    r: Result<SlateView, ErrorView>,
) where
    W: FnOnce(&SlateV4) -> Result<String, E>,
    P: FnOnce(&str) -> Option<SlateVersionProbe>,
    A: FnOnce(&str) -> Option<SlateV4>,
    B: FnOnce(&str) -> Option<SlateV4>,

    requires
        s.version_info.version == 4,
        s.version_info.orig_version == 4,
        slate_written(s, write_v4, Ok::<String, E>(written)),
        slate_json@ == written@,
        slate_read(slate_json, probe, read_v4, read_v3, r),
        forall|v4: &SlateV4, read: Option<SlateV4>| #[trigger]
            write_v4.ensures((v4,), Ok(written)) && #[trigger] read_v4.ensures((slate_json,), read)
                ==> (read matches Some(back) && back@ == v4@),
        forall|v4: &SlateV4, found: Option<SlateVersionProbe>| #[trigger]
            write_v4.ensures((v4,), Ok(written)) && #[trigger] probe.ensures((slate_json,), found)
                ==> (found matches Some(p) && p.version_info == Some(
                version_from_v4(v4.version_info),
            )),
    ensures
        r == Ok::<SlateView, ErrorView>(s),
{
    let v4 = choose|v4: &SlateV4|
        v4@ == s.to_v4() && #[trigger] write_v4.ensures((v4,), Ok::<String, E>(written));
    assert(v4@.version_info == v4.version_info);
    slate_round_trip(s);
}

/// A new slate can be written and read, in version 4.
pub proof fn blank_slate_is_current(s: SlateView, num_participants: usize)
    requires
        is_blank(s, num_participants),
    ensures
        s.version_info.version == 4,
        format_of(s.version_info.orig_version) == Ok::<SlateFormat, ErrorView>(SlateFormat::V4),
        messages_outcome(s.participant_data) is Ok,
{
}

/// A serialized slate is accepted in versions 3 and 4, and in no other.
pub proof fn only_known_versions(probe: SlateVersionProbe)
    ensures
        format_outcome(Some(probe)) is Ok <==> (probe.version_info matches Some(info)
            && 3 <= info.version <= 4),
{
}

} // verus!
