//! What the numbers and lists of a transaction are, the features, fees and excesses
//! of its kernels, and what changes when elements are added or a token is issued.
use crate::curve;
use crate::elements::{
    elements_added, issue_completed, issue_excess, issue_key, issue_signed, issues, token_issued,
};
use crate::error::{outcome, Error, ErrorView};
use crate::kernel::{
    excess_outcome, fee_checked, fee_covered, fees_checked, kernel_updated, message_made,
    rejection_text, token_excess_made, token_excess_outcome, token_kernel_updated,
    token_message_made,
};
use crate::keys::{is_secret_key, BlindingFactor, Commitment, Identifier, Message, TokenKey};
use crate::slate::SlateView;
use crate::text::decimal_text;
use crate::transaction::{
    token_inputs_of, token_outputs_of, total_fee, ElementCounts, Input, KernelFeatures, Output,
    TokenInput, TokenKernelFeatures, TokenOutput, TokenTxKernel, Transaction, TransactionView,
    TxKernel,
};
use vstd::prelude::*;

verus! {

// Lists and sums

/// What a kernel pays is the fee in its features; a coinbase kernel pays nothing.
pub proof fn kernel_pays_its_fee(features: KernelFeatures)
    ensures
        features matches KernelFeatures::Plain { fee } ==> features.fee_paid() == fee,
        features matches KernelFeatures::HeightLocked { fee, lock_height } ==> features.fee_paid()
            == fee,
        features is Coinbase ==> features.fee_paid() == 0,
{
}

/// Every kernel adds its fee to what the kernels pay together, and no kernels pay
/// nothing.
pub proof fn fees_add_up(kernels: Seq<TxKernel>, kernel: TxKernel)
    ensures
        total_fee(Seq::<TxKernel>::empty()) == 0,
        total_fee(kernels.push(kernel)) == total_fee(kernels) + match kernel.features {
            KernelFeatures::Plain { fee } => fee as nat,
            KernelFeatures::HeightLocked { fee, lock_height } => fee as nat,
            KernelFeatures::Coinbase => 0,
        },
{
    assert(kernels.push(kernel).drop_last() =~= kernels);
}

/// The fee of a transaction is what its kernels pay together, up to what 64 bits
/// hold.
pub proof fn transaction_pays_all_fees(tx: TransactionView)
    ensures
        total_fee(tx.body.kernels) <= u64::MAX ==> tx.fee() == total_fee(tx.body.kernels),
        total_fee(tx.body.kernels) > u64::MAX ==> tx.fee() == u64::MAX,
{
}

/// The counts of a transaction are the lengths of its lists, each under its name.
pub proof fn counts_are_lengths(tx: TransactionView)
    ensures
        tx.counts().inputs == tx.body.inputs.len() as usize,
        tx.counts().outputs == tx.body.outputs.len() as usize,
        tx.counts().kernels == tx.body.kernels.len() as usize,
        tx.counts().token_inputs == tx.body.token_inputs.len() as usize,
        tx.counts().token_outputs == tx.body.token_outputs.len() as usize,
        tx.counts().token_kernels == tx.body.token_kernels.len() as usize,
{
}

/// Whether two transactions are the same but for their kernels and token kernels.
pub open spec fn same_but_kernels(a: TransactionView, b: TransactionView) -> bool {
    &&& a.offset == b.offset
    &&& a.body.inputs == b.body.inputs
    &&& a.body.outputs == b.body.outputs
    &&& a.body.token_inputs == b.body.token_inputs
    &&& a.body.token_outputs == b.body.token_outputs
}

/// Whether two slates are the same but for their transactions.
pub open spec fn same_but_tx(a: SlateView, b: SlateView) -> bool {
    &&& a.version_info == b.version_info
    &&& a.num_participants == b.num_participants
    &&& a.id == b.id
    &&& a.amount == b.amount
    &&& a.token_type == b.token_type
    &&& a.fee == b.fee
    &&& a.height == b.height
    &&& a.lock_height == b.lock_height
    &&& a.ttl_cutoff_height == b.ttl_cutoff_height
    &&& a.participant_data == b.participant_data
    &&& a.payment_proof == b.payment_proof
}

/// Replacing a kernel, a token kernel or the offset puts in the new one alone, and
/// leaves everything else.
pub proof fn replacing_changes_one_thing(
    tx: TransactionView,
    kernel: TxKernel,
    token_kernel: TokenTxKernel,
    offset: BlindingFactor,
)
    ensures
        same_but_kernels(tx, tx.replace_kernel(kernel)),
        tx.replace_kernel(kernel).body.kernels.len() == 1,
        tx.replace_kernel(kernel).body.kernels[0] == kernel,
        tx.replace_kernel(kernel).body.token_kernels == tx.body.token_kernels,
        same_but_kernels(tx, tx.replace_token_kernel(token_kernel)),
        tx.replace_token_kernel(token_kernel).body.token_kernels.len() == 1,
        tx.replace_token_kernel(token_kernel).body.token_kernels[0] == token_kernel,
        tx.replace_token_kernel(token_kernel).body.kernels == tx.body.kernels,
        tx.with_offset(offset).offset == offset,
        tx.with_offset(offset).body == tx.body,
{
}

/// Another transaction leaves the rest of the slate as it is.
pub proof fn other_tx_leaves_the_slate(s: SlateView, tx: TransactionView)
    ensures
        s.with_tx(tx).tx == Some(tx),
        same_but_tx(s, s.with_tx(tx)),
{
}

/// Of the token inputs and outputs, those of a kind are picked in their order: one
/// more of that kind comes last, one more of another kind does not count.
pub proof fn tokens_of_a_kind_are_picked(
    inputs: Seq<TokenInput>,
    input: TokenInput,
    outputs: Seq<TokenOutput>,
    output: TokenOutput,
    key: TokenKey,
)
    ensures
        token_inputs_of(Seq::<TokenInput>::empty(), key) =~= Seq::<Commitment>::empty(),
        token_outputs_of(Seq::<TokenOutput>::empty(), key) =~= Seq::<Commitment>::empty(),
        input.token_type@ == key@ ==> token_inputs_of(inputs.push(input), key) == token_inputs_of(
            inputs,
            key,
        ).push(input.commit),
        input.token_type@ != key@ ==> token_inputs_of(inputs.push(input), key) == token_inputs_of(
            inputs,
            key,
        ),
        output.token_type@ == key@ ==> token_outputs_of(outputs.push(output), key)
            == token_outputs_of(outputs, key).push(output.commit),
        output.token_type@ != key@ ==> token_outputs_of(outputs.push(output), key)
            == token_outputs_of(outputs, key),
{
    assert(inputs.push(input).drop_last() =~= inputs);
    assert(outputs.push(output).drop_last() =~= outputs);
}

// Kernels and messages

/// The features of a slate's kernel: plain with the slate's fee without a lock
/// height, and locked to the lock height with the slate's fee otherwise. The token
/// kernel follows the lock height in the same way.
pub proof fn features_follow_the_slate(s: SlateView)
    ensures
        s.lock_height == 0 ==> s.kernel_features() == (KernelFeatures::Plain { fee: s.fee }),
        s.lock_height != 0 ==> s.kernel_features() == (KernelFeatures::HeightLocked {
            fee: s.fee,
            lock_height: s.lock_height,
        }),
        s.lock_height == 0 ==> s.token_kernel_features() == TokenKernelFeatures::PlainToken,
        s.lock_height != 0 ==> s.token_kernel_features() == (
        TokenKernelFeatures::HeightLockedToken { lock_height: s.lock_height }),
{
}

/// Whether features are those of a slate's token kernel.
pub open spec fn token_features_fit(s: SlateView, features: TokenKernelFeatures) -> bool {
    &&& s.lock_height == 0 <==> features == TokenKernelFeatures::PlainToken
    &&& s.lock_height != 0 <==> features == (TokenKernelFeatures::HeightLockedToken {
        lock_height: s.lock_height,
    })
}

/// A slate without a token type is signed on the message of its kernel, and on no
/// other.
pub proof fn plain_slate_signs_its_kernel<K, M>(
    s: SlateView,
    token_key: K,
    token_msg: M,
    made: Result<Seq<u8>, ErrorView>,
) where
    K: Fn(&String) -> Result<TokenKey, Error>,
    M: Fn(TokenKernelFeatures, TokenKey) -> Result<Message, Error>,

    requires
        message_made(s, token_key, token_msg, made),
        s.token_type is None,
    ensures
        s.lock_height == 0 ==> made == Ok::<Seq<u8>, ErrorView>(
            curve::kernel_message(KernelFeatures::Plain { fee: s.fee }),
        ),
        s.lock_height != 0 ==> made == Ok::<Seq<u8>, ErrorView>(
            curve::kernel_message(
                KernelFeatures::HeightLocked { fee: s.fee, lock_height: s.lock_height },
            ),
        ),
{
}

/// A slate with a token type is signed on the message that the chain gives for the
/// features of its token kernel and for the key of its token type; where the chain
/// gives an error for either, that is the outcome.
pub proof fn token_slate_signs_its_token_kernel<K, M>(
    s: SlateView,
    token_key: K,
    token_msg: M,
    made: Result<Seq<u8>, ErrorView>,
) where
    K: Fn(&String) -> Result<TokenKey, Error>,
    M: Fn(TokenKernelFeatures, TokenKey) -> Result<Message, Error>,

    requires
        message_made(s, token_key, token_msg, made),
        s.token_type is Some,
    ensures
        exists|key: Result<TokenKey, Error>|
            {
                &&& #[trigger] token_key.ensures((&s.token_type.unwrap(),), key)
                &&& key matches Err(e) ==> made == Err::<Seq<u8>, ErrorView>(e@)
                &&& key matches Ok(k) ==> exists|features: TokenKernelFeatures,
                    m: Result<Message, Error>|
                    {
                        &&& token_features_fit(s, features)
                        &&& #[trigger] token_msg.ensures((features, k), m)
                        &&& m matches Ok(msg) ==> made == Ok::<Seq<u8>, ErrorView>(msg@)
                        &&& m matches Err(e) ==> made == Err::<Seq<u8>, ErrorView>(e@)
                    }
            },
{
    assert(token_message_made(s, token_key, token_msg, made));
    let t = s.token_type.unwrap();
    let key = choose|key: Result<TokenKey, Error>|
        token_key.ensures((&t,), key) && match key {
            Err(e) => made == Err::<Seq<u8>, ErrorView>(e@),
            Ok(k) => exists|m: Result<Message, Error>|
                token_msg.ensures((s.token_kernel_features(), k), m) && made
                    == crate::kernel::message_outcome(m),
        };
    assert(token_key.ensures((&s.token_type.unwrap(),), key));
    if let Ok(k) = key {
        let m = choose|m: Result<Message, Error>|
            token_msg.ensures((s.token_kernel_features(), k), m) && made
                == crate::kernel::message_outcome(m);
        assert(token_features_fit(s, s.token_kernel_features()));
        assert(token_msg.ensures((s.token_kernel_features(), k), m));
    }
}

/// An updated kernel is the only one, has the slate's fee and lock height and no
/// excess or signature yet; nothing else of the slate changes.
pub proof fn updated_kernel_is_unsigned(s: SlateView, updated: SlateView)
    requires
        kernel_updated(s, updated),
    ensures
        same_but_tx(s, updated),
        s.tx matches Some(tx) && updated.tx matches Some(new) && same_but_kernels(tx, new)
            && new.body.token_kernels == tx.body.token_kernels && new.body.kernels.len() == 1 && (
        s.lock_height == 0 ==> new.body.kernels[0].features == (KernelFeatures::Plain {
            fee: s.fee,
        })) && (s.lock_height != 0 ==> new.body.kernels[0].features == (
        KernelFeatures::HeightLocked { fee: s.fee, lock_height: s.lock_height })) && (forall|i: int|
            0 <= i < 33 ==> new.body.kernels[0].excess@[i] == 0) && (forall|i: int|
            0 <= i < 64 ==> new.body.kernels[0].excess_sig@[i] == 0),
{
}

/// Without a token type the token kernels stay as they are. With one, an updated
/// token kernel is the only one, has the lock height of the slate and the key of its
/// token type, and no excess or signature yet; nothing else of the slate changes.
pub proof fn updated_token_kernel_is_unsigned<K>(
    s: SlateView,
    updated: SlateView,
    token_key: K,
) where K: Fn(&String) -> Result<TokenKey, Error>
    requires
        token_kernel_updated(s, updated, token_key),
    ensures
        s.token_type is None ==> updated == s,
        s.token_type matches Some(t) ==> {
            &&& same_but_tx(s, updated)
            &&& s.tx is Some && updated.tx is Some
            &&& same_but_kernels(s.tx.unwrap(), updated.tx.unwrap())
            &&& updated.tx.unwrap().body.kernels == s.tx.unwrap().body.kernels
            &&& updated.tx.unwrap().body.token_kernels.len() == 1
            &&& token_features_fit(s, updated.tx.unwrap().body.token_kernels[0].features)
            &&& token_key.ensures(
                (&t,),
                Ok(updated.tx.unwrap().body.token_kernels[0].token_type),
            )
            &&& forall|i: int|
                0 <= i < 33 ==> updated.tx.unwrap().body.token_kernels[0].excess@[i] == 0
            &&& forall|i: int|
                0 <= i < 64 ==> updated.tx.unwrap().body.token_kernels[0].excess_sig@[i] == 0
        },
{
}

// Fees

/// A fee is accepted if and only if the kernels pay it and it is no more than the
/// amount and the slate's fee together. The first of these that fails decides the
/// error, which names what is paid and what is asked.
pub proof fn fee_is_judged(s: SlateView, fee: u64, checked: Result<(), ErrorView>)
    requires
        fee_checked(s, fee, checked),
    ensures
        s.tx is None ==> checked == Err::<(), ErrorView>(ErrorView::SlateTransactionRequired),
        s.tx matches Some(tx) ==> {
            &&& checked is Ok <==> fee <= tx.fee() && fee <= s.amount + s.fee
            &&& fee > tx.fee() ==> checked == Err::<(), ErrorView>(
                ErrorView::Fee(
                    "Fee Dispute Error: "@ + decimal_text(tx.fee() as nat) + ", "@ + decimal_text(
                        fee as nat,
                    ),
                ),
            )
            &&& fee <= tx.fee() && fee > s.amount + s.fee ==> exists|a: Seq<char>, b: Seq<char>|
                {
                    &&& #[trigger] curve::reads_as(fee, a)
                    &&& #[trigger] curve::reads_as((s.amount + s.fee) as u64, b)
                    &&& checked == Err::<(), ErrorView>(
                        ErrorView::Fee(
                            "Rejected the transfer because transaction fee ("@ + a
                                + ") exceeds received amount ("@ + b + ")."@,
                        ),
                    )
                }
        },
        fee_covered(s, fee) <==> (s.tx matches Some(tx) && fee <= tx.fee() && fee <= s.amount
            + s.fee),
{
}

/// The text of a rejection has the fee between the first brackets and the amount between
/// the second.
pub proof fn rejection_names_fee_and_amount(fee: Seq<char>, amount: Seq<char>)
    ensures
        rejection_text(fee, amount) == "Rejected the transfer because transaction fee ("@ + fee
            + ") exceeds received amount ("@ + amount + ")."@,
{
}

/// The fee that is held against a slate is the one that the chain asks for as many
/// elements as its transaction has.
pub proof fn fee_is_the_chains<F>(s: SlateView, tx_fee: F, checked: Result<(), ErrorView>) where
    F: Fn(ElementCounts) -> u64,

    requires
        fees_checked(s, tx_fee, checked),
    ensures
        s.tx is None ==> checked == Err::<(), ErrorView>(ErrorView::SlateTransactionRequired),
        s.tx matches Some(tx) ==> exists|counts: ElementCounts, fee: u64|
            {
                &&& #[trigger] tx_fee.ensures((counts,), fee)
                &&& counts.inputs == tx.body.inputs.len() as usize
                &&& counts.outputs == tx.body.outputs.len() as usize
                &&& counts.kernels == tx.body.kernels.len() as usize
                &&& counts.token_inputs == tx.body.token_inputs.len() as usize
                &&& counts.token_outputs == tx.body.token_outputs.len() as usize
                &&& counts.token_kernels == tx.body.token_kernels.len() as usize
                &&& checked is Ok <==> fee <= tx.fee() && fee <= s.amount + s.fee
                &&& checked matches Err(e) ==> e is Fee
            },
{
    if let Some(tx) = s.tx {
        let fee = choose|fee: u64|
            #[trigger] tx_fee.ensures((tx.counts(),), fee) && fee_checked(s, fee, checked);
        assert(tx_fee.ensures((tx.counts(),), fee));
        fee_is_judged(s, fee, checked);
    }
}

// Excesses

/// The excess takes in every input and every output of the transaction, and the fee
/// that its kernels pay, and then subtracts the commitment to zero under the offset. It
/// is there if and only if the offset is zero or a secret key and each step succeeds.
pub proof fn excess_takes_in_everything(tx: TransactionView, excess: Seq<u8>)
    ensures
        excess_outcome(tx) == Ok::<Seq<u8>, ErrorView>(excess) <==> {
            let sum = curve::committed_sum(
                Seq::new(tx.body.inputs.len(), |i: int| tx.body.inputs[i].commit@),
                Seq::new(tx.body.outputs.len(), |i: int| tx.body.outputs[i].commit@),
                #[verifier::truncate]
                (tx.fee() as i64),
            );
            let zero = curve::pedersen_commitment(0, tx.offset@);
            &&& is_secret_key(tx.offset@) || (tx.offset@.len() == 32 && forall|i: int|
                0 <= i < 32 ==> #[trigger] tx.offset@[i] == 0)
            &&& sum is Ok
            &&& zero is Some
            &&& curve::commitment_sum(seq![sum->Ok_0], seq![zero.unwrap()]) == Ok::<
                Seq<u8>,
                Seq<char>,
            >(excess)
        },
{
    assert(Seq::new(tx.body.inputs.len(), |i: int| tx.body.inputs[i].commit@)
        =~= tx.body.inputs.map_values(|input: Input| input.commit@));
    assert(Seq::new(tx.body.outputs.len(), |i: int| tx.body.outputs[i].commit@)
        =~= tx.body.outputs.map_values(|output: Output| output.commit@));
    if tx.offset@.len() == 32 && forall|i: int| 0 <= i < 32 ==> #[trigger] tx.offset@[i] == 0 {
        assert(tx.offset@ =~= crate::keys::zero_blind());
    }
}

/// Where there is no excess, the first step that fails says why: the sum of the
/// commitments, the offset as a key, its commitment, or the difference.
pub proof fn excess_names_its_fault(tx: TransactionView, fault: ErrorView)
    requires
        excess_outcome(tx) == Err::<Seq<u8>, ErrorView>(fault),
    ensures
        ({
            let sum = curve::committed_sum(
                Seq::new(tx.body.inputs.len(), |i: int| tx.body.inputs[i].commit@),
                Seq::new(tx.body.outputs.len(), |i: int| tx.body.outputs[i].commit@),
                #[verifier::truncate]
                (tx.fee() as i64),
            );
            let zero = curve::pedersen_commitment(0, tx.offset@);
            ||| sum matches Err(text) && fault == ErrorView::Committed(text)
            ||| sum is Ok && !is_secret_key(tx.offset@) && (exists|i: int|
                0 <= i < 32 && #[trigger] tx.offset@[i] != 0) && fault == ErrorView::Keychain(
                "Secp(InvalidSecretKey)"@,
            )
            ||| sum is Ok && zero is None && fault == ErrorView::Secp("InvalidCommit"@)
            ||| sum is Ok && zero is Some && (curve::commitment_sum(
                seq![sum->Ok_0],
                seq![zero.unwrap()],
            ) matches Err(text) && fault == ErrorView::Secp(text))
        }),
{
    assert(Seq::new(tx.body.inputs.len(), |i: int| tx.body.inputs[i].commit@)
        =~= tx.body.inputs.map_values(|input: Input| input.commit@));
    assert(Seq::new(tx.body.outputs.len(), |i: int| tx.body.outputs[i].commit@)
        =~= tx.body.outputs.map_values(|output: Output| output.commit@));
    if forall|i: int| 0 <= i < 32 ==> #[trigger] tx.offset@[i] == 0 {
        assert(tx.offset@ =~= crate::keys::zero_blind());
    }
}

/// The token excess is the sum of all token outputs of a kind less all token inputs of
/// that kind.
pub proof fn token_excess_takes_in_one_kind(tx: TransactionView, key: TokenKey)
    ensures
        ({
            let outputs = token_outputs_of(tx.body.token_outputs, key);
            let inputs = token_inputs_of(tx.body.token_inputs, key);
            let sum = curve::commitment_sum(
                Seq::new(outputs.len(), |i: int| outputs[i]@),
                Seq::new(inputs.len(), |i: int| inputs[i]@),
            );
            &&& sum matches Ok(excess) ==> token_excess_outcome(tx, key) == Ok::<
                Seq<u8>,
                ErrorView,
            >(excess)
            &&& sum matches Err(text) ==> token_excess_outcome(tx, key) == Err::<
                Seq<u8>,
                ErrorView,
            >(ErrorView::Secp(text))
        }),
{
    let outputs = token_outputs_of(tx.body.token_outputs, key);
    let inputs = token_inputs_of(tx.body.token_inputs, key);
    assert(Seq::new(outputs.len(), |i: int| outputs[i]@) =~= curve::commitment_bytes(outputs));
    assert(Seq::new(inputs.len(), |i: int| inputs[i]@) =~= curve::commitment_bytes(inputs));
}

/// The token excess of a slate is that of the kind that its token type has the key of.
pub proof fn token_excess_is_of_the_slates_kind<K>(
    s: SlateView,
    token_key: K,
    excess: Result<Seq<u8>, ErrorView>,
) where K: Fn(&String) -> Result<TokenKey, Error>
    requires
        token_excess_made(s, token_key, excess),
    ensures
        s.tx is None ==> excess == Err::<Seq<u8>, ErrorView>(ErrorView::SlateTransactionRequired),
        s.tx is Some ==> s.token_type is Some && exists|key: Result<TokenKey, Error>|
            {
                &&& #[trigger] token_key.ensures((&s.token_type.unwrap(),), key)
                &&& key matches Err(e) ==> excess == Err::<Seq<u8>, ErrorView>(e@)
                &&& key matches Ok(k) ==> excess == token_excess_outcome(s.tx.unwrap(), k)
            },
{
}

// Elements and issues

/// Where elements are added, the builder is handed the slate's transaction with its
/// kernels updated and everything else as it was, and what it gives back becomes the
/// slate's transaction; where it fails, the updated kernels are all that changed.
pub proof fn builder_extends_the_transaction<K, B>(
    s: SlateView,
    after: SlateView,
    token_key: K,
    build: B,
    r: Result<(BlindingFactor, BlindingFactor), ErrorView>,
) where
    K: Fn(&String) -> Result<TokenKey, Error>,
    B: FnOnce(Transaction) -> Result<(Transaction, BlindingFactor, BlindingFactor), Error>,

    requires
        elements_added(s, after, token_key, build, r),
    ensures
        same_but_tx(s, after),
        s.tx is Some && after.tx is Some,
        exists|tx: Transaction, built: Result<(Transaction, BlindingFactor, BlindingFactor), Error>|
            {
                &&& #[trigger] build.ensures((tx,), built)
                &&& same_but_kernels(s.tx.unwrap(), tx@)
                &&& tx@.body.kernels.len() == 1
                &&& tx@.body.kernels[0].features == s.kernel_features()
                &&& s.token_type is None ==> tx@.body.token_kernels
                    == s.tx.unwrap().body.token_kernels
                &&& s.token_type is Some ==> tx@.body.token_kernels.len() == 1
                    && token_features_fit(s, tx@.body.token_kernels[0].features)
                &&& built matches Ok(b) ==> after.tx == Some(b.0@) && r == Ok::<
                    (BlindingFactor, BlindingFactor),
                    ErrorView,
                >((b.1, b.2))
                &&& built matches Err(e) ==> after.tx == Some(tx@) && r == Err::<
                    (BlindingFactor, BlindingFactor),
                    ErrorView,
                >(e@)
            },
{
    let (with_kernel, with_both, tx) = choose|
        with_kernel: SlateView,
        with_both: SlateView,
        tx: Transaction,
    |
        {
            &&& #[trigger] kernel_updated(s, with_kernel)
            &&& #[trigger] token_kernel_updated(with_kernel, with_both, token_key)
            &&& with_both.tx == Some(#[trigger] tx@)
            &&& exists|built: Result<(Transaction, BlindingFactor, BlindingFactor), Error>|
                {
                    &&& #[trigger] build.ensures((tx,), built)
                    &&& match built {
                        Ok((built_tx, blind, token_blind)) => {
                            &&& r == Ok::<_, ErrorView>((blind, token_blind))
                            &&& after == with_both.with_tx(built_tx@)
                        },
                        Err(e) => r == Err::<(BlindingFactor, BlindingFactor), _>(e@) && after
                            == with_both,
                    }
                }
        };
    updated_kernel_is_unsigned(s, with_kernel);
    updated_token_kernel_is_unsigned(with_kernel, with_both, token_key);
    let built = choose|built: Result<(Transaction, BlindingFactor, BlindingFactor), Error>|
        {
            &&& #[trigger] build.ensures((tx,), built)
            &&& match built {
                Ok((built_tx, blind, token_blind)) => {
                    &&& r == Ok::<_, ErrorView>((blind, token_blind))
                    &&& after == with_both.with_tx(built_tx@)
                },
                Err(e) => r == Err::<(BlindingFactor, BlindingFactor), _>(e@) && after == with_both,
            }
        };
    assert(build.ensures((tx,), built));
}

/// The excess of an issue is the first token output less the amount: the commitment to
/// the amount under no blinding factor is subtracted, and the rest is read as a public
/// key.
pub proof fn issue_excess_leaves_the_key(
    tx: TransactionView,
    amount: u64,
    excess: Seq<u8>,
    key: Seq<u8>,
)
    ensures
        issue_excess(tx, amount) == Ok::<(Seq<u8>, Seq<u8>), ErrorView>((excess, key)) <==> exists|
            value: Seq<u8>,
        |
            {
                &&& curve::pedersen_commitment(amount, Seq::new(32, |i: int| 0u8)) == Some(value)
                &&& #[trigger] curve::commitment_sum(
                    seq![tx.body.token_outputs[0].commit@],
                    seq![value],
                ) == Ok::<Seq<u8>, Seq<char>>(excess)
                &&& curve::commitment_key(excess) == Some(key)
            },
{
    assert(Seq::new(32, |i: int| 0u8) =~= crate::keys::zero_blind());
}

/// An issue that succeeds puts in one token kernel: it issues the token of the slate's
/// token type, has the excess of the amount, and a signature on the chain's message for
/// it by the key that the keychain derives for the output. Nothing else of the slate
/// changes. An issue that fails changes nothing at all, and without a token type there
/// is nothing to issue.
pub proof fn issue_puts_in_its_kernel<K, M>(
    s: SlateView,
    after: SlateView,
    master: (Seq<u8>, Seq<u8>),
    amount: u64,
    output_id: Identifier,
    token_key: K,
    token_msg: M,
    r: Result<(), ErrorView>,
) where
    K: Fn(&String) -> Result<TokenKey, Error>,
    M: Fn(TokenKernelFeatures, TokenKey) -> Result<Message, Error>,

    requires
        token_issued(s, after, master, amount, output_id, token_key, token_msg, r),
    ensures
        s.token_type is None ==> r is Ok && after == s,
        r is Err ==> after == s,
        s.token_type is Some && r is Ok ==> {
            &&& same_but_tx(s, after)
            &&& s.tx is Some && after.tx is Some
            &&& same_but_kernels(s.tx.unwrap(), after.tx.unwrap())
            &&& after.tx.unwrap().body.kernels == s.tx.unwrap().body.kernels
            &&& after.tx.unwrap().body.token_kernels.len() == 1
            &&& exists|key: TokenKey, msg: Message, excess_key: Seq<u8>, secret: Seq<u8>|
                {
                    &&& #[trigger] token_key.ensures((&s.token_type.unwrap(),), Ok(key))
                    &&& #[trigger] token_msg.ensures(
                        (TokenKernelFeatures::IssueToken, key),
                        Ok(msg),
                    )
                    &&& after.tx.unwrap().body.token_kernels[0].features is IssueToken
                    &&& after.tx.unwrap().body.token_kernels[0].token_type == key
                    &&& issue_excess(s.tx.unwrap(), amount) == Ok::<
                        (Seq<u8>, Seq<u8>),
                        ErrorView,
                    >((after.tx.unwrap().body.token_kernels[0].excess@, excess_key))
                    &&& is_secret_key(master.0)
                    &&& curve::derived_key(master.0, master.1, amount, output_id.bytes@) == Ok::<
                        Seq<u8>,
                        Seq<char>,
                    >(secret)
                    &&& #[trigger] curve::signature_valid(
                        after.tx.unwrap().body.token_kernels[0].excess_sig@,
                        msg@,
                        None,
                        curve::public_key_of(secret),
                        Some(excess_key),
                        false,
                    )
                }
        },
{
    if s.token_type is Some && r is Ok {
        let t = s.token_type.unwrap();
        let tx = s.tx.unwrap();
        let (excess, excess_key) = issue_excess(tx, amount)->Ok_0;
        let secret = issue_key(master, amount, output_id)->Ok_0;
        let key = choose|key: Result<TokenKey, Error>|
            {
                &&& #[trigger] token_key.ensures((&t,), key)
                &&& match key {
                    Err(e) => r == Err::<(), ErrorView>(e@) && after == s,
                    Ok(k) => match s.tx {
                        None => r == Err::<(), ErrorView>(ErrorView::SlateTransactionRequired)
                            && after == s,
                        Some(tx) => match issue_excess(tx, amount) {
                            Err(e) => r == Err::<(), ErrorView>(e) && after == s,
                            Ok((excess, excess_key)) => issue_completed(
                                s,
                                after,
                                tx,
                                k,
                                excess,
                                excess_key,
                                issue_key(master, amount, output_id),
                                token_msg,
                                r,
                            ),
                        },
                    },
                }
            };
        let k = key->Ok_0;
        let m = choose|m: Result<Message, Error>|
            #[trigger] token_msg.ensures((TokenKernelFeatures::IssueToken, k), m) && (m matches Ok(
                msg,
            ) && issue_signed(s, after, tx, k, excess, excess_key, msg@, secret));
        let msg = m->Ok_0;
        assert(token_key.ensures((&s.token_type.unwrap(),), Ok(k)));
        assert(token_msg.ensures((TokenKernelFeatures::IssueToken, k), Ok(msg)));
        let kernel = choose|kernel: TokenTxKernel|
            issues(kernel, k, excess, excess_key, msg@, secret) && after == s.with_tx(
                #[trigger] tx.replace_token_kernel(kernel),
            );
        assert(after.tx.unwrap().body.token_kernels[0] == kernel);
        assert(curve::signature_valid(
            kernel.excess_sig@,
            msg@,
            None,
            curve::public_key_of(secret),
            Some(excess_key),
            false,
        ));
    }
}

/// Signing an issue puts in one token kernel with what was handed in, signed with the
/// given key, and changes nothing else.
pub proof fn signed_issue_has_what_was_given(
    s: SlateView,
    after: SlateView,
    tx: TransactionView,
    key: TokenKey,
    excess: Seq<u8>,
    excess_key: Seq<u8>,
    msg: Seq<u8>,
    secret: Seq<u8>,
)
    requires
        issue_signed(s, after, tx, key, excess, excess_key, msg, secret),
    ensures
        same_but_tx(s, after),
        after.tx matches Some(new) && same_but_kernels(tx, new) && new.body.kernels
            == tx.body.kernels && new.body.token_kernels.len() == 1
            && new.body.token_kernels[0].features == TokenKernelFeatures::IssueToken
            && new.body.token_kernels[0].token_type == key && new.body.token_kernels[0].excess@
            == excess && curve::signature_valid(
            new.body.token_kernels[0].excess_sig@,
            msg,
            None,
            curve::public_key_of(secret),
            Some(excess_key),
            false,
        ),
{
}

/// An issue succeeds where everything that it needs is there: the token type has a key,
/// there is a transaction and an excess, there is a message, and the keychain has a
/// key.
pub proof fn issue_succeeds_with_everything<K, M>(
    s: SlateView,
    after: SlateView,
    master: (Seq<u8>, Seq<u8>),
    amount: u64,
    output_id: Identifier,
    token_key: K,
    token_msg: M,
    r: Result<(), ErrorView>,
) where
    K: Fn(&String) -> Result<TokenKey, Error>,
    M: Fn(TokenKernelFeatures, TokenKey) -> Result<Message, Error>,

    requires
        token_issued(s, after, master, amount, output_id, token_key, token_msg, r),
        s.token_type is Some,
        forall|key: Result<TokenKey, Error>| #[trigger]
            token_key.ensures((&s.token_type.unwrap(),), key) ==> key is Ok,
        forall|key: TokenKey, m: Result<Message, Error>| #[trigger]
            token_msg.ensures((TokenKernelFeatures::IssueToken, key), m) ==> m is Ok,
    ensures
        s.tx is None ==> r == Err::<(), ErrorView>(ErrorView::SlateTransactionRequired),
        s.tx is Some ==> (issue_excess(s.tx.unwrap(), amount) matches Err(e) ==> r == Err::<
            (),
            ErrorView,
        >(e)),
        s.tx is Some && issue_excess(s.tx.unwrap(), amount) is Ok && is_secret_key(master.0) ==> (
        r is Ok <==> curve::derived_key(master.0, master.1, amount, output_id.bytes@) is Ok),
        s.tx is Some && issue_excess(s.tx.unwrap(), amount) is Ok && is_secret_key(master.0) ==> (
        curve::derived_key(master.0, master.1, amount, output_id.bytes@) matches Err(text) ==> r
            == Err::<(), ErrorView>(ErrorView::LibTx(text))),
        s.tx is Some && issue_excess(s.tx.unwrap(), amount) is Ok && !is_secret_key(master.0) ==> r
            == Err::<(), ErrorView>(ErrorView::LibTx("InvalidSecretKey"@)),
{
}

} // verus!
