//! What finalizing a slate checks and changes.
use crate::curve;
use crate::error::{outcome, Error, ErrorView};
use crate::finalize::{
    all_signed, final_signature, finalized, kernel_signed, kernel_signed_by, parent_excess,
    parent_tx_finalized, token_kernel_signed, token_tx_confirmed, token_tx_finalized, tx_confirmed,
    tx_finalized,
};
use crate::kernel::{excess_outcome, fees_checked, message_made, token_excess_made};
use crate::keys::{is_secret_key, Message, TokenKey};
use crate::participant::ParticipantData;
use crate::round_laws::{
    every_share_holds, ids_do_not_matter, shares_accepted_iff_all_hold, sums_are_over_everybody,
};
use crate::slate::{Slate, SlateView};
use crate::transaction::{
    ElementCounts, KernelFeatures, TokenKernelFeatures, TokenTxKernel, Transaction,
    TransactionView,
};
use crate::transaction_laws::{same_but_kernels, same_but_tx};
use vstd::prelude::*;

verus! {

/// Whether the signature of a kernel holds: its excess is read as a public key, under
/// which the signature is a whole one on the message of the kernel's own features.
pub open spec fn kernel_holds(features: KernelFeatures, excess: Seq<u8>, sig: Seq<u8>) -> bool {
    &&& curve::commitment_key(excess) is Some
    &&& curve::signature_valid(
        sig,
        curve::kernel_message(features),
        None,
        curve::commitment_key(excess).unwrap(),
        curve::commitment_key(excess),
        false,
    )
}

/// Signing the kernel of a transaction changes its excess and its signature to the given
/// ones, and nothing else: the kernel keeps its features.
pub proof fn signed_kernel_keeps_its_features(
    tx: TransactionView,
    signed: TransactionView,
    excess: Seq<u8>,
    sig: Seq<u8>,
)
    requires
        kernel_signed(tx, signed, excess, sig),
    ensures
        same_but_kernels(tx, signed),
        signed.body.token_kernels == tx.body.token_kernels,
        signed.body.kernels.len() == 1,
        signed.body.kernels[0].features == tx.body.kernels[0].features,
        signed.body.kernels[0].excess@ == excess,
        signed.body.kernels[0].excess_sig@ == sig,
{
}

/// Signing the token kernel of a transaction changes its excess and its signature to the
/// given ones, and nothing else: the token kernel keeps its features, its lock height
/// with them, and its token type.
pub proof fn signed_token_kernel_keeps_its_features(
    tx: TransactionView,
    signed: TransactionView,
    excess: Seq<u8>,
    sig: Seq<u8>,
)
    requires
        token_kernel_signed(tx, signed, excess, sig),
    ensures
        same_but_kernels(tx, signed),
        signed.body.kernels == tx.body.kernels,
        signed.body.token_kernels.len() == 1,
        signed.body.token_kernels[0].features == tx.body.token_kernels[0].features,
        signed.body.token_kernels[0].token_type == tx.body.token_kernels[0].token_type,
        signed.body.token_kernels[0].excess@ == excess,
        signed.body.token_kernels[0].excess_sig@ == sig,
{
}

/// Signing a kernel can be undone: signed again with the excess and the signature that it
/// had, the transaction is the one that it was. So it is with a token kernel.
pub proof fn signing_can_be_undone(
    tx: TransactionView,
    signed: TransactionView,
    back: TransactionView,
    excess: Seq<u8>,
    sig: Seq<u8>,
)
    ensures
        tx.body.kernels.len() == 1 && kernel_signed(tx, signed, excess, sig) && kernel_signed(
            signed,
            back,
            tx.body.kernels[0].excess@,
            tx.body.kernels[0].excess_sig@,
        ) ==> {
            &&& back.offset == tx.offset
            &&& back.body.inputs == tx.body.inputs
            &&& back.body.outputs == tx.body.outputs
            &&& back.body.token_inputs == tx.body.token_inputs
            &&& back.body.token_outputs == tx.body.token_outputs
            &&& back.body.token_kernels == tx.body.token_kernels
            &&& back.body.kernels.len() == 1
            &&& back.body.kernels[0].features == tx.body.kernels[0].features
            &&& back.body.kernels[0].excess@ == tx.body.kernels[0].excess@
            &&& back.body.kernels[0].excess_sig@ == tx.body.kernels[0].excess_sig@
        },
        tx.body.token_kernels.len() == 1 && token_kernel_signed(tx, signed, excess, sig)
            && token_kernel_signed(
            signed,
            back,
            tx.body.token_kernels[0].excess@,
            tx.body.token_kernels[0].excess_sig@,
        ) ==> {
            &&& back.offset == tx.offset
            &&& back.body.inputs == tx.body.inputs
            &&& back.body.outputs == tx.body.outputs
            &&& back.body.token_inputs == tx.body.token_inputs
            &&& back.body.token_outputs == tx.body.token_outputs
            &&& back.body.kernels == tx.body.kernels
            &&& back.body.token_kernels.len() == 1
            &&& back.body.token_kernels[0].features == tx.body.token_kernels[0].features
            &&& back.body.token_kernels[0].token_type == tx.body.token_kernels[0].token_type
            &&& back.body.token_kernels[0].excess@ == tx.body.token_kernels[0].excess@
            &&& back.body.token_kernels[0].excess_sig@ == tx.body.token_kernels[0].excess_sig@
        },
{
}

/// A final signature is made if and only if every partial signature holds, both sums can
/// be taken, and the partial signatures of all participants, in their order, add up to a
/// signature that holds under the sum of the blinding factors. It is then that sum.
pub proof fn final_signature_is_the_sum(parts: Seq<ParticipantData>, msg: Seq<u8>, sig: Seq<u8>)
    ensures
        ({
            let nonces = curve::key_sum(Seq::new(parts.len(), |i: int| parts[i].public_nonce@));
            let blinds = curve::key_sum(
                Seq::new(parts.len(), |i: int| parts[i].public_blind_excess@),
            );
            final_signature(parts, msg) == Ok::<Seq<u8>, ErrorView>(sig) <==> {
                &&& every_share_holds(parts, msg)
                &&& nonces is Some
                &&& blinds is Some
                &&& curve::signature_sum(
                    Seq::new(parts.len(), |i: int| parts[i].part_sig.unwrap()@),
                    nonces.unwrap(),
                ) == Ok::<Seq<u8>, Seq<char>>(sig)
                &&& curve::signature_valid(sig, msg, None, blinds.unwrap(), blinds, true)
            }
        }),
{
    sums_are_over_everybody(parts);
    shares_accepted_iff_all_hold(parts, msg);
    assert(Seq::new(parts.len(), |i: int| parts[i].part_sig.unwrap()@) =~= parts.map_values(
        |p: ParticipantData| p.part_sig.unwrap()@,
    ));
}

/// Who the participants are does not matter to the final signature either.
pub proof fn final_signature_is_without_ids(
    parts: Seq<ParticipantData>,
    others: Seq<ParticipantData>,
    msg: Seq<u8>,
)
    requires
        parts.len() == others.len(),
        forall|i: int|
            0 <= i < parts.len() ==> (#[trigger] others[i]) == (ParticipantData {
                id: others[i].id,
                ..parts[i]
            }),
    ensures
        final_signature(parts, msg) == final_signature(others, msg),
{
    ids_do_not_matter(parts, others, seq![], seq![], msg);
    assert(parts.map_values(|p: ParticipantData| p.part_sig.unwrap()@) =~= others.map_values(
        |p: ParticipantData| p.part_sig.unwrap()@,
    ));
}

/// Where no final signature is made, the error is that of a sum of keys, that of the sum of
/// the partial signatures, or that of a signature which does not hold.
pub proof fn final_signature_names_its_fault(
    parts: Seq<ParticipantData>,
    msg: Seq<u8>,
    e: ErrorView,
)
    requires
        final_signature(parts, msg) == Err::<Seq<u8>, ErrorView>(e),
    ensures
        ({
            let nonces = curve::key_sum(Seq::new(parts.len(), |i: int| parts[i].public_nonce@));
            let blinds = curve::key_sum(
                Seq::new(parts.len(), |i: int| parts[i].public_blind_excess@),
            );
            let bad = ErrorView::LibTx("Signature(\"Signature validation error\")"@);
            if nonces is None || blinds is None {
                e == ErrorView::Secp("InvalidPublicKey"@)
            } else if !every_share_holds(parts, msg) {
                e == bad
            } else {
                match curve::signature_sum(
                    Seq::new(parts.len(), |i: int| parts[i].part_sig.unwrap()@),
                    nonces.unwrap(),
                ) {
                    Err(text) => e == ErrorView::LibTx(text),
                    Ok(sig) => e == bad && !curve::signature_valid(
                        sig,
                        msg,
                        None,
                        blinds.unwrap(),
                        blinds,
                        true,
                    ),
                }
            }
        }),
{
    sums_are_over_everybody(parts);
    shares_accepted_iff_all_hold(parts, msg);
    assert(Seq::new(parts.len(), |i: int| parts[i].part_sig.unwrap()@) =~= parts.map_values(
        |p: ParticipantData| p.part_sig.unwrap()@,
    ));
}

/// A signed transaction is confirmed if and only if its kernel holds and, where that is
/// asked, the chain accepts the transaction as it now is. The kernel is judged first.
pub proof fn confirmed_iff_kernel_and_chain<V>(
    tx: Transaction,
    validate: V,
    with_validate: bool,
    r: Result<(), ErrorView>,
) where V: Fn(&Transaction) -> Result<(), Error>
    requires
        tx_confirmed(tx, validate, with_validate, r),
    ensures
        ({
            let kernel = tx@.body.kernels[0];
            let holds = kernel_holds(kernel.features, kernel.excess@, kernel.excess_sig@);
            &&& !holds ==> (r matches Err(e) && e is Transaction)
            &&& !holds && curve::commitment_key(kernel.excess@) is Some ==> r == Err::<
                (),
                ErrorView,
            >(ErrorView::Transaction("IncorrectSignature"@))
            &&& holds && !with_validate ==> r == Ok::<(), ErrorView>(())
            &&& holds && with_validate ==> exists|valid: Result<(), Error>|
                {
                    &&& #[trigger] validate.ensures((&tx,), valid)
                    &&& valid is Ok <==> r is Ok
                    &&& valid matches Err(e) ==> r == Err::<(), ErrorView>(e@)
                }
        }),
{
    let kernel = tx@.body.kernels[0];
    if kernel_holds(kernel.features, kernel.excess@, kernel.excess_sig@) && with_validate {
        let valid = choose|valid: Result<(), Error>| #[trigger]
            validate.ensures((&tx,), valid) && r == outcome(valid);
        assert(validate.ensures((&tx,), valid));
    }
}

/// A signed token transaction is confirmed if and only if the chain accepts its token
/// kernel, and then the transaction, both as they now are.
pub proof fn token_confirmed_iff_chain<T, V>(
    tx: Transaction,
    verify_token: T,
    validate: V,
    r: Result<(), ErrorView>,
) where T: Fn(&TokenTxKernel) -> Result<(), Error>, V: Fn(&Transaction) -> Result<(), Error>
    requires
        token_tx_confirmed(tx, verify_token, validate, r),
    ensures
        exists|holds: Result<(), Error>|
            {
                &&& #[trigger] verify_token.ensures((&tx@.body.token_kernels[0],), holds)
                &&& holds matches Err(e) ==> r == Err::<(), ErrorView>(e@)
                &&& holds is Ok ==> exists|valid: Result<(), Error>|
                    {
                        &&& #[trigger] validate.ensures((&tx,), valid)
                        &&& valid is Ok <==> r is Ok
                        &&& valid matches Err(e) ==> r == Err::<(), ErrorView>(e@)
                    }
            },
{
    let holds = choose|holds: Result<(), Error>|
        {
            &&& #[trigger] verify_token.ensures((&tx@.body.token_kernels[0],), holds)
            &&& match holds {
                Err(e) => r == Err::<(), ErrorView>(e@),
                Ok(_) => exists|valid: Result<(), Error>| #[trigger]
                    validate.ensures((&tx,), valid) && r == outcome(valid),
            }
        };
    assert(verify_token.ensures((&tx@.body.token_kernels[0],), holds));
    if holds is Ok {
        let valid = choose|valid: Result<(), Error>| #[trigger]
            validate.ensures((&tx,), valid) && r == outcome(valid);
        assert(validate.ensures((&tx,), valid));
    }
}

/// Finalizing a plain transaction. It succeeds only where the fees pass, the kernel with
/// the transaction's excess and the final signature holds on its own features, and the
/// chain accepts the transaction. The kernel keeps its features, and nothing of the slate
/// changes but its excess and its signature; before these are put in, nothing changes at
/// all.
pub proof fn finalized_tx_holds<F, V>(
    s: SlateView,
    after: Slate,
    sig: Seq<u8>,
    tx_fee: F,
    validate: V,
    r: Result<(), ErrorView>,
) where F: Fn(ElementCounts) -> u64, V: Fn(&Transaction) -> Result<(), Error>
    requires
        tx_finalized(s, after, sig, tx_fee, validate, r),
    ensures
        same_but_tx(s, after@),
        after@ == s || {
            &&& s.tx is Some && after.tx is Some
            &&& same_but_kernels(s.tx.unwrap(), after.tx.unwrap()@)
            &&& after.tx.unwrap()@.body.token_kernels == s.tx.unwrap().body.token_kernels
            &&& after.tx.unwrap()@.body.kernels.len() == 1
            &&& after.tx.unwrap()@.body.kernels[0].features
                == s.tx.unwrap().body.kernels[0].features
            &&& excess_outcome(s.tx.unwrap()) == Ok::<Seq<u8>, ErrorView>(
                after.tx.unwrap()@.body.kernels[0].excess@,
            )
            &&& after.tx.unwrap()@.body.kernels[0].excess_sig@ == sig
        },
        r is Ok ==> {
            &&& s.tx is Some && after.tx is Some
            &&& fees_checked(s, tx_fee, Ok(()))
            &&& excess_outcome(s.tx.unwrap()) is Ok
            &&& after.tx.unwrap()@.body.kernels[0].features
                == s.tx.unwrap().body.kernels[0].features
            &&& after.tx.unwrap()@.body.kernels[0].excess_sig@ == sig
            &&& kernel_holds(
                s.tx.unwrap().body.kernels[0].features,
                excess_outcome(s.tx.unwrap())->Ok_0,
                sig,
            )
            &&& exists|valid: Result<(), Error>| #[trigger]
                validate.ensures((&after.tx.unwrap(),), valid) && valid is Ok
        },
        r is Err ==> {
            ||| fees_checked(s, tx_fee, r) && after@ == s
            ||| s.tx is Some && excess_outcome(s.tx.unwrap()) == Err::<Seq<u8>, ErrorView>(
                r->Err_0,
            ) && after@ == s
            ||| s.tx is Some && excess_outcome(s.tx.unwrap()) is Ok && !kernel_holds(
                s.tx.unwrap().body.kernels[0].features,
                excess_outcome(s.tx.unwrap())->Ok_0,
                sig,
            )
            ||| exists|valid: Result<(), Error>| #[trigger]
                validate.ensures((&after.tx.unwrap(),), valid) && valid is Err
        },
{
    if !(r is Err && after@ == s && fees_checked(s, tx_fee, r)) && excess_outcome(
        s.tx.unwrap(),
    ) is Ok {
        signed_kernel_keeps_its_features(
            s.tx.unwrap(),
            after.tx.unwrap()@,
            excess_outcome(s.tx.unwrap())->Ok_0,
            sig,
        );
        confirmed_iff_kernel_and_chain(after.tx.unwrap(), validate, true, r);
    }
}

/// Finalizing a token transaction. It succeeds only where the fees pass, there is an excess
/// of the slate's tokens, and the chain accepts the token kernel with that excess and the
/// final signature, and the transaction. The token kernel keeps its features and its token
/// type, and nothing of the slate changes but its excess and its signature; before these
/// are put in, nothing changes at all.
pub proof fn finalized_token_tx_keeps_its_features<F, K, T, V>(
    s: SlateView,
    after: Slate,
    sig: Seq<u8>,
    tx_fee: F,
    token_key: K,
    verify_token: T,
    validate: V,
    r: Result<(), ErrorView>,
) where
    F: Fn(ElementCounts) -> u64,
    K: Fn(&String) -> Result<TokenKey, Error>,
    T: Fn(&TokenTxKernel) -> Result<(), Error>,
    V: Fn(&Transaction) -> Result<(), Error>,

    requires
        token_tx_finalized(s, after, sig, tx_fee, token_key, verify_token, validate, r),
    ensures
        same_but_tx(s, after@),
        after@ == s || {
            &&& s.tx is Some && after.tx is Some
            &&& same_but_kernels(s.tx.unwrap(), after.tx.unwrap()@)
            &&& after.tx.unwrap()@.body.kernels == s.tx.unwrap().body.kernels
            &&& after.tx.unwrap()@.body.token_kernels.len() == 1
            &&& after.tx.unwrap()@.body.token_kernels[0].features
                == s.tx.unwrap().body.token_kernels[0].features
            &&& after.tx.unwrap()@.body.token_kernels[0].token_type
                == s.tx.unwrap().body.token_kernels[0].token_type
            &&& token_excess_made(
                s,
                token_key,
                Ok(after.tx.unwrap()@.body.token_kernels[0].excess@),
            )
            &&& after.tx.unwrap()@.body.token_kernels[0].excess_sig@ == sig
        },
        r is Ok ==> {
            &&& s.tx is Some && after.tx is Some
            &&& fees_checked(s, tx_fee, Ok(()))
            &&& after.tx.unwrap()@.body.token_kernels.len() == 1
            &&& after.tx.unwrap()@.body.token_kernels[0].features
                == s.tx.unwrap().body.token_kernels[0].features
            &&& after.tx.unwrap()@.body.token_kernels[0].token_type
                == s.tx.unwrap().body.token_kernels[0].token_type
            &&& after.tx.unwrap()@.body.token_kernels[0].excess_sig@ == sig
            &&& token_excess_made(
                s,
                token_key,
                Ok(after.tx.unwrap()@.body.token_kernels[0].excess@),
            )
            &&& exists|holds: Result<(), Error>| #[trigger]
                verify_token.ensures((&after.tx.unwrap()@.body.token_kernels[0],), holds)
                    && holds is Ok
            &&& exists|valid: Result<(), Error>| #[trigger]
                validate.ensures((&after.tx.unwrap(),), valid) && valid is Ok
        },
        r is Err ==> {
            ||| fees_checked(s, tx_fee, r) && after@ == s
            ||| token_excess_made(s, token_key, Err(r->Err_0)) && after@ == s
            ||| exists|holds: Result<(), Error>| #[trigger]
                verify_token.ensures((&after.tx.unwrap()@.body.token_kernels[0],), holds)
                    && holds is Err
            ||| exists|valid: Result<(), Error>| #[trigger]
                validate.ensures((&after.tx.unwrap(),), valid) && valid is Err
        },
{
    if !(r is Err && after@ == s && fees_checked(s, tx_fee, r)) && !(r is Err && after@ == s
        && fees_checked(s, tx_fee, Ok(())) && token_excess_made(s, token_key, Err(r->Err_0))) {
        let excess = choose|excess: Seq<u8>| #[trigger]
            token_excess_made(s, token_key, Ok(excess)) && token_kernel_signed(
                s.tx.unwrap(),
                after.tx.unwrap()@,
                excess,
                sig,
            );
        signed_token_kernel_keeps_its_features(
            s.tx.unwrap(),
            after.tx.unwrap()@,
            excess,
            sig,
        );
        token_confirmed_iff_chain(after.tx.unwrap(), verify_token, validate, r);
    }
}

/// The excess of a token parent transaction is the transaction's excess, read as a public
/// key.
pub proof fn parent_excess_is_a_key(tx: TransactionView, excess: Seq<u8>, key: Seq<u8>)
    ensures
        parent_excess(tx) == Ok::<(Seq<u8>, Seq<u8>), ErrorView>((excess, key))
            <==> excess_outcome(tx) == Ok::<Seq<u8>, ErrorView>(excess) && curve::commitment_key(
            excess,
        ) == Some(key),
        excess_outcome(tx) matches Err(e) ==> parent_excess(tx) == Err::<
            (Seq<u8>, Seq<u8>),
            ErrorView,
        >(e),
        excess_outcome(tx) == Ok::<Seq<u8>, ErrorView>(excess) && curve::commitment_key(
            excess,
        ) is None ==> parent_excess(tx) == Err::<(Seq<u8>, Seq<u8>), ErrorView>(
            ErrorView::Secp("InvalidCommit"@),
        ),
{
}

/// Finalizing a token parent transaction. The kernel gets the transaction's excess and a
/// signature by the given key on the message of the slate's fee and lock height; it keeps
/// its features, and nothing else of the slate changes. It succeeds only where the fees
/// pass and the kernel then holds on its own features, and where that is asked the chain
/// accepts the transaction.
pub proof fn finalized_parent_tx_holds<F, V>(
    s: SlateView,
    after: Slate,
    secret: Seq<u8>,
    with_validate: bool,
    tx_fee: F,
    validate: V,
    r: Result<(), ErrorView>,
) where F: Fn(ElementCounts) -> u64, V: Fn(&Transaction) -> Result<(), Error>
    requires
        parent_tx_finalized(s, after, secret, with_validate, tx_fee, validate, r),
    ensures
        same_but_tx(s, after@),
        after@ == s || {
            &&& s.tx is Some && after.tx is Some
            &&& same_but_kernels(s.tx.unwrap(), after.tx.unwrap()@)
            &&& after.tx.unwrap()@.body.token_kernels == s.tx.unwrap().body.token_kernels
            &&& after.tx.unwrap()@.body.kernels.len() == 1
        },
        r is Ok ==> {
            let kernel = after.tx.unwrap()@.body.kernels[0];
            let key = curve::commitment_key(kernel.excess@);
            &&& s.tx is Some && after.tx is Some
            &&& fees_checked(s, tx_fee, Ok(()))
            &&& kernel.features == s.tx.unwrap().body.kernels[0].features
            &&& excess_outcome(s.tx.unwrap()) == Ok::<Seq<u8>, ErrorView>(kernel.excess@)
            &&& kernel_holds(kernel.features, kernel.excess@, kernel.excess_sig@)
            &&& is_secret_key(secret) && s.lock_height == 0 ==> curve::signature_valid(
                kernel.excess_sig@,
                curve::kernel_message(KernelFeatures::Plain { fee: s.fee }),
                None,
                curve::public_key_of(secret),
                key,
                false,
            )
            &&& is_secret_key(secret) && s.lock_height != 0 ==> curve::signature_valid(
                kernel.excess_sig@,
                curve::kernel_message(
                    KernelFeatures::HeightLocked { fee: s.fee, lock_height: s.lock_height },
                ),
                None,
                curve::public_key_of(secret),
                key,
                false,
            )
            &&& with_validate ==> exists|valid: Result<(), Error>| #[trigger]
                validate.ensures((&after.tx.unwrap(),), valid) && valid is Ok
        },
        r is Err ==> {
            ||| fees_checked(s, tx_fee, r) && after@ == s
            ||| s.tx is Some && parent_excess(s.tx.unwrap()) == Err::<
                (Seq<u8>, Seq<u8>),
                ErrorView,
            >(r->Err_0) && after@ == s
            ||| after.tx is Some && !kernel_holds(
                after.tx.unwrap()@.body.kernels[0].features,
                after.tx.unwrap()@.body.kernels[0].excess@,
                after.tx.unwrap()@.body.kernels[0].excess_sig@,
            ) && r->Err_0 is Transaction
            ||| with_validate && exists|valid: Result<(), Error>| #[trigger]
                validate.ensures((&after.tx.unwrap(),), valid) && valid is Err
        },
{
    if !(r is Err && after@ == s && fees_checked(s, tx_fee, r)) && parent_excess(
        s.tx.unwrap(),
    ) is Ok {
        let (excess, excess_key) = parent_excess(s.tx.unwrap())->Ok_0;
        parent_excess_is_a_key(s.tx.unwrap(), excess, excess_key);
        signed_kernel_keeps_its_features(
            s.tx.unwrap(),
            after.tx.unwrap()@,
            excess,
            after.tx.unwrap()@.body.kernels[0].excess_sig@,
        );
        confirmed_iff_kernel_and_chain(after.tx.unwrap(), validate, with_validate, r);
    }
}

/// A kernel that a key signed has the excess, keeps its features, and holds a signature of
/// that key on the message.
pub proof fn kernel_is_signed_by_its_key(
    tx: TransactionView,
    signed: TransactionView,
    excess: Seq<u8>,
    msg: Seq<u8>,
    secret: Seq<u8>,
    excess_key: Seq<u8>,
)
    requires
        kernel_signed_by(tx, signed, excess, msg, secret, excess_key),
    ensures
        same_but_kernels(tx, signed),
        signed.body.token_kernels == tx.body.token_kernels,
        signed.body.kernels.len() == 1,
        signed.body.kernels[0].features == tx.body.kernels[0].features,
        signed.body.kernels[0].excess@ == excess,
        is_secret_key(secret) ==> curve::signature_valid(
            signed.body.kernels[0].excess_sig@,
            msg,
            None,
            curve::public_key_of(secret),
            Some(excess_key),
            false,
        ),
{
}

/// Finalizing a slate. It succeeds only where every partial signature holds on the message
/// that the slate asks for, and the sum of them all holds under the sum of the blinding
/// factors; that sum is then the signature of the kernel, or of the token kernel where the
/// slate has a token type. Either keeps its features, and nothing of the slate changes but
/// its excess and its signature. A failure before these are put in changes nothing.
pub proof fn finalized_slate_is_signed_by_all<F, K, M, T, V>(
    s: SlateView,
    after: Slate,
    tx_fee: F,
    token_key: K,
    token_msg: M,
    verify_token: T,
    validate: V,
    r: Result<(), ErrorView>,
) where
    F: Fn(ElementCounts) -> u64,
    K: Fn(&String) -> Result<TokenKey, Error>,
    M: Fn(TokenKernelFeatures, TokenKey) -> Result<Message, Error>,
    T: Fn(&TokenTxKernel) -> Result<(), Error>,
    V: Fn(&Transaction) -> Result<(), Error>,

    requires
        finalized(s, after, tx_fee, token_key, token_msg, verify_token, validate, r),
    ensures
        same_but_tx(s, after@),
        r is Ok ==> {
            let parts = s.participant_data;
            let nonces = curve::key_sum(Seq::new(parts.len(), |i: int| parts[i].public_nonce@));
            let blinds = curve::key_sum(
                Seq::new(parts.len(), |i: int| parts[i].public_blind_excess@),
            );
            &&& s.tx is Some && after.tx is Some
            &&& fees_checked(s, tx_fee, Ok(()))
            &&& same_but_kernels(s.tx.unwrap(), after.tx.unwrap()@)
            &&& exists|msg: Seq<u8>, sig: Seq<u8>|
                {
                    &&& #[trigger] message_made(s, token_key, token_msg, Ok(msg))
                    &&& every_share_holds(parts, msg)
                    &&& curve::signature_sum(
                        Seq::new(parts.len(), |i: int| parts[i].part_sig.unwrap()@),
                        nonces.unwrap(),
                    ) == Ok::<Seq<u8>, Seq<char>>(sig)
                    &&& #[trigger] curve::signature_valid(
                        sig,
                        msg,
                        None,
                        blinds.unwrap(),
                        blinds,
                        true,
                    )
                    &&& s.token_type is None ==> after.tx.unwrap()@.body.kernels[0].excess_sig@
                        == sig
                    &&& s.token_type is Some
                        ==> after.tx.unwrap()@.body.token_kernels[0].excess_sig@ == sig
                }
            &&& s.token_type is None ==> {
                let kernel = after.tx.unwrap()@.body.kernels[0];
                &&& after.tx.unwrap()@.body.kernels.len() == 1
                &&& kernel.features == s.tx.unwrap().body.kernels[0].features
                &&& excess_outcome(s.tx.unwrap()) == Ok::<Seq<u8>, ErrorView>(kernel.excess@)
                &&& kernel_holds(kernel.features, kernel.excess@, kernel.excess_sig@)
                &&& after.tx.unwrap()@.body.token_kernels == s.tx.unwrap().body.token_kernels
            }
            &&& s.token_type is Some ==> {
                let kernel = after.tx.unwrap()@.body.token_kernels[0];
                &&& after.tx.unwrap()@.body.token_kernels.len() == 1
                &&& kernel.features == s.tx.unwrap().body.token_kernels[0].features
                &&& kernel.token_type == s.tx.unwrap().body.token_kernels[0].token_type
                &&& token_excess_made(s, token_key, Ok(kernel.excess@))
                &&& after.tx.unwrap()@.body.kernels == s.tx.unwrap().body.kernels
            }
        },
{
    let parts = s.participant_data;
    sums_are_over_everybody(parts);
    if !(r is Err && after@ == s && message_made(s, token_key, token_msg, Err(r->Err_0))) {
        let msg = choose|msg: Seq<u8>|
            {
                &&& #[trigger] message_made(s, token_key, token_msg, Ok(msg))
                &&& match final_signature(parts, msg) {
                    Err(e) => r == Err::<(), ErrorView>(e) && after@ == s,
                    Ok(sig) => if s.token_type is Some {
                        token_tx_finalized(
                            s,
                            after,
                            sig,
                            tx_fee,
                            token_key,
                            verify_token,
                            validate,
                            r,
                        )
                    } else {
                        tx_finalized(s, after, sig, tx_fee, validate, r)
                    },
                }
            };
        if let Ok(sig) = final_signature(parts, msg) {
            final_signature_is_the_sum(parts, msg, sig);
            if s.token_type is Some {
                finalized_token_tx_keeps_its_features(
                    s,
                    after,
                    sig,
                    tx_fee,
                    token_key,
                    verify_token,
                    validate,
                    r,
                );
            } else {
                finalized_tx_holds(s, after, sig, tx_fee, validate, r);
            }
        }
    }
}

/// Where finalizing fails, there is a reason: no message, a partial signature or a sum that
/// does not hold, or what finalizing the transaction with the final signature names.
pub proof fn failed_finalizing_has_a_reason<F, K, M, T, V>(
    s: SlateView,
    after: Slate,
    tx_fee: F,
    token_key: K,
    token_msg: M,
    verify_token: T,
    validate: V,
    r: Result<(), ErrorView>,
) where
    F: Fn(ElementCounts) -> u64,
    K: Fn(&String) -> Result<TokenKey, Error>,
    M: Fn(TokenKernelFeatures, TokenKey) -> Result<Message, Error>,
    T: Fn(&TokenTxKernel) -> Result<(), Error>,
    V: Fn(&Transaction) -> Result<(), Error>,

    requires
        finalized(s, after, tx_fee, token_key, token_msg, verify_token, validate, r),
        r is Err,
    ensures
        ({
            ||| message_made(s, token_key, token_msg, Err(r->Err_0)) && after@ == s
            ||| exists|msg: Seq<u8>| #[trigger]
                message_made(s, token_key, token_msg, Ok(msg)) && final_signature(
                    s.participant_data,
                    msg,
                ) == Err::<Seq<u8>, ErrorView>(r->Err_0) && after@ == s
            ||| exists|msg: Seq<u8>| #[trigger]
                message_made(s, token_key, token_msg, Ok(msg)) && final_signature(
                    s.participant_data,
                    msg,
                ) is Ok && (s.token_type is None ==> tx_finalized(
                    s,
                    after,
                    final_signature(s.participant_data, msg)->Ok_0,
                    tx_fee,
                    validate,
                    r,
                )) && (s.token_type is Some ==> token_tx_finalized(
                    s,
                    after,
                    final_signature(s.participant_data, msg)->Ok_0,
                    tx_fee,
                    token_key,
                    verify_token,
                    validate,
                    r,
                ))
        }),
{
}

/// All have signed where there are participants, each has a partial signature, and there is
/// one kernel of the kind that they signed for.
pub proof fn all_signed_for_one_kernel(s: SlateView)
    ensures
        all_signed(s) <==> {
            &&& s.participant_data.len() > 0
            &&& forall|i: int|
                0 <= i < s.participant_data.len() ==> (
                #[trigger] s.participant_data[i]).part_sig is Some
            &&& s.tx is Some && s.token_type is None ==> s.tx.unwrap().body.kernels.len() == 1
            &&& s.tx is Some && s.token_type is Some ==> s.tx.unwrap().body.token_kernels.len() == 1
        },
{
}

} // verus!
