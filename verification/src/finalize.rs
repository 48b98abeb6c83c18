//! Finalizing a transaction: the partial signatures are added up, and the kernel
//! gets the excess and the signature.
use crate::curve;
use crate::error::{outcome, Error, ErrorView};
use crate::kernel::{
    excess_outcome, fees_checked, fees_fit, message_made, token_excess_made,
};
use crate::keys::{is_secret_key, Commitment, Message, SecretKey, Signature, TokenKey};
use crate::participant::ParticipantData;
use crate::rounds::{
    all_complete, blind_total, nonce_total, shares_honest, shares_outcome, signature_view,
    sum_outcome,
};
use crate::slate::{Slate, SlateView};
use crate::transaction::{
    ElementCounts, TokenKernelFeatures, TokenTxKernel, Transaction, TransactionView,
};
use grin_keychain::ExtKeychain;
use vstd::prelude::*;

verus! {

// Two more rules of the chain are handed in as functions: whether a token kernel
// holds (`verify_token`), and whether a whole transaction does (`validate`).

/// The final signature: the sum of the partial signatures, where they hold and
/// their sum does.
pub open spec fn final_signature(parts: Seq<ParticipantData>, msg: Seq<u8>) -> Result<
    Seq<u8>,
    ErrorView,
> {
    match shares_outcome(parts, msg) {
        Err(e) => Err(e),
        Ok(_) => match (sum_outcome(nonce_total(parts)), sum_outcome(blind_total(parts))) {
            (Err(e), _) => Err(e),
            (_, Err(e)) => Err(e),
            (Ok(nonce_sum), Ok(blind_sum)) => match curve::signature_sum(
                parts.map_values(|p: ParticipantData| p.part_sig.unwrap()@),
                nonce_sum,
            ) {
                Err(text) => Err(ErrorView::LibTx(text)),
                Ok(sig) => if curve::signature_valid(
                    sig,
                    msg,
                    None,
                    blind_sum,
                    Some(blind_sum),
                    true,
                ) {
                    Ok(sig)
                } else {
                    Err(ErrorView::LibTx(curve::bad_signature()))
                },
            },
        },
    }
}

/// Whether the participants are as the given secret keys and secret nonces make
/// them, and all of them have signed the message honestly.
pub open spec fn honestly_signed(
    parts: Seq<ParticipantData>,
    secrets: Seq<Seq<u8>>,
    nonces: Seq<Seq<u8>>,
    msg: Seq<u8>,
) -> bool {
    &&& msg.len() == 32
    &&& parts.len() > 0
    &&& parts.len() == secrets.len() == nonces.len()
    &&& nonce_total(parts) matches Some(nonce_sum)
    &&& blind_total(parts) matches Some(blind_sum)
    &&& forall|i: int|
        0 <= i < parts.len() ==> {
            let p = #[trigger] parts[i];
            &&& is_secret_key(secrets[i])
            &&& is_secret_key(nonces[i])
            &&& p.public_blind_excess@ == curve::public_key_of(secrets[i])
            &&& p.public_nonce@ == curve::public_key_of(nonces[i])
            &&& p.part_sig matches Some(sig)
            &&& sig@ == curve::partial_signature(
                secrets[i],
                nonces[i],
                nonce_sum,
                Some(blind_sum),
                msg,
            )
        }
}

/// Whether a final signature is sure to be made where all have signed honestly,
/// and to hold as a whole under the sum of their keys.
pub open spec fn honesty_suffices(parts: Seq<ParticipantData>, msg: Seq<u8>) -> bool {
    forall|secrets: Seq<Seq<u8>>, nonces: Seq<Seq<u8>>| #[trigger]
        honestly_signed(parts, secrets, nonces, msg) ==> (final_signature(
            parts,
            msg,
        ) matches Ok(sig) && curve::signature_valid(
            sig,
            msg,
            None,
            blind_total(parts).unwrap(),
            blind_total(parts),
            false,
        ))
}

/// Whether a transaction is another one whose single kernel got the excess and
/// the signature.
pub open spec fn kernel_signed(
    tx: TransactionView,
    signed: TransactionView,
    excess: Seq<u8>,
    sig: Seq<u8>,
) -> bool {
    let kernel = signed.body.kernels[0];
    &&& kernel.features == tx.body.kernels[0].features
    &&& kernel.excess@ == excess
    &&& kernel.excess_sig@ == sig
    &&& signed == tx.replace_kernel(kernel)
}

/// Whether a transaction is another one whose single token kernel got the excess
/// and the signature.
pub open spec fn token_kernel_signed(
    tx: TransactionView,
    signed: TransactionView,
    excess: Seq<u8>,
    sig: Seq<u8>,
) -> bool {
    let kernel = signed.body.token_kernels[0];
    &&& kernel.features == tx.body.token_kernels[0].features
    &&& kernel.token_type == tx.body.token_kernels[0].token_type
    &&& kernel.excess@ == excess
    &&& kernel.excess_sig@ == sig
    &&& signed == tx.replace_token_kernel(kernel)
}

impl Transaction {
    /// Puts the excess and the signature into the single kernel.
    pub fn sign_kernel(&mut self, excess: Commitment, excess_sig: Signature)
        requires
            old(self)@.body.kernels.len() == 1,
        ensures
            kernel_signed(old(self)@, final(self)@, excess@, excess_sig@),
            final(self)@.body.kernels.len() == 1,
            final(self)@.body.kernels[0].features == old(self)@.body.kernels[0].features,
            final(self)@.body.kernels[0].excess == excess,
            final(self)@.body.kernels[0].excess_sig == excess_sig,
            final(self)@.body.token_kernels == old(self)@.body.token_kernels,
    {
        self.body.kernels[0].excess = excess;
        self.body.kernels[0].excess_sig = excess_sig;
        assert(self@ =~~= old(self)@.replace_kernel(self@.body.kernels[0]));
    }

    /// Puts the excess and the signature into the single token kernel.
    pub fn sign_token_kernel(&mut self, excess: Commitment, excess_sig: Signature)
        requires
            old(self)@.body.token_kernels.len() == 1,
        ensures
            token_kernel_signed(old(self)@, final(self)@, excess@, excess_sig@),
            final(self)@.body.token_kernels.len() == 1,
            final(self)@.body.token_kernels[0].features == old(
                self,
            )@.body.token_kernels[0].features,
            final(self)@.body.token_kernels[0].token_type == old(
                self,
            )@.body.token_kernels[0].token_type,
            final(self)@.body.token_kernels[0].excess == excess,
            final(self)@.body.token_kernels[0].excess_sig == excess_sig,
            final(self)@.body.kernels == old(self)@.body.kernels,
    {
        self.body.token_kernels[0].excess = excess;
        self.body.token_kernels[0].excess_sig = excess_sig;
        assert(self@ =~~= old(self)@.replace_token_kernel(self@.body.token_kernels[0]));
    }
}

/// The outcome of the two checks of a finalized transaction: first its kernel,
/// and then, where that is asked, the whole transaction.
pub open spec fn tx_confirmed<V>(
    tx: Transaction,
    validate: V,
    with_validate: bool,
    r: Result<(), ErrorView>,
) -> bool where V: Fn(&Transaction) -> Result<(), Error> {
    let kernel = tx@.body.kernels[0];
    if !curve::kernel_valid(kernel) {
        r == Err::<(), ErrorView>(ErrorView::Transaction(curve::kernel_fault(kernel)))
    } else if with_validate {
        exists|valid: Result<(), Error>| #[trigger]
            validate.ensures((&tx,), valid) && r == outcome(valid)
    } else {
        r == Ok::<(), ErrorView>(())
    }
}

/// The outcome of the two checks of a finalized token transaction: first its token
/// kernel, and then the whole transaction.
pub open spec fn token_tx_confirmed<T, V>(
    tx: Transaction,
    verify_token: T,
    validate: V,
    r: Result<(), ErrorView>,
) -> bool where
    T: Fn(&TokenTxKernel) -> Result<(), Error>,
    V: Fn(&Transaction) -> Result<(), Error>,
 {
    exists|holds: Result<(), Error>|
        {
            &&& #[trigger] verify_token.ensures((&tx@.body.token_kernels[0],), holds)
            &&& match holds {
                Err(e) => r == Err::<(), ErrorView>(e@),
                Ok(_) => exists|valid: Result<(), Error>| #[trigger]
                    validate.ensures((&tx,), valid) && r == outcome(valid),
            }
        }
}

/// Whether the transaction of slate `s` was finalized with a signature: the fees
/// were checked, the kernel got the excess and the signature, and the transaction
/// was confirmed. Where the checks at the end fail, the kernel stays signed.
pub open spec fn tx_finalized<F, V>(
    s: SlateView,
    after: Slate,
    sig: Seq<u8>,
    tx_fee: F,
    validate: V,
    r: Result<(), ErrorView>,
) -> bool where F: Fn(ElementCounts) -> u64, V: Fn(&Transaction) -> Result<(), Error> {
    ||| r is Err && after@ == s && fees_checked(s, tx_fee, r)
    ||| {
        &&& fees_checked(s, tx_fee, Ok(()))
        &&& s.tx matches Some(tx)
        &&& match excess_outcome(tx) {
            Err(e) => r == Err::<(), ErrorView>(e) && after@ == s,
            Ok(excess) => {
                &&& after.tx matches Some(signed)
                &&& kernel_signed(tx, signed@, excess, sig)
                &&& after@ == s.with_tx(signed@)
                &&& tx_confirmed(signed, validate, true, r)
            },
        }
    }
}

/// Whether the token transaction of slate `s` was finalized with a signature, as
/// `tx_finalized` says of a plain one.
pub open spec fn token_tx_finalized<F, K, T, V>(
    s: SlateView,
    after: Slate,
    sig: Seq<u8>,
    tx_fee: F,
    token_key: K,
    verify_token: T,
    validate: V,
    r: Result<(), ErrorView>,
) -> bool where
    F: Fn(ElementCounts) -> u64,
    K: Fn(&String) -> Result<TokenKey, Error>,
    T: Fn(&TokenTxKernel) -> Result<(), Error>,
    V: Fn(&Transaction) -> Result<(), Error>,
 {
    ||| r is Err && after@ == s && fees_checked(s, tx_fee, r)
    ||| r is Err && after@ == s && fees_checked(s, tx_fee, Ok(())) && token_excess_made(
        s,
        token_key,
        Err(r->Err_0),
    )
    ||| {
        &&& fees_checked(s, tx_fee, Ok(()))
        &&& s.tx matches Some(tx)
        &&& after.tx matches Some(signed)
        &&& after@ == s.with_tx(signed@)
        &&& exists|excess: Seq<u8>| #[trigger]
            token_excess_made(s, token_key, Ok(excess)) && token_kernel_signed(
                tx,
                signed@,
                excess,
                sig,
            )
        &&& token_tx_confirmed(signed, verify_token, validate, r)
    }
}

/// Whether a transaction is another one whose single kernel got the excess, and a
/// signature on the message under the secret key, with the excess as the public
/// key in the challenge. Of what the zero key signs nothing is known.
pub open spec fn kernel_signed_by(
    tx: TransactionView,
    signed: TransactionView,
    excess: Seq<u8>,
    msg: Seq<u8>,
    secret: Seq<u8>,
    excess_key: Seq<u8>,
) -> bool {
    let sig = signed.body.kernels[0].excess_sig@;
    &&& kernel_signed(tx, signed, excess, sig)
    &&& is_secret_key(secret) ==> curve::signature_valid(
        sig,
        msg,
        None,
        curve::public_key_of(secret),
        Some(excess_key),
        false,
    )
}

/// Whether the token parent transaction of slate `s` was finalized: as
/// `tx_finalized` says, with a signature on the kernel's message that the secret
/// key makes, and the excess as the public key in the challenge.
pub open spec fn parent_tx_finalized<F, V>(
    s: SlateView,
    after: Slate,
    secret: Seq<u8>,
    with_validate: bool,
    tx_fee: F,
    validate: V,
    r: Result<(), ErrorView>,
) -> bool where F: Fn(ElementCounts) -> u64, V: Fn(&Transaction) -> Result<(), Error> {
    ||| r is Err && after@ == s && fees_checked(s, tx_fee, r)
    ||| {
        &&& fees_checked(s, tx_fee, Ok(()))
        &&& s.tx matches Some(tx)
        &&& match parent_excess(tx) {
            Err(e) => r == Err::<(), ErrorView>(e) && after@ == s,
            Ok((excess, excess_key)) => {
                &&& after.tx matches Some(signed)
                &&& after@ == s.with_tx(signed@)
                &&& kernel_signed_by(
                    tx,
                    signed@,
                    excess,
                    curve::kernel_message(s.kernel_features()),
                    secret,
                    excess_key,
                )
                &&& tx_confirmed(signed, validate, with_validate, r)
            },
        }
    }
}

/// The excess of a transaction, and the same excess as a public key.
pub open spec fn parent_excess(tx: TransactionView) -> Result<(Seq<u8>, Seq<u8>), ErrorView> {
    match excess_outcome(tx) {
        Err(e) => Err(e),
        Ok(excess) => match curve::commitment_key(excess) {
            None => Err(ErrorView::Secp("InvalidCommit"@)),
            Some(key) => Ok((excess, key)),
        },
    }
}

/// Whether slate `s` was finalized: there is a message, the final signature on it
/// was made, and the transaction was finalized with that.
pub open spec fn finalized<F, K, M, T, V>(
    s: SlateView,
    after: Slate,
    tx_fee: F,
    token_key: K,
    token_msg: M,
    verify_token: T,
    validate: V,
    r: Result<(), ErrorView>,
) -> bool where
    F: Fn(ElementCounts) -> u64,
    K: Fn(&String) -> Result<TokenKey, Error>,
    M: Fn(TokenKernelFeatures, TokenKey) -> Result<Message, Error>,
    T: Fn(&TokenTxKernel) -> Result<(), Error>,
    V: Fn(&Transaction) -> Result<(), Error>,
 {
    ||| r is Err && after@ == s && message_made(s, token_key, token_msg, Err(r->Err_0))
    ||| exists|msg: Seq<u8>|
        {
            &&& #[trigger] message_made(s, token_key, token_msg, Ok(msg))
            &&& msg.len() == 32
            &&& honesty_suffices(s.participant_data, msg)
            &&& match final_signature(s.participant_data, msg) {
                Err(e) => r == Err::<(), ErrorView>(e) && after@ == s,
                Ok(sig) => if s.token_type is Some {
                    token_tx_finalized(
                        s,
                        after,
                        sig,
                        tx_fee,
                        token_key,
                        verify_token,
                        validate,
                        r,
                    )
                } else {
                    tx_finalized(s, after, sig, tx_fee, validate, r)
                },
            }
        }
}

// What a slate must be like at the points where finalizing takes it for granted

/// Whether there is a single kernel to sign, once there is an excess for it.
pub open spec fn kernel_ready<F>(s: SlateView, tx_fee: F) -> bool where
    F: Fn(ElementCounts) -> u64,
 {
    fees_checked(s, tx_fee, Ok(())) ==> match s.tx {
        Some(tx) => excess_outcome(tx) is Ok ==> tx.body.kernels.len() == 1,
        None => true,
    }
}

/// Whether there is a single kernel to sign, once there is an excess for it that
/// can be read as a public key.
pub open spec fn parent_kernel_ready<F>(s: SlateView, tx_fee: F) -> bool where
    F: Fn(ElementCounts) -> u64,
 {
    fees_checked(s, tx_fee, Ok(())) ==> match s.tx {
        Some(tx) => parent_excess(tx) is Ok ==> tx.body.kernels.len() == 1,
        None => true,
    }
}

/// Whether there is a single token kernel to sign, once there is an excess for it.
pub open spec fn token_kernel_ready<F, K>(s: SlateView, tx_fee: F, token_key: K) -> bool where
    F: Fn(ElementCounts) -> u64,
    K: Fn(&String) -> Result<TokenKey, Error>,
 {
    fees_checked(s, tx_fee, Ok(())) ==> match s.tx {
        Some(tx) => forall|excess: Seq<u8>| #[trigger]
            token_excess_made(s, token_key, Ok(excess)) ==> tx.body.token_kernels.len() == 1,
        None => true,
    }
}

/// Whether all have signed, once the partial signatures are found to hold, and
/// whether the transaction is ready, once there is a final signature.
pub open spec fn finalize_ready<F, K, M>(
    s: SlateView,
    tx_fee: F,
    token_key: K,
    token_msg: M,
) -> bool where
    F: Fn(ElementCounts) -> u64,
    K: Fn(&String) -> Result<TokenKey, Error>,
    M: Fn(TokenKernelFeatures, TokenKey) -> Result<Message, Error>,
 {
    forall|msg: Seq<u8>| #[trigger]
        message_made(s, token_key, token_msg, Ok(msg)) ==> {
            &&& shares_outcome(s.participant_data, msg) is Ok ==> s.participant_data.len() > 0
                && all_complete(s.participant_data)
            &&& final_signature(s.participant_data, msg) is Ok ==> {
                &&& fees_fit(s, tx_fee)
                &&& if s.token_type is Some {
                    token_kernel_ready(s, tx_fee, token_key)
                } else {
                    kernel_ready(s, tx_fee)
                }
            }
        }
}

/// Whether all participants have signed, and there is a single kernel of the kind
/// that they signed for.
pub open spec fn all_signed(s: SlateView) -> bool {
    &&& s.participant_data.len() > 0
    &&& all_complete(s.participant_data)
    &&& s.tx matches Some(tx) ==> if s.token_type is Some {
        tx.body.token_kernels.len() == 1
    } else {
        tx.body.kernels.len() == 1
    }
}

impl Slate {
    /// Returns all partial sigs.
    pub(crate) fn part_sigs(&self) -> (r: Vec<Signature>)
        requires
            all_complete(self@.participant_data),
        ensures
            curve::signature_bytes(r@) == self@.participant_data.map_values(
                |p: ParticipantData| p.part_sig.unwrap()@,
            ),
    {
        let parts = &self.participant_data;
        let mut sigs: Vec<Signature> = Vec::new();
        for i in 0..parts.len()
            invariant
                sigs@.len() == i,
                parts@ == self@.participant_data,
                all_complete(parts@),
                forall|j: int| 0 <= j < i ==> (#[trigger] parts@[j]).part_sig == Some(sigs@[j]),
        {
            assert(parts@[i as int].part_sig is Some);
            sigs.push(parts[i].part_sig.unwrap());
        }
        assert(curve::signature_bytes(sigs@) =~= parts@.map_values(
            |p: ParticipantData| p.part_sig.unwrap()@,
        ));
        sigs
    }

    /// Creates the final signature. This should be callable by either the sender
    /// or receiver once phase 3 is done:
    /// - Receiver receives sS
    /// - Receiver verifies sender's sig, by verifying that
    ///   kS * G + e * xS * G = sS * G
    /// - Receiver calculates final sig as s = (sS + sR, kS * G + kR * G)
    pub fn finalize_signature(&self, keychain: &ExtKeychain, msg: &Message) -> (r: Result<
        Signature,
        Error,
    >)
        requires
            shares_outcome(self@.participant_data, msg@) is Ok ==> self@.participant_data.len() > 0
                && all_complete(self@.participant_data),
        ensures
            signature_view(r) == final_signature(self@.participant_data, msg@),
            honesty_suffices(self@.participant_data, msg@),
    {
        proof {
            assert forall|secrets: Seq<Seq<u8>>, nonces: Seq<Seq<u8>>| #[trigger]
                honestly_signed(
                    self@.participant_data,
                    secrets,
                    nonces,
                    msg@,
                ) implies shares_honest(self@.participant_data, msg@) && curve::honest_shares(
                self@.participant_data.map_values(|p: ParticipantData| p.part_sig.unwrap()@),
                secrets,
                nonces,
                nonce_total(self@.participant_data).unwrap(),
                blind_total(self@.participant_data).unwrap(),
                msg@,
            ) by {
                honest_signers_share(self@.participant_data, secrets, nonces, msg@);
            }
        }
        match self.verify_part_sigs(keychain, msg) {
            Ok(_) => {},
            Err(e) => return Err(e),
        }
        let part_sigs = self.part_sigs();
        let pub_nonce_sum = match self.pub_nonce_sum(keychain) {
            Ok(sum) => sum,
            Err(e) => return Err(e),
        };
        let final_pubkey = match self.pub_blind_sum(keychain) {
            Ok(sum) => sum,
            Err(e) => return Err(e),
        };
        // get the final signature
        let final_sig = match curve::add_signatures(keychain, &part_sigs, &pub_nonce_sum) {
            Ok(sig) => sig,
            Err(text) => return Err(Error::LibTx(text)),
        };
        // Check our final sig verifies
        match curve::verify_completed_sig(
            keychain,
            &final_sig,
            &final_pubkey,
            Some(&final_pubkey),
            msg,
        ) {
            Ok(_) => Ok(final_sig),
            Err(text) => Err(Error::LibTx(text)),
        }
    }

    /// Builds a final transaction after the aggregated sig exchange.
    pub(crate) fn finalize_transaction<F, V>(
        &mut self,
        keychain: &ExtKeychain,
        final_sig: &Signature,
        tx_fee: &F,
        validate: &V,
    ) -> (r: Result<(), Error>) where
        F: Fn(ElementCounts) -> u64,
        V: Fn(&Transaction) -> Result<(), Error>,

        requires
            forall|counts: ElementCounts| tx_fee.requires((counts,)),
            forall|tx: &Transaction| validate.requires((tx,)),
            fees_fit(old(self)@, *tx_fee),
            kernel_ready(old(self)@, *tx_fee),
        ensures
            tx_finalized(
                old(self)@,
                *final(self),
                final_sig@,
                *tx_fee,
                *validate,
                outcome(r),
            ),
    {
        match self.check_fees(tx_fee) {
            Ok(_) => {},
            Err(e) => return Err(e),
        }
        // build the final excess based on final tx and offset
        let final_excess = match self.calc_excess(keychain) {
            Ok(excess) => excess,
            Err(e) => return Err(e),
        };
        let final_tx = match self.tx_or_err_mut() {
            Ok(tx) => tx,
            Err(e) => return Err(e),
        };
        // update the tx kernel to reflect the offset excess and sig
        final_tx.sign_kernel(final_excess, *final_sig);

        // confirm the kernel and then the overall transaction before proceeding
        confirm(final_tx, validate, true)
    }

    /// Builds a final transaction, whose kernel is signed with a secret key.
    pub fn finalize_token_parent_tx<F, V>(
        &mut self,
        keychain: &ExtKeychain,
        sec_key: &SecretKey,
        with_validate: bool,
        tx_fee: &F,
        validate: &V,
    ) -> (r: Result<(), Error>) where
        F: Fn(ElementCounts) -> u64,
        V: Fn(&Transaction) -> Result<(), Error>,

        requires
            forall|counts: ElementCounts| tx_fee.requires((counts,)),
            forall|tx: &Transaction| validate.requires((tx,)),
            fees_fit(old(self)@, *tx_fee),
            parent_kernel_ready(old(self)@, *tx_fee),
        ensures
            parent_tx_finalized(
                old(self)@,
                *final(self),
                sec_key@,
                with_validate,
                *tx_fee,
                *validate,
                outcome(r),
            ),
    {
        match self.check_fees(tx_fee) {
            Ok(_) => {},
            Err(e) => return Err(e),
        }
        let msg_to_sign = self.msg_to_sign();
        // build the final excess based on final tx and offset
        let final_excess = match self.calc_excess(keychain) {
            Ok(excess) => excess,
            Err(e) => return Err(e),
        };
        let pubkey = match curve::to_pubkey(keychain, &final_excess) {
            Ok(key) => key,
            Err(text) => return Err(Error::Secp(text)),
        };
        let sig = match curve::sign_single(keychain, &msg_to_sign, sec_key, None, Some(&pubkey)) {
            Ok(sig) => sig,
            Err(text) => return Err(Error::LibTx(text)),
        };
        let final_tx = match self.tx_or_err_mut() {
            Ok(tx) => tx,
            Err(e) => return Err(e),
        };
        // update the tx kernel to reflect the offset excess and sig
        final_tx.sign_kernel(final_excess, sig);

        // confirm the kernel and then the overall transaction before proceeding
        confirm(final_tx, validate, with_validate)
    }

    /// Builds a final transaction, whose kernel is signed with a secret key, where
    /// there is a single kernel. Where there is not the slate stays as it was, and
    /// nothing is returned.
    pub fn try_finalize_token_parent_tx<F, V>(
        &mut self,
        keychain: &ExtKeychain,
        sec_key: &SecretKey,
        with_validate: bool,
        tx_fee: &F,
        validate: &V,
    ) -> (r: Option<Result<(), Error>>) where
        F: Fn(ElementCounts) -> u64,
        V: Fn(&Transaction) -> Result<(), Error>,

        requires
            forall|counts: ElementCounts| tx_fee.requires((counts,)),
            forall|tx: &Transaction| validate.requires((tx,)),
            fees_fit(old(self)@, *tx_fee),
        ensures
            r is Some <==> (old(self)@.tx matches Some(tx) ==> tx.body.kernels.len() == 1),
            r is None ==> *final(self) == *old(self),
            r matches Some(done) ==> parent_tx_finalized(
                old(self)@,
                *final(self),
                sec_key@,
                with_validate,
                *tx_fee,
                *validate,
                outcome(done),
            ),
    {
        let ready = match &self.tx {
            Some(tx) => tx.body.kernels.len() == 1,
            None => true,
        };
        if ready {
            Some(self.finalize_token_parent_tx(keychain, sec_key, with_validate, tx_fee, validate))
        } else {
            None
        }
    }

    /// Builds a final token transaction after the aggregated sig exchange.
    pub(crate) fn finalize_token_transaction<F, K, T, V>(
        &mut self,
        keychain: &ExtKeychain,
        final_sig: &Signature,
        tx_fee: &F,
        token_key: &K,
        verify_token: &T,
        validate: &V,
    ) -> (r: Result<(), Error>) where
        F: Fn(ElementCounts) -> u64,
        K: Fn(&String) -> Result<TokenKey, Error>,
        T: Fn(&TokenTxKernel) -> Result<(), Error>,
        V: Fn(&Transaction) -> Result<(), Error>,

        requires
            forall|counts: ElementCounts| tx_fee.requires((counts,)),
            forall|t: &String| token_key.requires((t,)),
            forall|kernel: &TokenTxKernel| verify_token.requires((kernel,)),
            forall|tx: &Transaction| validate.requires((tx,)),
            old(self)@.token_type is Some,
            fees_fit(old(self)@, *tx_fee),
            token_kernel_ready(old(self)@, *tx_fee, *token_key),
        ensures
            token_tx_finalized(
                old(self)@,
                *final(self),
                final_sig@,
                *tx_fee,
                *token_key,
                *verify_token,
                *validate,
                outcome(r),
            ),
    {
        match self.check_fees(tx_fee) {
            Ok(_) => {},
            Err(e) => return Err(e),
        }
        let final_excess = match self.calc_token_excess(keychain, token_key) {
            Ok(excess) => excess,
            Err(e) => return Err(e),
        };
        assert(token_excess_made(self@, *token_key, Ok(final_excess@)));
        let final_tx = match self.tx_or_err_mut() {
            Ok(tx) => tx,
            Err(e) => return Err(e),
        };
        // update the tx kernel to reflect the offset excess and sig
        final_tx.sign_token_kernel(final_excess, *final_sig);

        // confirm the kernel verifies successfully before proceeding
        match verify_token(&final_tx.body.token_kernels[0]) {
            Ok(_) => {},
            Err(e) => return Err(e),
        }
        // confirm the overall transaction is valid (including the updated kernel)
        validate(final_tx)
    }

    /// Creates the final signature, callable by either the sender or recipient
    /// (after phase 3: sender confirmation), and builds the final transaction.
    pub fn finalize<F, K, M, T, V>(
        &mut self,
        keychain: &ExtKeychain,
        tx_fee: &F,
        token_key: &K,
        token_msg: &M,
        verify_token: &T,
        validate: &V,
    ) -> (r: Result<(), Error>) where
        F: Fn(ElementCounts) -> u64,
        K: Fn(&String) -> Result<TokenKey, Error>,
        M: Fn(TokenKernelFeatures, TokenKey) -> Result<Message, Error>,
        T: Fn(&TokenTxKernel) -> Result<(), Error>,
        V: Fn(&Transaction) -> Result<(), Error>,

        requires
            forall|counts: ElementCounts| tx_fee.requires((counts,)),
            forall|t: &String| token_key.requires((t,)),
            forall|f: TokenKernelFeatures, k: TokenKey| token_msg.requires((f, k)),
            forall|kernel: &TokenTxKernel| verify_token.requires((kernel,)),
            forall|tx: &Transaction| validate.requires((tx,)),
            finalize_ready(old(self)@, *tx_fee, *token_key, *token_msg),
        ensures
            finalized(
                old(self)@,
                *final(self),
                *tx_fee,
                *token_key,
                *token_msg,
                *verify_token,
                *validate,
                outcome(r),
            ),
    {
        let msg = match self.signed_msg(token_key, token_msg) {
            Ok(msg) => msg,
            Err(e) => return Err(e),
        };
        assert(message_made(self@, *token_key, *token_msg, Ok(msg@)));
        let final_sig = match self.finalize_signature(keychain, &msg) {
            Ok(sig) => sig,
            Err(e) => return Err(e),
        };
        if self.token_type.is_some() {
            self.finalize_token_transaction(
                keychain,
                &final_sig,
                tx_fee,
                token_key,
                verify_token,
                validate,
            )
        } else {
            self.finalize_transaction(keychain, &final_sig, tx_fee, validate)
        }
    }

    /// Whether all participants have signed for a single kernel.
    fn is_all_signed(&self) -> (r: bool)
        ensures
            r == all_signed(self@),
    {
        let parts = &self.participant_data;
        let single = match &self.tx {
            Some(tx) => if self.token_type.is_some() {
                tx.body.token_kernels.len() == 1
            } else {
                tx.body.kernels.len() == 1
            },
            None => true,
        };
        if parts.len() == 0 || !single {
            return false;
        }
        let mut i: usize = 0;
        while i < parts.len()
            invariant
                i <= parts@.len(),
                parts@ == self@.participant_data,
                forall|j: int| 0 <= j < i ==> (#[trigger] parts@[j]).part_sig is Some,
            decreases parts@.len() - i,
        {
            if !parts[i].is_complete() {
                return false;
            }
            i = i + 1;
        }
        true
    }

    /// Finalizes the slate where all participants have signed for a single kernel.
    /// Where they have not the slate stays as it was, and nothing is returned.
    pub fn try_finalize<F, K, M, T, V>(
        &mut self,
        keychain: &ExtKeychain,
        tx_fee: &F,
        token_key: &K,
        token_msg: &M,
        verify_token: &T,
        validate: &V,
    ) -> (r: Option<Result<(), Error>>) where
        F: Fn(ElementCounts) -> u64,
        K: Fn(&String) -> Result<TokenKey, Error>,
        M: Fn(TokenKernelFeatures, TokenKey) -> Result<Message, Error>,
        T: Fn(&TokenTxKernel) -> Result<(), Error>,
        V: Fn(&Transaction) -> Result<(), Error>,

        requires
            forall|counts: ElementCounts| tx_fee.requires((counts,)),
            forall|t: &String| token_key.requires((t,)),
            forall|f: TokenKernelFeatures, k: TokenKey| token_msg.requires((f, k)),
            forall|kernel: &TokenTxKernel| verify_token.requires((kernel,)),
            forall|tx: &Transaction| validate.requires((tx,)),
            fees_fit(old(self)@, *tx_fee),
        ensures
            r is Some <==> all_signed(old(self)@),
            r is None ==> *final(self) == *old(self),
            r matches Some(done) ==> finalized(
                old(self)@,
                *final(self),
                *tx_fee,
                *token_key,
                *token_msg,
                *verify_token,
                *validate,
                outcome(done),
            ),
    {
        if self.is_all_signed() {
            Some(self.finalize(keychain, tx_fee, token_key, token_msg, verify_token, validate))
        } else {
            None
        }
    }
}

/// Whoever signed honestly made honest shares.
proof fn honest_signers_share(
    parts: Seq<ParticipantData>,
    secrets: Seq<Seq<u8>>,
    nonces: Seq<Seq<u8>>,
    msg: Seq<u8>,
)
    requires
        honestly_signed(parts, secrets, nonces, msg),
    ensures
        shares_honest(parts, msg),
        curve::honest_shares(
            parts.map_values(|p: ParticipantData| p.part_sig.unwrap()@),
            secrets,
            nonces,
            nonce_total(parts).unwrap(),
            blind_total(parts).unwrap(),
            msg,
        ),
{
    let nonce_sum = nonce_total(parts).unwrap();
    let blind_sum = blind_total(parts).unwrap();
    assert forall|i: int| 0 <= i < parts.len() implies curve::honest_share(
        (#[trigger] parts[i]).part_sig.unwrap()@,
        nonce_sum,
        parts[i].public_blind_excess@,
        Some(blind_sum),
        msg,
    ) by {
        assert(parts[i].part_sig.unwrap()@ == curve::partial_signature(
            secrets[i],
            nonces[i],
            nonce_sum,
            Some(blind_sum),
            msg,
        ));
    }
    assert(nonces.map_values(|nonce: Seq<u8>| curve::public_key_of(nonce)) =~= parts.map_values(
        |p: ParticipantData| p.public_nonce@,
    ));
    assert(secrets.map_values(|secret: Seq<u8>| curve::public_key_of(secret)) =~= parts.map_values(
        |p: ParticipantData| p.public_blind_excess@,
    ));
    assert forall|i: int| 0 <= i < parts.len() implies is_secret_key(#[trigger] secrets[i])
        && is_secret_key(nonces[i]) && parts.map_values(
        |p: ParticipantData| p.part_sig.unwrap()@,
    )[i] == curve::partial_signature(secrets[i], nonces[i], nonce_sum, Some(blind_sum), msg) by {
        assert(parts[i].part_sig is Some);
    }
}

/// Confirms that the kernel of a transaction verifies, and where that is asked
/// that the overall transaction is valid (including the kernel).
fn confirm<V>(tx: &Transaction, validate: &V, with_validate: bool) -> (r: Result<(), Error>) where
    V: Fn(&Transaction) -> Result<(), Error>,

    requires
        tx@.body.kernels.len() > 0,
        forall|t: &Transaction| validate.requires((t,)),
    ensures
        tx_confirmed(*tx, *validate, with_validate, outcome(r)),
{
    match curve::verify_kernel(&tx.body.kernels[0]) {
        Ok(_) => {},
        Err(text) => return Err(Error::Transaction(text)),
    }
    if with_validate {
        validate(tx)
    } else {
        Ok(())
    }
}

} // verus!
