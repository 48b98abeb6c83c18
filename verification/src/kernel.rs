//! The kernels of a slate's transaction: their features, the messages that are
//! signed for them, their fees and their excesses.
use crate::curve;
use crate::error::{outcome, Error, ErrorView};
use crate::keys::{is_key_or_zero, Commitment, Message, TokenKey};
use crate::slate::{Slate, SlateView};
use crate::text::{decimal, decimal_text};
use crate::transaction_laws::excess_takes_in_everything;
use crate::transaction::{
    token_inputs_of, token_outputs_of, unsigned, ElementCounts, Input, KernelFeatures, Output,
    TokenKernelFeatures, TokenTxKernel, Transaction, TransactionView, TxKernel,
};
use grin_keychain::ExtKeychain;
use vstd::prelude::*;
use vstd::string::*;

verus! {

// What the rules of the chain decide is handed in as functions: the fee that a
// number of elements costs (`tx_fee`), the key of a token type (`token_key`) and
// the message of a token kernel (`token_msg`).

impl SlateView {
    /// A kernel is plain where the lock height is 0, and height locked otherwise.
    pub open spec fn kernel_features(self) -> KernelFeatures {
        if self.lock_height == 0 {
            KernelFeatures::Plain { fee: self.fee }
        } else {
            KernelFeatures::HeightLocked { fee: self.fee, lock_height: self.lock_height }
        }
    }

    /// A token kernel is plain where the lock height is 0, and height locked
    /// otherwise.
    pub open spec fn token_kernel_features(self) -> TokenKernelFeatures {
        if self.lock_height == 0 {
            TokenKernelFeatures::PlainToken
        } else {
            TokenKernelFeatures::HeightLockedToken { lock_height: self.lock_height }
        }
    }

    /// The slate with another transaction.
    pub open spec fn with_tx(self, tx: TransactionView) -> SlateView {
        SlateView { tx: Some(tx), ..self }
    }
}

/// What a message function gave, by its bytes or by its error.
pub open spec fn message_outcome(r: Result<Message, Error>) -> Result<Seq<u8>, ErrorView> {
    match r {
        Ok(msg) => Ok(msg@),
        Err(e) => Err(e@),
    }
}

/// What a commitment function gave, by its bytes or by its error.
pub open spec fn excess_view(r: Result<Commitment, Error>) -> Result<Seq<u8>, ErrorView> {
    match r {
        Ok(excess) => Ok(excess@),
        Err(e) => Err(e@),
    }
}

/// Whether `msg` is what the slate's token kernel is signed on: the message of
/// its features for the key of its token type, or the first error on the way.
pub open spec fn token_message_made<K, M>(
    s: SlateView,
    token_key: K,
    token_msg: M,
    msg: Result<Seq<u8>, ErrorView>,
) -> bool where
    K: Fn(&String) -> Result<TokenKey, Error>,
    M: Fn(TokenKernelFeatures, TokenKey) -> Result<Message, Error>,
 {
    s.token_type matches Some(token_type) && exists|key: Result<TokenKey, Error>|
        token_key.ensures((&token_type,), key) && match key {
            Err(e) => msg == Err::<Seq<u8>, ErrorView>(e@),
            Ok(k) => exists|m: Result<Message, Error>|
                token_msg.ensures((s.token_kernel_features(), k), m) && msg == message_outcome(m),
        }
}

/// Whether `msg` is what the slate's kernel is signed on: the token kernel's
/// message where the slate has a token type, and the kernel's message otherwise.
pub open spec fn message_made<K, M>(
    s: SlateView,
    token_key: K,
    token_msg: M,
    msg: Result<Seq<u8>, ErrorView>,
) -> bool where
    K: Fn(&String) -> Result<TokenKey, Error>,
    M: Fn(TokenKernelFeatures, TokenKey) -> Result<Message, Error>,
 {
    if s.token_type is Some {
        token_message_made(s, token_key, token_msg, msg)
    } else {
        msg == Ok::<Seq<u8>, ErrorView>(curve::kernel_message(s.kernel_features()))
    }
}

/// Whether a slate is another one whose kernels gave way to one unsigned kernel
/// with the slate's features.
pub open spec fn kernel_updated(s: SlateView, updated: SlateView) -> bool {
    s.tx matches Some(tx) && exists|kernel: TxKernel|
        kernel.features == s.kernel_features() && unsigned(kernel.excess, kernel.excess_sig)
            && updated == s.with_tx(#[trigger] tx.replace_kernel(kernel))
}

/// Whether a slate is another one whose token kernels gave way to one unsigned
/// token kernel with the slate's features and token type. Without a token type
/// nothing changes.
pub open spec fn token_kernel_updated<K>(
    s: SlateView,
    updated: SlateView,
    token_key: K,
) -> bool where K: Fn(&String) -> Result<TokenKey, Error> {
    match s.token_type {
        None => updated == s,
        Some(token_type) => s.tx matches Some(tx) && exists|kernel: TokenTxKernel|
            kernel.features == s.token_kernel_features() && unsigned(
                kernel.excess,
                kernel.excess_sig,
            ) && token_key.ensures((&token_type,), Ok(kernel.token_type)) && updated == s.with_tx(
                #[trigger] tx.replace_token_kernel(kernel),
            ),
    }
}

/// Whether the slate's token type, if it has one, is sure to have a key.
pub open spec fn token_type_valid<K>(s: SlateView, token_key: K) -> bool where
    K: Fn(&String) -> Result<TokenKey, Error>,
 {
    s.token_type matches Some(token_type) ==> forall|key: Result<TokenKey, Error>|
        token_key.ensures((&token_type,), key) ==> key is Ok
}

// Fees

/// The text of a fee that is higher than what the kernels pay.
pub open spec fn dispute_text(paid: u64, fee: u64) -> Seq<char> {
    "Fee Dispute Error: "@ + decimal_text(paid as nat) + ", "@ + decimal_text(fee as nat)
}

/// The text of a fee that is higher than what is transferred.
pub open spec fn rejection_text(fee: Seq<char>, amount: Seq<char>) -> Seq<char> {
    "Rejected the transfer because transaction fee ("@ + fee + ") exceeds received amount ("@
        + amount + ")."@
}

/// Whether a fee is covered, both by the kernels and by what is transferred.
pub open spec fn fee_covered(s: SlateView, fee: u64) -> bool {
    s.tx matches Some(tx) && fee <= tx.fee() && fee <= s.amount + s.fee
}

/// Whether `checked` is the outcome of a check of the fees, where `fee` is what the
/// elements cost. How a rejection writes the two amounts is left open.
pub open spec fn fee_checked(s: SlateView, fee: u64, checked: Result<(), ErrorView>) -> bool {
    match s.tx {
        None => checked == Err::<(), ErrorView>(ErrorView::SlateTransactionRequired),
        Some(tx) => if fee > tx.fee() {
            checked == Err::<(), ErrorView>(ErrorView::Fee(dispute_text(tx.fee(), fee)))
        } else if fee > s.amount + s.fee {
            exists|fee_text: Seq<char>, amount_text: Seq<char>|
                {
                    &&& curve::reads_as(fee, fee_text)
                    &&& curve::reads_as((s.amount + s.fee) as u64, amount_text)
                    &&& checked == Err::<(), ErrorView>(
                        ErrorView::Fee(#[trigger] rejection_text(fee_text, amount_text)),
                    )
                }
        } else {
            checked == Ok::<(), ErrorView>(())
        },
    }
}

/// Whether what is transferred can be counted in 64 bits, where that is asked.
pub open spec fn amount_fits(s: SlateView, fee: u64) -> bool {
    s.tx matches Some(tx) ==> fee <= tx.fee() ==> s.amount + s.fee <= u64::MAX
}

/// Whether `checked` is the outcome of a check of the fees, against what the
/// transaction's elements cost.
pub open spec fn fees_checked<F>(
    s: SlateView,
    tx_fee: F,
    checked: Result<(), ErrorView>,
) -> bool where F: Fn(ElementCounts) -> u64 {
    match s.tx {
        None => checked == Err::<(), ErrorView>(ErrorView::SlateTransactionRequired),
        Some(tx) => exists|fee: u64|
            #[trigger] tx_fee.ensures((tx.counts(),), fee) && fee_checked(s, fee, checked),
    }
}

/// `amount_fits`, for every fee that can be asked.
pub open spec fn fees_fit<F>(s: SlateView, tx_fee: F) -> bool where F: Fn(ElementCounts) -> u64 {
    s.tx matches Some(tx) ==> forall|fee: u64|
        tx_fee.ensures((tx.counts(),), fee) ==> amount_fits(s, fee)
}

// Excesses

/// The excess of a transaction's commitments over its fee and its offset: the
/// sum of the commitments, with the fee as the overage, less the commitment to
/// zero under the offset.
pub open spec fn excess_outcome(tx: TransactionView) -> Result<Seq<u8>, ErrorView> {
    match curve::committed_sum(
        tx.body.inputs.map_values(|input: Input| input.commit@),
        tx.body.outputs.map_values(|output: Output| output.commit@),
        #[verifier::truncate]
        (tx.fee() as i64),
    ) {
        Err(text) => Err(ErrorView::Committed(text)),
        Ok(tx_excess) => if !is_key_or_zero(tx.offset@) {
            Err(ErrorView::Keychain("Secp(InvalidSecretKey)"@))
        } else {
            match curve::pedersen_commitment(0, tx.offset@) {
                None => Err(ErrorView::Secp("InvalidCommit"@)),
                Some(offset_excess) => match curve::commitment_sum(
                    seq![tx_excess],
                    seq![offset_excess],
                ) {
                    Err(text) => Err(ErrorView::Secp(text)),
                    Ok(excess) => Ok(excess),
                },
            }
        },
    }
}

/// The excess of the token outputs over the token inputs of one kind.
pub open spec fn token_excess_outcome(tx: TransactionView, key: TokenKey) -> Result<
    Seq<u8>,
    ErrorView,
> {
    match curve::commitment_sum(
        curve::commitment_bytes(token_outputs_of(tx.body.token_outputs, key)),
        curve::commitment_bytes(token_inputs_of(tx.body.token_inputs, key)),
    ) {
        Err(text) => Err(ErrorView::Secp(text)),
        Ok(excess) => Ok(excess),
    }
}

/// Whether `excess` is the excess of the slate's tokens.
pub open spec fn token_excess_made<K>(
    s: SlateView,
    token_key: K,
    excess: Result<Seq<u8>, ErrorView>,
) -> bool where K: Fn(&String) -> Result<TokenKey, Error> {
    match s.tx {
        None => excess == Err::<Seq<u8>, ErrorView>(ErrorView::SlateTransactionRequired),
        Some(tx) => s.token_type matches Some(token_type) && exists|key: Result<TokenKey, Error>|
            token_key.ensures((&token_type,), key) && excess == match key {
                Err(e) => Err::<Seq<u8>, ErrorView>(e@),
                Ok(k) => token_excess_outcome(tx, k),
            },
    }
}

impl Slate {
    /// The kernel features that follow from the fee and the lock height.
    pub fn kernel_features(&self) -> (r: KernelFeatures)
        ensures
            r == self@.kernel_features(),
    {
        match self.lock_height {
            0 => KernelFeatures::Plain { fee: self.fee },
            _ => KernelFeatures::HeightLocked { fee: self.fee, lock_height: self.lock_height },
        }
    }

    /// The message that is signed as part of the kernel.
    pub(crate) fn msg_to_sign(&self) -> (r: Message)
        ensures
            r@ == curve::kernel_message(self@.kernel_features()),
    {
        curve::kernel_sig_msg(&self.kernel_features())
    }

    /// The token kernel features that follow from the lock height.
    pub fn token_kernel_features(&self) -> (r: TokenKernelFeatures)
        ensures
            r == self@.token_kernel_features(),
    {
        match self.lock_height {
            0 => TokenKernelFeatures::PlainToken,
            _ => TokenKernelFeatures::HeightLockedToken { lock_height: self.lock_height },
        }
    }

    /// The message that is signed as part of the token kernel.
    pub(crate) fn token_msg_to_sign<K, M>(&self, token_key: &K, token_msg: &M) -> (r: Result<
        Message,
        Error,
    >) where
        K: Fn(&String) -> Result<TokenKey, Error>,
        M: Fn(TokenKernelFeatures, TokenKey) -> Result<Message, Error>,

        requires
            self.token_type is Some,
            forall|t: &String| token_key.requires((t,)),
            forall|f: TokenKernelFeatures, k: TokenKey| token_msg.requires((f, k)),
        ensures
            token_message_made(self@, *token_key, *token_msg, message_outcome(r)),
    {
        let features = self.token_kernel_features();
        match &self.token_type {
            Some(token_type) => match token_key(token_type) {
                Ok(key) => token_msg(features, key),
                Err(e) => Err(e),
            },
            None => Err(Error::SlateTransactionRequired),
        }
    }

    /// The message that the participants sign: of the token kernel where the slate
    /// has a token type, and of the kernel otherwise.
    pub fn signed_msg<K, M>(&self, token_key: &K, token_msg: &M) -> (r: Result<
        Message,
        Error,
    >) where
        K: Fn(&String) -> Result<TokenKey, Error>,
        M: Fn(TokenKernelFeatures, TokenKey) -> Result<Message, Error>,

        requires
            forall|t: &String| token_key.requires((t,)),
            forall|f: TokenKernelFeatures, k: TokenKey| token_msg.requires((f, k)),
        ensures
            message_made(self@, *token_key, *token_msg, message_outcome(r)),
    {
        match self.token_type {
            Some(_) => self.token_msg_to_sign(token_key, token_msg),
            None => Ok(self.msg_to_sign()),
        }
    }

    /// Updates the tx kernel based on kernel features derived from the current slate.
    /// The fee may change as we build a transaction and we need to
    /// update the tx kernel to reflect this during the tx building process.
    pub fn update_kernel(&mut self) -> (r: Result<(), Error>)
        ensures
            r is Ok <==> old(self)@.tx is Some,
            r is Ok ==> kernel_updated(old(self)@, final(self)@),
            r matches Err(e) ==> e@ == ErrorView::SlateTransactionRequired && *final(self) == *old(
                self,
            ),
    {
        let kernel = TxKernel::with_features(self.kernel_features());
        let tx = match self.tx_or_err() {
            Ok(tx) => tx.clone().replace_kernel(kernel),
            Err(e) => return Err(e),
        };
        self.tx = Some(tx);
        assert(self@ == old(self)@.with_tx(old(self)@.tx.unwrap().replace_kernel(kernel)));
        Ok(())
    }

    /// Updates the tx token kernel based on token kernel features derived from the
    /// current slate, where the slate has a token type.
    pub fn update_token_kernel<K>(&mut self, token_key: &K) -> (r: Result<(), Error>) where
        K: Fn(&String) -> Result<TokenKey, Error>,

        requires
            forall|t: &String| token_key.requires((t,)),
            token_type_valid(old(self)@, *token_key),
        ensures
            r is Ok <==> old(self)@.token_type is None || old(self)@.tx is Some,
            r is Ok ==> token_kernel_updated(old(self)@, final(self)@, *token_key),
            r matches Err(e) ==> e@ == ErrorView::SlateTransactionRequired && *final(self) == *old(
                self,
            ),
    {
        match &self.token_type {
            None => Ok(()),
            Some(token_type) => match token_key(token_type) {
                Err(e) => Err(e),
                Ok(key) => {
                    let kernel = TokenTxKernel::with_features(self.token_kernel_features(), key);
                    let tx = match self.tx_or_err() {
                        Ok(tx) => tx.clone().replace_token_kernel(kernel),
                        Err(e) => return Err(e),
                    };
                    self.tx = Some(tx);
                    assert(self@ == old(self)@.with_tx(
                        old(self)@.tx.unwrap().replace_token_kernel(kernel),
                    ));
                    Ok(())
                },
            },
        }
    }

    /// Checks that a fee is covered by what the kernels pay, and by what is
    /// transferred. We don't necessarily want to just trust the sender; we could
    /// just overwrite the fee here (but we won't) due to the sig.
    pub fn check_fee(&self, fee: u64) -> (r: Result<(), Error>)
        requires
            amount_fits(self@, fee),
        ensures
            fee_checked(self@, fee, outcome(r)),
    {
        let paid: u64 = match self.tx_or_err() {
            Ok(tx) => tx.fee(),
            Err(e) => return Err(e),
        };
        if fee > paid {
            let mut text = String::from_str("Fee Dispute Error: ");
            text.append(decimal(paid).as_str());
            text.append(", ");
            text.append(decimal(fee).as_str());
            return Err(Error::Fee(text));
        }
        if fee > self.amount + self.fee {
            let fee_text = curve::amount_text(fee);
            let amount_text = curve::amount_text(self.amount + self.fee);
            return Err(Error::Fee(rejection(fee_text.as_str(), amount_text.as_str())));
        }
        Ok(())
    }

    /// Checks that the fees in the transaction are valid.
    pub(crate) fn check_fees<F>(&self, tx_fee: &F) -> (r: Result<(), Error>) where
        F: Fn(ElementCounts) -> u64,

        requires
            forall|counts: ElementCounts| tx_fee.requires((counts,)),
            fees_fit(self@, *tx_fee),
        ensures
            fees_checked(self@, *tx_fee, outcome(r)),
    {
        let counts = match self.tx_or_err() {
            Ok(tx) => tx.element_counts(),
            Err(e) => return Err(e),
        };
        let fee: u64 = tx_fee(counts);
        self.check_fee(fee)
    }

    /// Returns the final excess.
    pub fn calc_excess(&self, keychain: &ExtKeychain) -> (r: Result<Commitment, Error>)
        ensures
            excess_view(r) == match self@.tx {
                Some(tx) => excess_outcome(tx),
                None => Err(ErrorView::SlateTransactionRequired),
            },
            r matches Ok(excess) ==> {
                let tx = self@.tx.unwrap();
                let sum = curve::committed_sum(
                    Seq::new(tx.body.inputs.len(), |i: int| tx.body.inputs[i].commit@),
                    Seq::new(tx.body.outputs.len(), |i: int| tx.body.outputs[i].commit@),
                    #[verifier::truncate]
                    (tx.fee() as i64),
                );
                let zero = curve::pedersen_commitment(0, tx.offset@);
                sum is Ok && zero is Some && curve::commitment_sum(
                    seq![sum->Ok_0],
                    seq![zero.unwrap()],
                ) == Ok::<Seq<u8>, Seq<char>>(excess@)
            },
    {
        match self.tx_or_err() {
            Ok(tx) => {
                let r = tx_excess(keychain, tx);
                proof {
                    if let Ok(excess) = r {
                        excess_takes_in_everything(tx@, excess@);
                    }
                }
                r
            },
            Err(e) => Err(e),
        }
    }

    /// Returns the final token excess.
    pub fn calc_token_excess<K>(&self, keychain: &ExtKeychain, token_key: &K) -> (r: Result<
        Commitment,
        Error,
    >) where K: Fn(&String) -> Result<TokenKey, Error>
        requires
            self.tx is Some ==> self.token_type is Some,
            forall|t: &String| token_key.requires((t,)),
        ensures
            token_excess_made(self@, *token_key, excess_view(r)),
    {
        let tx = match self.tx_or_err() {
            Ok(tx) => tx,
            Err(e) => return Err(e),
        };
        let key = match &self.token_type {
            Some(token_type) => match token_key(token_type) {
                Ok(key) => key,
                Err(e) => return Err(e),
            },
            None => return Err(Error::SlateTransactionRequired),
        };
        let outputs = tx.token_outputs_committed(&key);
        let inputs = tx.token_inputs_committed(&key);
        match curve::commit_sum(keychain, &outputs, &inputs) {
            Ok(excess) => Ok(excess),
            Err(text) => Err(Error::Secp(text)),
        }
    }
}

/// Writes out that a fee is higher than what is transferred.
pub fn rejection(fee: &str, amount: &str) -> (r: String)
    ensures
        r@ == rejection_text(fee@, amount@),
{
    let mut text = String::from_str("Rejected the transfer because transaction fee (");
    text.append(fee);
    text.append(") exceeds received amount (");
    text.append(amount);
    text.append(").");
    text
}

/// Sums the commitments of a transaction and subtracts the kernel excess (built
/// from the kernel offset).
fn tx_excess(keychain: &ExtKeychain, tx: &Transaction) -> (r: Result<Commitment, Error>)
    ensures
        excess_view(r) == excess_outcome(tx@),
{
    let overage: i64 = #[verifier::truncate]
    (tx.fee() as i64);
    let tx_excess = match curve::sum_commitments(&tx.body, overage) {
        Ok(commit) => commit,
        Err(text) => return Err(Error::Committed(text)),
    };
    let secret = match tx.offset.secret_key(keychain) {
        Ok(secret) => secret,
        Err(text) => return Err(Error::Keychain(text)),
    };
    let offset_excess = match curve::commit(keychain, 0, &secret) {
        Ok(commit) => commit,
        Err(text) => return Err(Error::Secp(text)),
    };
    let positive: Vec<Commitment> = vec![tx_excess];
    let negative: Vec<Commitment> = vec![offset_excess];
    assert(curve::commitment_bytes(positive@) =~= seq![tx_excess@]);
    assert(curve::commitment_bytes(negative@) =~= seq![offset_excess@]);
    match curve::commit_sum(keychain, &positive, &negative) {
        Ok(excess) => Ok(excess),
        Err(text) => Err(Error::Secp(text)),
    }
}

} // verus!
