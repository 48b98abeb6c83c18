//! Building the transaction of a slate: adding elements, and issuing a token.
use crate::curve;
use crate::error::{outcome, Error, ErrorView};
use crate::kernel::{kernel_updated, token_kernel_updated, token_type_valid};
use crate::keys::{
    is_secret_key, zero_blind, BlindingFactor, Commitment, Identifier, Message, PublicKey,
    SecretKey, TokenKey,
};
use crate::slate::{Slate, SlateView};
use crate::transaction::{TokenKernelFeatures, TokenTxKernel, Transaction, TransactionView};
use grin_keychain::ExtKeychain;
use vstd::prelude::*;

verus! {

/// Whether elements were added to the transaction of slate `s`: its kernels were
/// updated, and what `build` made of the transaction then took its place. Where
/// `build` fails, the updated kernels stay.
pub open spec fn elements_added<K, B>(
    s: SlateView,
    after: SlateView,
    token_key: K,
    build: B,
    r: Result<(BlindingFactor, BlindingFactor), ErrorView>,
) -> bool where
    K: Fn(&String) -> Result<TokenKey, Error>,
    B: FnOnce(Transaction) -> Result<(Transaction, BlindingFactor, BlindingFactor), Error>,
 {
    exists|with_kernel: SlateView, with_both: SlateView, tx: Transaction|
        {
            &&& #[trigger] kernel_updated(s, with_kernel)
            &&& #[trigger] token_kernel_updated(with_kernel, with_both, token_key)
            &&& with_both.tx == Some(#[trigger] tx@)
            &&& exists|built: Result<(Transaction, BlindingFactor, BlindingFactor), Error>|
                {
                    &&& #[trigger] build.ensures((tx,), built)
                    &&& match built {
                        Ok((built_tx, blind, token_blind)) => {
                            &&& r == Ok::<_, ErrorView>((blind, token_blind))
                            &&& after == with_both.with_tx(built_tx@)
                        },
                        Err(e) => r == Err::<(BlindingFactor, BlindingFactor), _>(e@) && after
                            == with_both,
                    }
                }
        }
}

/// The excess of the token kernel that issues tokens into the first token output,
/// and the same excess as a public key.
pub open spec fn issue_excess(tx: TransactionView, amount: u64) -> Result<
    (Seq<u8>, Seq<u8>),
    ErrorView,
> {
    match curve::pedersen_commitment(amount, zero_blind()) {
        None => Err(ErrorView::Secp("InvalidCommit"@)),
        Some(value_commit) => match curve::commitment_sum(
            seq![tx.body.token_outputs[0].commit@],
            seq![value_commit],
        ) {
            Err(text) => Err(ErrorView::Secp(text)),
            Ok(excess) => match curve::commitment_key(excess) {
                None => Err(ErrorView::Secp("InvalidCommit"@)),
                Some(key) => Ok((excess, key)),
            },
        },
    }
}

/// What came out of making that excess, by its bytes or by its error.
pub open spec fn issue_excess_view(r: Result<(Commitment, PublicKey), Error>) -> Result<
    (Seq<u8>, Seq<u8>),
    ErrorView,
> {
    match r {
        Ok((excess, key)) => Ok((excess@, key@)),
        Err(e) => Err(e@),
    }
}

/// The secret key of the output that issued tokens go to, in a keychain with the
/// given master key and chain code.
pub open spec fn issue_key(
    master: (Seq<u8>, Seq<u8>),
    amount: u64,
    output_id: Identifier,
) -> Result<Seq<u8>, ErrorView> {
    if !is_secret_key(master.0) {
        Err(ErrorView::LibTx("InvalidSecretKey"@))
    } else {
        match curve::derived_key(master.0, master.1, amount, output_id.bytes@) {
            Err(text) => Err(ErrorView::LibTx(text)),
            Ok(secret) => Ok(secret),
        }
    }
}

/// Whether a kernel issues the token with the given key: it has the excess, and a
/// signature on the message by the secret key, with the excess as the public key
/// in the challenge.
pub open spec fn issues(
    kernel: TokenTxKernel,
    key: TokenKey,
    excess: Seq<u8>,
    excess_key: Seq<u8>,
    msg: Seq<u8>,
    secret: Seq<u8>,
) -> bool {
    &&& kernel.features == TokenKernelFeatures::IssueToken
    &&& kernel.token_type == key
    &&& kernel.excess@ == excess
    &&& curve::signature_valid(
        kernel.excess_sig@,
        msg,
        None,
        curve::public_key_of(secret),
        Some(excess_key),
        false,
    )
}

/// Whether a token kernel that issues the token took the place of the token
/// kernels of a transaction.
pub open spec fn issue_signed(
    s: SlateView,
    after: SlateView,
    tx: TransactionView,
    key: TokenKey,
    excess: Seq<u8>,
    excess_key: Seq<u8>,
    msg: Seq<u8>,
    secret: Seq<u8>,
) -> bool {
    exists|kernel: TokenTxKernel|
        issues(kernel, key, excess, excess_key, msg, secret) && after == s.with_tx(
            #[trigger] tx.replace_token_kernel(kernel),
        )
}

/// Whether the token kernel that issues the slate's token was put into the
/// transaction, signed with a key of the keychain with the given master key. Where
/// something fails the slate stays as it was, and without a token type there is
/// nothing to do.
pub open spec fn token_issued<K, M>(
    s: SlateView,
    after: SlateView,
    master: (Seq<u8>, Seq<u8>),
    amount: u64,
    output_id: Identifier,
    token_key: K,
    token_msg: M,
    r: Result<(), ErrorView>,
) -> bool where
    K: Fn(&String) -> Result<TokenKey, Error>,
    M: Fn(TokenKernelFeatures, TokenKey) -> Result<Message, Error>,
 {
    match s.token_type {
        None => r == Ok::<(), ErrorView>(()) && after == s,
        Some(token_type) => exists|key: Result<TokenKey, Error>|
            {
                &&& #[trigger] token_key.ensures((&token_type,), key)
                &&& match key {
                    Err(e) => r == Err::<(), ErrorView>(e@) && after == s,
                    Ok(k) => match s.tx {
                        None => r == Err::<(), ErrorView>(ErrorView::SlateTransactionRequired)
                            && after == s,
                        Some(tx) => match issue_excess(tx, amount) {
                            Err(e) => r == Err::<(), ErrorView>(e) && after == s,
                            Ok((excess, excess_key)) => issue_completed(
                                s,
                                after,
                                tx,
                                k,
                                excess,
                                excess_key,
                                issue_key(master, amount, output_id),
                                token_msg,
                                r,
                            ),
                        },
                    },
                }
            },
    }
}

/// The last two steps of issuing a token: there is a message of the token kernel,
/// and it is signed with the key that the keychain derives for the output.
pub open spec fn issue_completed<M>(
    s: SlateView,
    after: SlateView,
    tx: TransactionView,
    key: TokenKey,
    excess: Seq<u8>,
    excess_key: Seq<u8>,
    secret: Result<Seq<u8>, ErrorView>,
    token_msg: M,
    r: Result<(), ErrorView>,
) -> bool where M: Fn(TokenKernelFeatures, TokenKey) -> Result<Message, Error> {
    exists|m: Result<Message, Error>|
        {
            &&& #[trigger] token_msg.ensures((TokenKernelFeatures::IssueToken, key), m)
            &&& match (m, secret) {
                (Err(e), _) => r == Err::<(), ErrorView>(e@) && after == s,
                (Ok(_), Err(e)) => r == Err::<(), ErrorView>(e) && after == s,
                (Ok(msg), Ok(secret)) => r == Ok::<(), ErrorView>(()) && issue_signed(
                    s,
                    after,
                    tx,
                    key,
                    excess,
                    excess_key,
                    msg@,
                    secret,
                ),
            }
        }
}

/// What issuing the slate's token takes for granted once the token type has a key:
/// there is something to issue, and a token output that it goes to.
pub open spec fn issue_ready<K>(s: SlateView, amount: u64, token_key: K) -> bool where
    K: Fn(&String) -> Result<TokenKey, Error>,
 {
    s.token_type matches Some(token_type) ==> forall|key: Result<TokenKey, Error>| #[trigger]
        token_key.ensures((&token_type,), key) && key is Ok ==> {
            &&& amount > 0
            &&& s.tx matches Some(tx) ==> tx.body.token_outputs.len() > 0
        }
}

/// Whether issuing the slate's token may come to the point where the path of the
/// output's key is read: the excess and the message can be made, and the keychain
/// has a master key.
pub open spec fn path_needed<K, M>(
    s: SlateView,
    master: (Seq<u8>, Seq<u8>),
    amount: u64,
    token_key: K,
    token_msg: M,
) -> bool where
    K: Fn(&String) -> Result<TokenKey, Error>,
    M: Fn(TokenKernelFeatures, TokenKey) -> Result<Message, Error>,
 {
    &&& s.token_type matches Some(token_type)
    &&& s.tx matches Some(tx)
    &&& issue_excess(tx, amount) is Ok
    &&& is_secret_key(master.0)
    &&& exists|key: TokenKey, msg: Message|
        #[trigger] token_key.ensures((&token_type,), Ok(key)) && #[trigger] token_msg.ensures(
            (TokenKernelFeatures::IssueToken, key),
            Ok(msg),
        )
}

impl Slate {
    /// Adds selected inputs and outputs to the slate's transaction.
    /// Returns the blinding factors of the transaction and of its tokens.
    pub fn add_transaction_elements<K, B>(&mut self, token_key: &K, build: B) -> (r: Result<
        (BlindingFactor, BlindingFactor),
        Error,
    >) where
        K: Fn(&String) -> Result<TokenKey, Error>,
        B: FnOnce(Transaction) -> Result<(Transaction, BlindingFactor, BlindingFactor), Error>,

        requires
            forall|t: &String| token_key.requires((t,)),
            forall|tx: Transaction| build.requires((tx,)),
            old(self)@.tx is Some ==> token_type_valid(old(self)@, *token_key),
        ensures
            old(self)@.tx is None ==> outcome(r) == Err::<(BlindingFactor, BlindingFactor), _>(
                ErrorView::SlateTransactionRequired,
            ) && *final(self) == *old(self),
            old(self)@.tx is Some ==> elements_added(
                old(self)@,
                final(self)@,
                *token_key,
                build,
                outcome(r),
            ),
    {
        match self.update_kernel() {
            Ok(_) => {},
            Err(e) => return Err(e),
        }
        let ghost with_kernel = self@;
        match self.update_token_kernel(token_key) {
            Ok(_) => {},
            Err(e) => return Err(e),
        }
        let ghost with_both = self@;
        let tx = match self.tx_or_err() {
            Ok(tx) => tx.clone(),
            Err(e) => return Err(e),
        };
        assert(kernel_updated(old(self)@, with_kernel));
        assert(token_kernel_updated(with_kernel, with_both, *token_key));
        assert(with_both.tx == Some(tx@));
        match build(tx) {
            Ok((built_tx, blind, token_blind)) => {
                self.tx = Some(built_tx);
                assert(self@ == with_both.with_tx(built_tx@));
                Ok((blind, token_blind))
            },
            Err(e) => Err(e),
        }
    }

    /// Constructs the token kernel that issues the slate's token, into the first
    /// token output of the transaction.
    pub fn construct_issue_token_kernel<K, M>(
        &mut self,
        keychain: &ExtKeychain,
        amount: u64,
        output_id: &Identifier,
        token_key: &K,
        token_msg: &M,
    ) -> (r: Result<(), Error>) where
        K: Fn(&String) -> Result<TokenKey, Error>,
        M: Fn(TokenKernelFeatures, TokenKey) -> Result<Message, Error>,

        requires
            forall|t: &String| token_key.requires((t,)),
            forall|f: TokenKernelFeatures, k: TokenKey| token_msg.requires((f, k)),
            issue_ready(old(self)@, amount, *token_key),
            path_needed(
                old(self)@,
                curve::master_of(*keychain),
                amount,
                *token_key,
                *token_msg,
            ) ==> output_id.wf(),
        ensures
            token_issued(
                old(self)@,
                final(self)@,
                curve::master_of(*keychain),
                amount,
                *output_id,
                *token_key,
                *token_msg,
                outcome(r),
            ),
    {
        let token_type = match &self.token_type {
            Some(token_type) => token_type,
            None => return Ok(()),
        };
        let key = match token_key(token_type) {
            Ok(key) => key,
            Err(e) => return Err(e),
        };
        let (excess, excess_key) = match self.calc_issue_excess(keychain, amount) {
            Ok(pair) => pair,
            Err(e) => return Err(e),
        };
        let msg = match token_msg(TokenKernelFeatures::IssueToken, key) {
            Ok(msg) => msg,
            Err(e) => return Err(e),
        };
        let (master, chain_code) = match curve::master_key(keychain) {
            Ok(master) => master,
            Err(text) => return Err(Error::LibTx(text)),
        };
        let secret = match curve::derive_key(&master, &chain_code, amount, output_id) {
            Ok(secret) => secret,
            Err(text) => return Err(Error::LibTx(text)),
        };
        self.sign_issue(keychain, key, excess, &excess_key, &msg, &secret)
    }

    /// Returns the excess of the token kernel that issues tokens into the first token
    /// output, and the same excess as a public key.
    pub fn calc_issue_excess(&self, keychain: &ExtKeychain, amount: u64) -> (r: Result<
        (Commitment, PublicKey),
        Error,
    >)
        requires
            amount > 0,
            self@.tx matches Some(tx) ==> tx.body.token_outputs.len() > 0,
        ensures
            issue_excess_view(r) == match self@.tx {
                Some(tx) => issue_excess(tx, amount),
                None => Err(ErrorView::SlateTransactionRequired),
            },
    {
        let value_commit = match curve::commit_value(keychain, amount) {
            Ok(commit) => commit,
            Err(text) => return Err(Error::Secp(text)),
        };
        let out_commit = match self.tx_or_err() {
            Ok(tx) => tx.body.token_outputs[0].commit,
            Err(e) => return Err(e),
        };
        let positive: Vec<Commitment> = vec![out_commit];
        let negative: Vec<Commitment> = vec![value_commit];
        assert(curve::commitment_bytes(positive@) =~= seq![out_commit@]);
        assert(curve::commitment_bytes(negative@) =~= seq![value_commit@]);
        let excess = match curve::commit_sum(keychain, &positive, &negative) {
            Ok(excess) => excess,
            Err(text) => return Err(Error::Secp(text)),
        };
        let excess_key = match curve::to_pubkey(keychain, &excess) {
            Ok(excess_key) => excess_key,
            Err(text) => return Err(Error::Secp(text)),
        };
        Ok((excess, excess_key))
    }

    /// Constructs the token kernel that issues the slate's token where the path of the
    /// output's key is well formed. Where it is not the slate stays as it was, and
    /// nothing is returned.
    pub fn try_construct_issue_token_kernel<K, M>(
        &mut self,
        keychain: &ExtKeychain,
        amount: u64,
        output_id: &Identifier,
        token_key: &K,
        token_msg: &M,
    ) -> (r: Option<Result<(), Error>>) where
        K: Fn(&String) -> Result<TokenKey, Error>,
        M: Fn(TokenKernelFeatures, TokenKey) -> Result<Message, Error>,

        requires
            forall|t: &String| token_key.requires((t,)),
            forall|f: TokenKernelFeatures, k: TokenKey| token_msg.requires((f, k)),
            issue_ready(old(self)@, amount, *token_key),
        ensures
            r is Some <==> output_id.wf(),
            r is None ==> *final(self) == *old(self),
            r matches Some(issued) ==> token_issued(
                old(self)@,
                final(self)@,
                curve::master_of(*keychain),
                amount,
                *output_id,
                *token_key,
                *token_msg,
                outcome(issued),
            ),
    {
        if output_id.bytes[0] <= 4 {
            Some(
                self.construct_issue_token_kernel(
                    keychain,
                    amount,
                    output_id,
                    token_key,
                    token_msg,
                ),
            )
        } else {
            None
        }
    }

    /// Signs the token kernel that issues a token, and puts it in place of the
    /// transaction's token kernels.
    pub fn sign_issue(
        &mut self,
        keychain: &ExtKeychain,
        key: TokenKey,
        excess: Commitment,
        excess_key: &PublicKey,
        msg: &Message,
        secret: &SecretKey,
    ) -> (r: Result<(), Error>)
        requires
            is_secret_key(secret@),
        ensures
            match old(self)@.tx {
                None => outcome(r) == Err::<(), ErrorView>(ErrorView::SlateTransactionRequired)
                    && *final(self) == *old(self),
                Some(tx) => r is Ok && issue_signed(
                    old(self)@,
                    final(self)@,
                    tx,
                    key,
                    excess@,
                    excess_key@,
                    msg@,
                    secret@,
                ),
            },
    {
        let tx = match self.tx_or_err() {
            Ok(tx) => tx.clone(),
            Err(e) => return Err(e),
        };
        let excess_sig = match curve::sign_single(keychain, msg, secret, None, Some(excess_key)) {
            Ok(sig) => sig,
            Err(text) => return Err(Error::LibTx(text)),
        };
        let kernel = TokenTxKernel {
            features: TokenKernelFeatures::IssueToken,
            token_type: key,
            excess,
            excess_sig,
        };
        self.tx = Some(tx.replace_token_kernel(kernel));
        assert(issues(kernel, key, excess@, excess_key@, msg@, secret@));
        assert(self@ == old(self)@.with_tx(old(self)@.tx.unwrap().replace_token_kernel(kernel)));
        Ok(())
    }
}

} // verus!
