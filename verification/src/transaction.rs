//! The transaction that a slate builds up: inputs, outputs and kernels, and
//! beside each of these the ones that carry tokens.
use crate::keys::{zero_blind, BlindingFactor, Commitment, Signature, TokenKey};
use grin_util::secp::pedersen::RangeProof;
use vstd::prelude::*;

verus! {

/// The feature byte of an output, and of the output that an input spends.
#[derive(Clone, Copy, Debug)]
pub struct OutputFeatures {
    pub byte: u8,
}

/// The spending of an output.
#[derive(Clone, Copy, Debug)]
pub struct Input {
    pub features: OutputFeatures,
    pub commit: Commitment,
}

/// The spending of a token output.
#[derive(Clone, Copy, Debug)]
pub struct TokenInput {
    pub features: OutputFeatures,
    pub token_type: TokenKey,
    pub commit: Commitment,
}

/// A new output.
#[derive(Clone, Copy, Debug)]
pub struct Output {
    pub features: OutputFeatures,
    pub commit: Commitment,
    pub proof: RangeProof,
}

/// A new token output.
#[derive(Clone, Copy, Debug)]
pub struct TokenOutput {
    pub features: OutputFeatures,
    pub token_type: TokenKey,
    pub commit: Commitment,
    pub proof: RangeProof,
}

/// What a kernel pays and when it may enter the chain.
#[derive(Clone, Copy, Debug, PartialEq, Eq, Structural)]
pub enum KernelFeatures {
    /// A kernel with a fee.
    Plain { fee: u64 },
    /// The kernel of a block reward.
    Coinbase,
    /// A kernel with a fee that is not valid below a block height.
    HeightLocked { fee: u64, lock_height: u64 },
}

/// What a token kernel is for and when it may enter the chain.
#[derive(Clone, Copy, Debug, PartialEq, Eq, Structural)]
pub enum TokenKernelFeatures {
    /// A transfer of tokens.
    PlainToken,
    /// The issue of a token.
    IssueToken,
    /// A transfer of tokens that is not valid below a block height.
    HeightLockedToken { lock_height: u64 },
}

/// The proof that a transaction balances, and the signature on its features.
#[derive(Clone, Copy, Debug)]
pub struct TxKernel {
    pub features: KernelFeatures,
    pub excess: Commitment,
    pub excess_sig: Signature,
}

/// The proof that the tokens of one kind balance.
#[derive(Clone, Copy, Debug)]
pub struct TokenTxKernel {
    pub features: TokenKernelFeatures,
    pub token_type: TokenKey,
    pub excess: Commitment,
    pub excess_sig: Signature,
}

/// Whether a commitment and a signature are both all zero, as in a kernel that
/// nobody has signed.
pub open spec fn unsigned(excess: Commitment, excess_sig: Signature) -> bool {
    &&& forall|i: int| 0 <= i < 33 ==> #[trigger] excess@[i] == 0
    &&& forall|i: int| 0 <= i < 64 ==> #[trigger] excess_sig@[i] == 0
}

impl KernelFeatures {
    /// The fee of a kernel; a coinbase kernel pays none.
    pub open spec fn fee_paid(self) -> nat {
        match self {
            KernelFeatures::Plain { fee } => fee as nat,
            KernelFeatures::Coinbase => 0,
            KernelFeatures::HeightLocked { fee, .. } => fee as nat,
        }
    }
}

impl TxKernel {
    /// An unsigned kernel with the given features.
    pub fn with_features(features: KernelFeatures) -> (r: TxKernel)
        ensures
            r.features == features,
            unsigned(r.excess, r.excess_sig),
    {
        TxKernel {
            features,
            excess: Commitment { bytes: [0u8; 33] },
            excess_sig: Signature { bytes: [0u8; 64] },
        }
    }
}

impl TokenTxKernel {
    /// An unsigned token kernel with the given features, for the given token.
    pub fn with_features(features: TokenKernelFeatures, token_type: TokenKey) -> (r: TokenTxKernel)
        ensures
            r.features == features,
            r.token_type == token_type,
            unsigned(r.excess, r.excess_sig),
    {
        TokenTxKernel {
            features,
            token_type,
            excess: Commitment { bytes: [0u8; 33] },
            excess_sig: Signature { bytes: [0u8; 64] },
        }
    }
}

/// The elements of a transaction.
#[derive(Debug)]
pub struct TransactionBody {
    pub inputs: Vec<Input>,
    pub token_inputs: Vec<TokenInput>,
    pub outputs: Vec<Output>,
    pub token_outputs: Vec<TokenOutput>,
    pub kernels: Vec<TxKernel>,
    pub token_kernels: Vec<TokenTxKernel>,
}

/// The elements of a transaction as sequences.
#[verifier::ext_equal]
pub struct BodyView {
    pub inputs: Seq<Input>,
    pub token_inputs: Seq<TokenInput>,
    pub outputs: Seq<Output>,
    pub token_outputs: Seq<TokenOutput>,
    pub kernels: Seq<TxKernel>,
    pub token_kernels: Seq<TokenTxKernel>,
}

impl View for TransactionBody {
    type V = BodyView;

    open spec fn view(&self) -> BodyView {
        BodyView {
            inputs: self.inputs@,
            token_inputs: self.token_inputs@,
            outputs: self.outputs@,
            token_outputs: self.token_outputs@,
            kernels: self.kernels@,
            token_kernels: self.token_kernels@,
        }
    }
}

/// A transaction: its elements and the kernel offset.
#[derive(Debug)]
pub struct Transaction {
    pub offset: BlindingFactor,
    pub body: TransactionBody,
}

/// A transaction with its elements as sequences.
#[verifier::ext_equal]
pub struct TransactionView {
    pub offset: BlindingFactor,
    pub body: BodyView,
}

impl View for Transaction {
    type V = TransactionView;

    open spec fn view(&self) -> TransactionView {
        TransactionView { offset: self.offset, body: self.body@ }
    }
}

/// The sum of the kernels' fees.
pub open spec fn total_fee(kernels: Seq<TxKernel>) -> nat
    decreases kernels.len(),
{
    if kernels.len() == 0 {
        0
    } else {
        total_fee(kernels.drop_last()) + kernels.last().features.fee_paid()
    }
}

/// How many elements of each kind a transaction has: what a fee is asked for.
#[derive(Clone, Copy, Debug, PartialEq, Eq, Structural)]
pub struct ElementCounts {
    pub inputs: usize,
    pub outputs: usize,
    pub kernels: usize,
    pub token_inputs: usize,
    pub token_outputs: usize,
    pub token_kernels: usize,
}

/// The commitments of the token inputs of one kind, in their order.
pub open spec fn token_inputs_of(inputs: Seq<TokenInput>, key: TokenKey) -> Seq<Commitment>
    decreases inputs.len(),
{
    if inputs.len() == 0 {
        seq![]
    } else {
        let rest = token_inputs_of(inputs.drop_last(), key);
        if inputs.last().token_type@ == key@ {
            rest.push(inputs.last().commit)
        } else {
            rest
        }
    }
}

/// The commitments of the token outputs of one kind, in their order.
pub open spec fn token_outputs_of(outputs: Seq<TokenOutput>, key: TokenKey) -> Seq<Commitment>
    decreases outputs.len(),
{
    if outputs.len() == 0 {
        seq![]
    } else {
        let rest = token_outputs_of(outputs.drop_last(), key);
        if outputs.last().token_type@ == key@ {
            rest.push(outputs.last().commit)
        } else {
            rest
        }
    }
}

impl TransactionView {
    /// What the kernels pay together, at most what 64 bits hold.
    pub open spec fn fee(self) -> u64 {
        let sum = total_fee(self.body.kernels);
        if sum <= u64::MAX {
            sum as u64
        } else {
            u64::MAX
        }
    }

    /// How many elements of each kind the transaction has.
    pub open spec fn counts(self) -> ElementCounts {
        ElementCounts {
            inputs: self.body.inputs.len() as usize,
            outputs: self.body.outputs.len() as usize,
            kernels: self.body.kernels.len() as usize,
            token_inputs: self.body.token_inputs.len() as usize,
            token_outputs: self.body.token_outputs.len() as usize,
            token_kernels: self.body.token_kernels.len() as usize,
        }
    }

    /// The transaction with one kernel in place of all it had.
    pub open spec fn replace_kernel(self, kernel: TxKernel) -> TransactionView {
        TransactionView { body: BodyView { kernels: seq![kernel], ..self.body }, ..self }
    }

    /// The transaction with one token kernel in place of all it had.
    pub open spec fn replace_token_kernel(self, kernel: TokenTxKernel) -> TransactionView {
        TransactionView { body: BodyView { token_kernels: seq![kernel], ..self.body }, ..self }
    }

    /// The transaction with another offset.
    pub open spec fn with_offset(self, offset: BlindingFactor) -> TransactionView {
        TransactionView { offset, ..self }
    }
}

impl BodyView {
    /// No elements at all.
    pub open spec fn empty() -> BodyView {
        BodyView {
            inputs: seq![],
            token_inputs: seq![],
            outputs: seq![],
            token_outputs: seq![],
            kernels: seq![],
            token_kernels: seq![],
        }
    }
}

impl Clone for TransactionBody {
    fn clone(&self) -> (r: TransactionBody)
        ensures
            r@ == self@,
    {
        let r = TransactionBody {
            inputs: self.inputs.clone(),
            token_inputs: self.token_inputs.clone(),
            outputs: self.outputs.clone(),
            token_outputs: self.token_outputs.clone(),
            kernels: self.kernels.clone(),
            token_kernels: self.token_kernels.clone(),
        };
        assert(r@ =~= self@);
        r
    }
}

impl Clone for Transaction {
    fn clone(&self) -> (r: Transaction)
        ensures
            r@ == self@,
    {
        Transaction { offset: self.offset, body: self.body.clone() }
    }
}

impl Transaction {
    /// A transaction without elements, with the zero offset.
    pub fn empty() -> (r: Transaction)
        ensures
            r.offset@ == zero_blind(),
            r.body@ == BodyView::empty(),
    {
        let body = TransactionBody {
            inputs: Vec::new(),
            token_inputs: Vec::new(),
            outputs: Vec::new(),
            token_outputs: Vec::new(),
            kernels: Vec::new(),
            token_kernels: Vec::new(),
        };
        Transaction { offset: BlindingFactor::zero(), body }
    }

    /// The sum of the kernels' fees, or the largest `u64` where the sum is larger.
    pub fn fee(&self) -> (r: u64)
        ensures
            r == self@.fee(),
    {
        let kernels = &self.body.kernels;
        let mut sum: u64 = 0;
        let mut i: usize = 0;
        assert(kernels@.take(0) =~= seq![]);
        while i < kernels.len()
            invariant
                i <= kernels@.len(),
                kernels@ == self@.body.kernels,
                sum == (if total_fee(kernels@.take(i as int)) <= u64::MAX {
                    total_fee(kernels@.take(i as int)) as u64
                } else {
                    u64::MAX
                }),
            decreases kernels@.len() - i,
        {
            let fee: u64 = match kernels[i].features {
                KernelFeatures::Plain { fee } => fee,
                KernelFeatures::Coinbase => 0,
                KernelFeatures::HeightLocked { fee, .. } => fee,
            };
            assert(kernels@.take(i + 1).drop_last() =~= kernels@.take(i as int));
            sum = sum.saturating_add(fee);
            i = i + 1;
        }
        assert(kernels@.take(i as int) =~= kernels@);
        sum
    }

    /// How many elements of each kind the transaction has.
    pub fn element_counts(&self) -> (r: ElementCounts)
        ensures
            r == self@.counts(),
    {
        ElementCounts {
            inputs: self.body.inputs.len(),
            outputs: self.body.outputs.len(),
            kernels: self.body.kernels.len(),
            token_inputs: self.body.token_inputs.len(),
            token_outputs: self.body.token_outputs.len(),
            token_kernels: self.body.token_kernels.len(),
        }
    }

    /// Puts one kernel in place of all that the transaction had.
    pub fn replace_kernel(self, kernel: TxKernel) -> (r: Transaction)
        ensures
            r@ == self@.replace_kernel(kernel),
    {
        let mut tx = self;
        let mut kernels: Vec<TxKernel> = Vec::new();
        kernels.push(kernel);
        tx.body.kernels = kernels;
        assert(tx@ =~~= self@.replace_kernel(kernel));
        tx
    }

    /// Puts one token kernel in place of all that the transaction had.
    pub fn replace_token_kernel(self, kernel: TokenTxKernel) -> (r: Transaction)
        ensures
            r@ == self@.replace_token_kernel(kernel),
    {
        let mut tx = self;
        let mut kernels: Vec<TokenTxKernel> = Vec::new();
        kernels.push(kernel);
        tx.body.token_kernels = kernels;
        assert(tx@ =~~= self@.replace_token_kernel(kernel));
        tx
    }

    /// The commitments of the token inputs of one kind.
    pub fn token_inputs_committed(&self, key: &TokenKey) -> (r: Vec<Commitment>)
        ensures
            r@ == token_inputs_of(self@.body.token_inputs, *key),
    {
        let inputs = &self.body.token_inputs;
        let mut commits: Vec<Commitment> = Vec::new();
        let mut i: usize = 0;
        assert(inputs@.take(0) =~= seq![]);
        while i < inputs.len()
            invariant
                i <= inputs@.len(),
                commits@ == token_inputs_of(inputs@.take(i as int), *key),
            decreases inputs@.len() - i,
        {
            assert(inputs@.take(i + 1).drop_last() =~= inputs@.take(i as int));
            if inputs[i].token_type.same(key) {
                commits.push(inputs[i].commit);
            }
            i = i + 1;
        }
        assert(inputs@.take(i as int) =~= inputs@);
        commits
    }

    /// The commitments of the token outputs of one kind.
    pub fn token_outputs_committed(&self, key: &TokenKey) -> (r: Vec<Commitment>)
        ensures
            r@ == token_outputs_of(self@.body.token_outputs, *key),
    {
        let outputs = &self.body.token_outputs;
        let mut commits: Vec<Commitment> = Vec::new();
        let mut i: usize = 0;
        assert(outputs@.take(0) =~= seq![]);
        while i < outputs.len()
            invariant
                i <= outputs@.len(),
                commits@ == token_outputs_of(outputs@.take(i as int), *key),
            decreases outputs@.len() - i,
        {
            assert(outputs@.take(i + 1).drop_last() =~= outputs@.take(i as int));
            if outputs[i].token_type.same(key) {
                commits.push(outputs[i].commit);
            }
            i = i + 1;
        }
        assert(outputs@.take(i as int) =~= outputs@);
        commits
    }
}

} // verus!
