//! Version 4 of the slate format, and the conversions from and to it.
use crate::keys::{BlindingFactor, Commitment, Identifier, PublicKey, Signature, TokenKey};
use crate::participant::{copy_text, ParticipantData};
use crate::slate::{PaymentInfo, Slate, SlateView};
use crate::transaction::{
    BodyView, Input, KernelFeatures, Output, OutputFeatures, TokenInput, TokenKernelFeatures,
    TokenOutput, TokenTxKernel, Transaction, TransactionBody, TransactionView, TxKernel,
};
use crate::version::VersionCompatInfo;
use ed25519_dalek::PublicKey as DalekPublicKey;
use ed25519_dalek::Signature as DalekSignature;
use grin_util::secp::pedersen::RangeProof;
use uuid::Uuid;
use vstd::prelude::*;
use vstd::std_specs::convert::FromSpecImpl;

verus! {

/// The kind of a kernel, apart from what the kind holds.
#[derive(Clone, Copy, Debug, PartialEq, Eq, Structural)]
pub enum CompatKernelFeatures {
    Plain,
    Coinbase,
    HeightLocked,
}

/// The kind of a token kernel, apart from what the kind holds.
#[derive(Clone, Copy, Debug, PartialEq, Eq, Structural)]
pub enum CompatTokenKernelFeatures {
    PlainToken,
    IssueToken,
    HeightLockedToken,
}

/// A slate in version 4.
#[derive(Debug)]
pub struct SlateV4 {
    pub version_info: VersionCompatInfoV4,
    pub num_participants: usize,
    pub id: Uuid,
    pub tx: Option<TransactionV4>,
    pub amount: u64,
    pub token_type: Option<String>,
    pub fee: u64,
    pub height: u64,
    pub lock_height: u64,
    pub ttl_cutoff_height: Option<u64>,
    pub participant_data: Vec<ParticipantDataV4>,
    pub payment_proof: Option<PaymentInfoV4>,
}

/// The data of a participant in version 4.
#[derive(Debug)]
pub struct ParticipantDataV4 {
    pub id: u64,
    pub public_blind_excess: PublicKey,
    pub public_nonce: PublicKey,
    pub part_sig: Option<Signature>,
    pub message: Option<String>,
    pub message_sig: Option<Signature>,
}

/// Versioning info in version 4.
#[derive(Clone, Copy, Debug, PartialEq, Eq, Structural)]
pub struct VersionCompatInfoV4 {
    pub version: u16,
    pub orig_version: u16,
    pub block_header_version: u16,
}

/// A payment proof in version 4.
#[derive(Clone, Copy, Debug)]
pub struct PaymentInfoV4 {
    pub sender_address: DalekPublicKey,
    pub receiver_address: DalekPublicKey,
    pub receiver_signature: Option<DalekSignature>,
}

/// A transaction in version 4.
#[derive(Debug)]
pub struct TransactionV4 {
    pub offset: BlindingFactor,
    pub body: TransactionBodyV4,
}

/// The elements of a transaction in version 4.
#[derive(Debug)]
pub struct TransactionBodyV4 {
    pub inputs: Vec<InputV4>,
    pub token_inputs: Vec<TokenInputV4>,
    pub outputs: Vec<OutputV4>,
    pub token_outputs: Vec<TokenOutputV4>,
    pub kernels: Vec<TxKernelV4>,
    pub token_kernels: Vec<TokenTxKernelV4>,
}

/// An input in version 4.
#[derive(Clone, Copy, Debug)]
pub struct InputV4 {
    pub features: OutputFeatures,
    pub commit: Commitment,
}

/// A token input in version 4.
#[derive(Clone, Copy, Debug)]
pub struct TokenInputV4 {
    pub features: OutputFeatures,
    pub token_type: TokenKey,
    pub commit: Commitment,
}

/// An output in version 4.
#[derive(Clone, Copy, Debug)]
pub struct OutputV4 {
    pub features: OutputFeatures,
    pub commit: Commitment,
    pub proof: RangeProof,
}

/// A token output in version 4.
#[derive(Clone, Copy, Debug)]
pub struct TokenOutputV4 {
    pub features: OutputFeatures,
    pub token_type: TokenKey,
    pub commit: Commitment,
    pub proof: RangeProof,
}

/// A kernel in version 4: its kind, and beside it the fee and the lock height,
/// which are zero where the kind has none.
#[derive(Clone, Copy, Debug)]
pub struct TxKernelV4 {
    pub features: CompatKernelFeatures,
    pub fee: u64,
    pub lock_height: u64,
    pub excess: Commitment,
    pub excess_sig: Signature,
}

/// A token kernel in version 4: its kind, and beside it the lock height, which is
/// zero where the kind has none.
#[derive(Clone, Copy, Debug)]
pub struct TokenTxKernelV4 {
    pub features: CompatTokenKernelFeatures,
    pub token_type: TokenKey,
    pub lock_height: u64,
    pub excess: Commitment,
    pub excess_sig: Signature,
}

/// What a miner needs for a block reward.
#[derive(Clone, Copy, Debug)]
pub struct CbData {
    pub output: Output,
    pub kernel: TxKernel,
    pub key_id: Option<Identifier>,
}

/// The data of a block reward in version 4.
#[derive(Clone, Copy, Debug)]
pub struct CoinbaseV4 {
    pub output: OutputV4,
    pub kernel: TxKernelV4,
    pub key_id: Option<Identifier>,
}

/// The elements of a version 4 transaction as sequences.
#[verifier::ext_equal]
pub struct BodyV4View {
    pub inputs: Seq<InputV4>,
    pub token_inputs: Seq<TokenInputV4>,
    pub outputs: Seq<OutputV4>,
    pub token_outputs: Seq<TokenOutputV4>,
    pub kernels: Seq<TxKernelV4>,
    pub token_kernels: Seq<TokenTxKernelV4>,
}

impl View for TransactionBodyV4 {
    type V = BodyV4View;

    open spec fn view(&self) -> BodyV4View {
        BodyV4View {
            inputs: self.inputs@,
            token_inputs: self.token_inputs@,
            outputs: self.outputs@,
            token_outputs: self.token_outputs@,
            kernels: self.kernels@,
            token_kernels: self.token_kernels@,
        }
    }
}

/// A version 4 transaction with its elements as sequences.
#[verifier::ext_equal]
pub struct TransactionV4View {
    pub offset: BlindingFactor,
    pub body: BodyV4View,
}

impl View for TransactionV4 {
    type V = TransactionV4View;

    open spec fn view(&self) -> TransactionV4View {
        TransactionV4View { offset: self.offset, body: self.body@ }
    }
}

/// A version 4 slate with its lists as sequences.
#[verifier::ext_equal]
pub struct SlateV4View {
    pub version_info: VersionCompatInfoV4,
    pub num_participants: usize,
    pub id: Uuid,
    pub tx: Option<TransactionV4View>,
    pub amount: u64,
    pub token_type: Option<String>,
    pub fee: u64,
    pub height: u64,
    pub lock_height: u64,
    pub ttl_cutoff_height: Option<u64>,
    pub participant_data: Seq<ParticipantDataV4>,
    pub payment_proof: Option<PaymentInfoV4>,
}

impl View for SlateV4 {
    type V = SlateV4View;

    open spec fn view(&self) -> SlateV4View {
        SlateV4View {
            version_info: self.version_info,
            num_participants: self.num_participants,
            id: self.id,
            tx: match self.tx {
                Some(tx) => Some(tx@),
                None => None,
            },
            amount: self.amount,
            token_type: self.token_type,
            fee: self.fee,
            height: self.height,
            lock_height: self.lock_height,
            ttl_cutoff_height: self.ttl_cutoff_height,
            participant_data: self.participant_data@,
            payment_proof: self.payment_proof,
        }
    }
}

/// Participant data in version 4.
pub open spec fn participant_to_v4(v: ParticipantData) -> ParticipantDataV4 {
    ParticipantDataV4 {
        id: v.id,
        public_blind_excess: v.public_blind_excess,
        public_nonce: v.public_nonce,
        part_sig: v.part_sig,
        message: v.message,
        message_sig: v.message_sig,
    }
}

impl From<&ParticipantData> for ParticipantDataV4 {
    fn from(v: &ParticipantData) -> (r: ParticipantDataV4)
        ensures
            r == participant_to_v4(*v),
    {
        ParticipantDataV4 {
            id: v.id,
            public_blind_excess: v.public_blind_excess,
            public_nonce: v.public_nonce,
            part_sig: v.part_sig,
            message: copy_text(&v.message),
            message_sig: v.message_sig,
        }
    }
}

impl FromSpecImpl<&ParticipantData> for ParticipantDataV4 {
    open spec fn obeys_from_spec() -> bool {
        true
    }

    open spec fn from_spec(v: &ParticipantData) -> ParticipantDataV4 {
        participant_to_v4(*v)
    }
}

/// Participant data out of version 4.
pub open spec fn participant_from_v4(v: ParticipantDataV4) -> ParticipantData {
    ParticipantData {
        id: v.id,
        public_blind_excess: v.public_blind_excess,
        public_nonce: v.public_nonce,
        part_sig: v.part_sig,
        message: v.message,
        message_sig: v.message_sig,
    }
}

impl From<&ParticipantDataV4> for ParticipantData {
    fn from(v: &ParticipantDataV4) -> (r: ParticipantData)
        ensures
            r == participant_from_v4(*v),
    {
        ParticipantData {
            id: v.id,
            public_blind_excess: v.public_blind_excess,
            public_nonce: v.public_nonce,
            part_sig: v.part_sig,
            message: copy_text(&v.message),
            message_sig: v.message_sig,
        }
    }
}

impl FromSpecImpl<&ParticipantDataV4> for ParticipantData {
    open spec fn obeys_from_spec() -> bool {
        true
    }

    open spec fn from_spec(v: &ParticipantDataV4) -> ParticipantData {
        participant_from_v4(*v)
    }
}

/// Version info in version 4.
pub open spec fn version_to_v4(v: VersionCompatInfo) -> VersionCompatInfoV4 {
    VersionCompatInfoV4 {
        version: v.version,
        orig_version: v.orig_version,
        block_header_version: v.block_header_version,
    }
}

impl From<&VersionCompatInfo> for VersionCompatInfoV4 {
    fn from(v: &VersionCompatInfo) -> (r: VersionCompatInfoV4)
        ensures
            r == version_to_v4(*v),
    {
        VersionCompatInfoV4 {
            version: v.version,
            orig_version: v.orig_version,
            block_header_version: v.block_header_version,
        }
    }
}

impl FromSpecImpl<&VersionCompatInfo> for VersionCompatInfoV4 {
    open spec fn obeys_from_spec() -> bool {
        true
    }

    open spec fn from_spec(v: &VersionCompatInfo) -> VersionCompatInfoV4 {
        version_to_v4(*v)
    }
}

/// Version info out of version 4.
pub open spec fn version_from_v4(v: VersionCompatInfoV4) -> VersionCompatInfo {
    VersionCompatInfo {
        version: v.version,
        orig_version: v.orig_version,
        block_header_version: v.block_header_version,
    }
}

impl From<&VersionCompatInfoV4> for VersionCompatInfo {
    fn from(v: &VersionCompatInfoV4) -> (r: VersionCompatInfo)
        ensures
            r == version_from_v4(*v),
    {
        VersionCompatInfo {
            version: v.version,
            orig_version: v.orig_version,
            block_header_version: v.block_header_version,
        }
    }
}

impl FromSpecImpl<&VersionCompatInfoV4> for VersionCompatInfo {
    open spec fn obeys_from_spec() -> bool {
        true
    }

    open spec fn from_spec(v: &VersionCompatInfoV4) -> VersionCompatInfo {
        version_from_v4(*v)
    }
}

/// A payment proof in version 4.
pub open spec fn payment_to_v4(v: PaymentInfo) -> PaymentInfoV4 {
    PaymentInfoV4 {
        sender_address: v.sender_address,
        receiver_address: v.receiver_address,
        receiver_signature: v.receiver_signature,
    }
}

impl From<&PaymentInfo> for PaymentInfoV4 {
    fn from(v: &PaymentInfo) -> (r: PaymentInfoV4)
        ensures
            r == payment_to_v4(*v),
    {
        PaymentInfoV4 {
            sender_address: v.sender_address,
            receiver_address: v.receiver_address,
            receiver_signature: v.receiver_signature,
        }
    }
}

impl FromSpecImpl<&PaymentInfo> for PaymentInfoV4 {
    open spec fn obeys_from_spec() -> bool {
        true
    }

    open spec fn from_spec(v: &PaymentInfo) -> PaymentInfoV4 {
        payment_to_v4(*v)
    }
}

/// A payment proof out of version 4.
pub open spec fn payment_from_v4(v: PaymentInfoV4) -> PaymentInfo {
    PaymentInfo {
        sender_address: v.sender_address,
        receiver_address: v.receiver_address,
        receiver_signature: v.receiver_signature,
    }
}

impl From<&PaymentInfoV4> for PaymentInfo {
    fn from(v: &PaymentInfoV4) -> (r: PaymentInfo)
        ensures
            r == payment_from_v4(*v),
    {
        PaymentInfo {
            sender_address: v.sender_address,
            receiver_address: v.receiver_address,
            receiver_signature: v.receiver_signature,
        }
    }
}

impl FromSpecImpl<&PaymentInfoV4> for PaymentInfo {
    open spec fn obeys_from_spec() -> bool {
        true
    }

    open spec fn from_spec(v: &PaymentInfoV4) -> PaymentInfo {
        payment_from_v4(*v)
    }
}

/// An input in version 4.
pub open spec fn input_to_v4(v: Input) -> InputV4 {
    InputV4 { features: v.features, commit: v.commit }
}

impl From<&Input> for InputV4 {
    fn from(v: &Input) -> (r: InputV4)
        ensures
            r == input_to_v4(*v),
    {
        InputV4 { features: v.features, commit: v.commit }
    }
}

impl FromSpecImpl<&Input> for InputV4 {
    open spec fn obeys_from_spec() -> bool {
        true
    }

    open spec fn from_spec(v: &Input) -> InputV4 {
        input_to_v4(*v)
    }
}

/// An input out of version 4.
pub open spec fn input_from_v4(v: InputV4) -> Input {
    Input { features: v.features, commit: v.commit }
}

impl From<&InputV4> for Input {
    fn from(v: &InputV4) -> (r: Input)
        ensures
            r == input_from_v4(*v),
    {
        Input { features: v.features, commit: v.commit }
    }
}

impl FromSpecImpl<&InputV4> for Input {
    open spec fn obeys_from_spec() -> bool {
        true
    }

    open spec fn from_spec(v: &InputV4) -> Input {
        input_from_v4(*v)
    }
}

/// A token input in version 4.
pub open spec fn token_input_to_v4(v: TokenInput) -> TokenInputV4 {
    TokenInputV4 { features: v.features, token_type: v.token_type, commit: v.commit }
}

impl From<&TokenInput> for TokenInputV4 {
    fn from(v: &TokenInput) -> (r: TokenInputV4)
        ensures
            r == token_input_to_v4(*v),
    {
        TokenInputV4 { features: v.features, token_type: v.token_type, commit: v.commit }
    }
}

impl FromSpecImpl<&TokenInput> for TokenInputV4 {
    open spec fn obeys_from_spec() -> bool {
        true
    }

    open spec fn from_spec(v: &TokenInput) -> TokenInputV4 {
        token_input_to_v4(*v)
    }
}

/// A token input out of version 4.
pub open spec fn token_input_from_v4(v: TokenInputV4) -> TokenInput {
    TokenInput { features: v.features, token_type: v.token_type, commit: v.commit }
}

impl From<&TokenInputV4> for TokenInput {
    fn from(v: &TokenInputV4) -> (r: TokenInput)
        ensures
            r == token_input_from_v4(*v),
    {
        TokenInput { features: v.features, token_type: v.token_type, commit: v.commit }
    }
}

impl FromSpecImpl<&TokenInputV4> for TokenInput {
    open spec fn obeys_from_spec() -> bool {
        true
    }

    open spec fn from_spec(v: &TokenInputV4) -> TokenInput {
        token_input_from_v4(*v)
    }
}

/// An output in version 4.
pub open spec fn output_to_v4(v: Output) -> OutputV4 {
    OutputV4 { features: v.features, commit: v.commit, proof: v.proof }
}

impl From<&Output> for OutputV4 {
    fn from(v: &Output) -> (r: OutputV4)
        ensures
            r == output_to_v4(*v),
    {
        OutputV4 { features: v.features, commit: v.commit, proof: v.proof }
    }
}

impl FromSpecImpl<&Output> for OutputV4 {
    open spec fn obeys_from_spec() -> bool {
        true
    }

    open spec fn from_spec(v: &Output) -> OutputV4 {
        output_to_v4(*v)
    }
}

/// An output out of version 4.
pub open spec fn output_from_v4(v: OutputV4) -> Output {
    Output { features: v.features, commit: v.commit, proof: v.proof }
}

impl From<&OutputV4> for Output {
    fn from(v: &OutputV4) -> (r: Output)
        ensures
            r == output_from_v4(*v),
    {
        Output { features: v.features, commit: v.commit, proof: v.proof }
    }
}

impl FromSpecImpl<&OutputV4> for Output {
    open spec fn obeys_from_spec() -> bool {
        true
    }

    open spec fn from_spec(v: &OutputV4) -> Output {
        output_from_v4(*v)
    }
}

/// A token output in version 4.
pub open spec fn token_output_to_v4(v: TokenOutput) -> TokenOutputV4 {
    TokenOutputV4 {
        features: v.features,
        token_type: v.token_type,
        commit: v.commit,
        proof: v.proof,
    }
}

impl From<&TokenOutput> for TokenOutputV4 {
    fn from(v: &TokenOutput) -> (r: TokenOutputV4)
        ensures
            r == token_output_to_v4(*v),
    {
        TokenOutputV4 {
            features: v.features,
            token_type: v.token_type,
            commit: v.commit,
            proof: v.proof,
        }
    }
}

impl FromSpecImpl<&TokenOutput> for TokenOutputV4 {
    open spec fn obeys_from_spec() -> bool {
        true
    }

    open spec fn from_spec(v: &TokenOutput) -> TokenOutputV4 {
        token_output_to_v4(*v)
    }
}

/// A token output out of version 4.
pub open spec fn token_output_from_v4(v: TokenOutputV4) -> TokenOutput {
    TokenOutput { features: v.features, token_type: v.token_type, commit: v.commit, proof: v.proof }
}

impl From<&TokenOutputV4> for TokenOutput {
    fn from(v: &TokenOutputV4) -> (r: TokenOutput)
        ensures
            r == token_output_from_v4(*v),
    {
        TokenOutput {
            features: v.features,
            token_type: v.token_type,
            commit: v.commit,
            proof: v.proof,
        }
    }
}

impl FromSpecImpl<&TokenOutputV4> for TokenOutput {
    open spec fn obeys_from_spec() -> bool {
        true
    }

    open spec fn from_spec(v: &TokenOutputV4) -> TokenOutput {
        token_output_from_v4(*v)
    }
}

/// A kernel in version 4: the fee and the lock height stand beside the kind.
pub open spec fn kernel_to_v4(v: TxKernel) -> TxKernelV4 {
    let (features, fee, lock_height) = match v.features {
        KernelFeatures::Plain { fee } => (CompatKernelFeatures::Plain, fee, 0u64),
        KernelFeatures::Coinbase => (CompatKernelFeatures::Coinbase, 0u64, 0u64),
        KernelFeatures::HeightLocked { fee, lock_height } => (
            CompatKernelFeatures::HeightLocked,
            fee,
            lock_height,
        ),
    };
    TxKernelV4 { features, fee, lock_height, excess: v.excess, excess_sig: v.excess_sig }
}

impl From<&TxKernel> for TxKernelV4 {
    fn from(v: &TxKernel) -> (r: TxKernelV4)
        ensures
            r == kernel_to_v4(*v),
    {
        let (features, fee, lock_height) = match v.features {
            KernelFeatures::Plain { fee } => (CompatKernelFeatures::Plain, fee, 0u64),
            KernelFeatures::Coinbase => (CompatKernelFeatures::Coinbase, 0u64, 0u64),
            KernelFeatures::HeightLocked { fee, lock_height } => (
                CompatKernelFeatures::HeightLocked,
                fee,
                lock_height,
            ),
        };
        TxKernelV4 { features, fee, lock_height, excess: v.excess, excess_sig: v.excess_sig }
    }
}

impl FromSpecImpl<&TxKernel> for TxKernelV4 {
    open spec fn obeys_from_spec() -> bool {
        true
    }

    open spec fn from_spec(v: &TxKernel) -> TxKernelV4 {
        kernel_to_v4(*v)
    }
}

/// A kernel out of version 4: what its kind has no room for is dropped.
pub open spec fn kernel_from_v4(v: TxKernelV4) -> TxKernel {
    let features = match v.features {
        CompatKernelFeatures::Plain => KernelFeatures::Plain { fee: v.fee },
        CompatKernelFeatures::Coinbase => KernelFeatures::Coinbase,
        CompatKernelFeatures::HeightLocked => KernelFeatures::HeightLocked {
            fee: v.fee,
            lock_height: v.lock_height,
        },
    };
    TxKernel { features, excess: v.excess, excess_sig: v.excess_sig }
}

impl From<&TxKernelV4> for TxKernel {
    fn from(v: &TxKernelV4) -> (r: TxKernel)
        ensures
            r == kernel_from_v4(*v),
    {
        let (fee, lock_height) = (v.fee, v.lock_height);
        let features = match v.features {
            CompatKernelFeatures::Plain => KernelFeatures::Plain { fee },
            CompatKernelFeatures::Coinbase => KernelFeatures::Coinbase,
            CompatKernelFeatures::HeightLocked => KernelFeatures::HeightLocked { fee, lock_height },
        };
        TxKernel { features, excess: v.excess, excess_sig: v.excess_sig }
    }
}

impl FromSpecImpl<&TxKernelV4> for TxKernel {
    open spec fn obeys_from_spec() -> bool {
        true
    }

    open spec fn from_spec(v: &TxKernelV4) -> TxKernel {
        kernel_from_v4(*v)
    }
}

/// A token kernel in version 4: the lock height stands beside the kind.
pub open spec fn token_kernel_to_v4(v: TokenTxKernel) -> TokenTxKernelV4 {
    let (features, lock_height) = match v.features {
        TokenKernelFeatures::PlainToken => (CompatTokenKernelFeatures::PlainToken, 0u64),
        TokenKernelFeatures::IssueToken => (CompatTokenKernelFeatures::IssueToken, 0u64),
        TokenKernelFeatures::HeightLockedToken { lock_height } => (
            CompatTokenKernelFeatures::HeightLockedToken,
            lock_height,
        ),
    };
    TokenTxKernelV4 {
        features,
        token_type: v.token_type,
        lock_height,
        excess: v.excess,
        excess_sig: v.excess_sig,
    }
}

impl From<&TokenTxKernel> for TokenTxKernelV4 {
    fn from(v: &TokenTxKernel) -> (r: TokenTxKernelV4)
        ensures
            r == token_kernel_to_v4(*v),
    {
        let (features, lock_height) = match v.features {
            TokenKernelFeatures::PlainToken => (CompatTokenKernelFeatures::PlainToken, 0u64),
            TokenKernelFeatures::IssueToken => (CompatTokenKernelFeatures::IssueToken, 0u64),
            TokenKernelFeatures::HeightLockedToken { lock_height } => (
                CompatTokenKernelFeatures::HeightLockedToken,
                lock_height,
            ),
        };
        TokenTxKernelV4 {
            features,
            token_type: v.token_type,
            lock_height,
            excess: v.excess,
            excess_sig: v.excess_sig,
        }
    }
}

impl FromSpecImpl<&TokenTxKernel> for TokenTxKernelV4 {
    open spec fn obeys_from_spec() -> bool {
        true
    }

    open spec fn from_spec(v: &TokenTxKernel) -> TokenTxKernelV4 {
        token_kernel_to_v4(*v)
    }
}

/// A token kernel out of version 4: what its kind has no room for is dropped.
pub open spec fn token_kernel_from_v4(v: TokenTxKernelV4) -> TokenTxKernel {
    let features = match v.features {
        CompatTokenKernelFeatures::PlainToken => TokenKernelFeatures::PlainToken,
        CompatTokenKernelFeatures::IssueToken => TokenKernelFeatures::IssueToken,
        CompatTokenKernelFeatures::HeightLockedToken => TokenKernelFeatures::HeightLockedToken {
            lock_height: v.lock_height,
        },
    };
    TokenTxKernel {
        features,
        token_type: v.token_type,
        excess: v.excess,
        excess_sig: v.excess_sig,
    }
}

impl From<&TokenTxKernelV4> for TokenTxKernel {
    fn from(v: &TokenTxKernelV4) -> (r: TokenTxKernel)
        ensures
            r == token_kernel_from_v4(*v),
    {
        let lock_height = v.lock_height;
        let features = match v.features {
            CompatTokenKernelFeatures::PlainToken => TokenKernelFeatures::PlainToken,
            CompatTokenKernelFeatures::IssueToken => TokenKernelFeatures::IssueToken,
            CompatTokenKernelFeatures::HeightLockedToken => TokenKernelFeatures::HeightLockedToken {
                lock_height,
            },
        };
        TokenTxKernel {
            features,
            token_type: v.token_type,
            excess: v.excess,
            excess_sig: v.excess_sig,
        }
    }
}

impl FromSpecImpl<&TokenTxKernelV4> for TokenTxKernel {
    open spec fn obeys_from_spec() -> bool {
        true
    }

    open spec fn from_spec(v: &TokenTxKernelV4) -> TokenTxKernel {
        token_kernel_from_v4(*v)
    }
}

/// The coinbase in version 4.
pub open spec fn coinbase_to_v4(cb: CbData) -> CoinbaseV4 {
    CoinbaseV4 {
        output: output_to_v4(cb.output),
        kernel: kernel_to_v4(cb.kernel),
        key_id: cb.key_id,
    }
}

impl From<CbData> for CoinbaseV4 {
    fn from(cb: CbData) -> (r: CoinbaseV4)
        ensures
            r.output == output_to_v4(cb.output),
            r.kernel == kernel_to_v4(cb.kernel),
            r.key_id == cb.key_id,
    {
        CoinbaseV4 {
            output: OutputV4::from(&cb.output),
            kernel: TxKernelV4::from(&cb.kernel),
            key_id: cb.key_id,
        }
    }
}

impl FromSpecImpl<CbData> for CoinbaseV4 {
    open spec fn obeys_from_spec() -> bool {
        true
    }

    open spec fn from_spec(cb: CbData) -> CoinbaseV4 {
        coinbase_to_v4(cb)
    }
}

// Transactions and slates hold lists: they are converted list by list, and what
// is stated is how the views of the two sides relate.

impl BodyView {
    /// The elements in version 4, each in its place.
    pub open spec fn to_v4(self) -> BodyV4View {
        BodyV4View {
            inputs: self.inputs.map_values(|v: Input| input_to_v4(v)),
            token_inputs: self.token_inputs.map_values(|v: TokenInput| token_input_to_v4(v)),
            outputs: self.outputs.map_values(|v: Output| output_to_v4(v)),
            token_outputs: self.token_outputs.map_values(|v: TokenOutput| token_output_to_v4(v)),
            kernels: self.kernels.map_values(|v: TxKernel| kernel_to_v4(v)),
            token_kernels: self.token_kernels.map_values(|v: TokenTxKernel| token_kernel_to_v4(v)),
        }
    }
}

impl BodyV4View {
    /// The elements out of version 4, each in its place.
    pub open spec fn from_v4(self) -> BodyView {
        BodyView {
            inputs: self.inputs.map_values(|v: InputV4| input_from_v4(v)),
            token_inputs: self.token_inputs.map_values(|v: TokenInputV4| token_input_from_v4(v)),
            outputs: self.outputs.map_values(|v: OutputV4| output_from_v4(v)),
            token_outputs: self.token_outputs.map_values(
                |v: TokenOutputV4| token_output_from_v4(v),
            ),
            kernels: self.kernels.map_values(|v: TxKernelV4| kernel_from_v4(v)),
            token_kernels: self.token_kernels.map_values(
                |v: TokenTxKernelV4| token_kernel_from_v4(v),
            ),
        }
    }
}

impl TransactionView {
    /// The transaction in version 4.
    pub open spec fn to_v4(self) -> TransactionV4View {
        TransactionV4View { offset: self.offset, body: self.body.to_v4() }
    }
}

impl TransactionV4View {
    /// The transaction out of version 4.
    pub open spec fn from_v4(self) -> TransactionView {
        TransactionView { offset: self.offset, body: self.body.from_v4() }
    }
}

impl SlateView {
    /// The slate in version 4.
    pub open spec fn to_v4(self) -> SlateV4View {
        SlateV4View {
            version_info: version_to_v4(self.version_info),
            num_participants: self.num_participants,
            id: self.id,
            tx: match self.tx {
                Some(tx) => Some(tx.to_v4()),
                None => None,
            },
            amount: self.amount,
            token_type: self.token_type,
            fee: self.fee,
            height: self.height,
            lock_height: self.lock_height,
            ttl_cutoff_height: self.ttl_cutoff_height,
            participant_data: self.participant_data.map_values(
                |v: ParticipantData| participant_to_v4(v),
            ),
            payment_proof: match self.payment_proof {
                Some(p) => Some(payment_to_v4(p)),
                None => None,
            },
        }
    }
}

impl SlateV4View {
    /// The slate out of version 4.
    pub open spec fn from_v4(self) -> SlateView {
        SlateView {
            version_info: version_from_v4(self.version_info),
            num_participants: self.num_participants,
            id: self.id,
            tx: match self.tx {
                Some(tx) => Some(tx.from_v4()),
                None => None,
            },
            amount: self.amount,
            token_type: self.token_type,
            fee: self.fee,
            height: self.height,
            lock_height: self.lock_height,
            ttl_cutoff_height: self.ttl_cutoff_height,
            participant_data: self.participant_data.map_values(
                |v: ParticipantDataV4| participant_from_v4(v),
            ),
            payment_proof: match self.payment_proof {
                Some(p) => Some(payment_from_v4(p)),
                None => None,
            },
        }
    }
}

impl From<&TransactionBody> for TransactionBodyV4 {
    fn from(body: &TransactionBody) -> (r: TransactionBodyV4)
        ensures
            r@ == body@.to_v4(),
    {
        let mut inputs: Vec<InputV4> = Vec::new();
        for i in 0..body.inputs.len()
            invariant
                inputs@.len() == i,
                forall|j: int| 0 <= j < i ==> inputs@[j] == input_to_v4(#[trigger] body.inputs@[j]),
        {
            inputs.push(InputV4::from(&body.inputs[i]));
        }
        let mut token_inputs: Vec<TokenInputV4> = Vec::new();
        for i in 0..body.token_inputs.len()
            invariant
                token_inputs@.len() == i,
                forall|j: int|
                    0 <= j < i ==> token_inputs@[j] == token_input_to_v4(
                        #[trigger] body.token_inputs@[j],
                    ),
        {
            token_inputs.push(TokenInputV4::from(&body.token_inputs[i]));
        }
        let mut outputs: Vec<OutputV4> = Vec::new();
        for i in 0..body.outputs.len()
            invariant
                outputs@.len() == i,
                forall|j: int|
                    0 <= j < i ==> outputs@[j] == output_to_v4(
                        #[trigger] body.outputs@[j],
                    ),
        {
            outputs.push(OutputV4::from(&body.outputs[i]));
        }
        let mut token_outputs: Vec<TokenOutputV4> = Vec::new();
        for i in 0..body.token_outputs.len()
            invariant
                token_outputs@.len() == i,
                forall|j: int|
                    0 <= j < i ==> token_outputs@[j] == token_output_to_v4(
                        #[trigger] body.token_outputs@[j],
                    ),
        {
            token_outputs.push(TokenOutputV4::from(&body.token_outputs[i]));
        }
        let mut kernels: Vec<TxKernelV4> = Vec::new();
        for i in 0..body.kernels.len()
            invariant
                kernels@.len() == i,
                forall|j: int|
                    0 <= j < i ==> kernels@[j] == kernel_to_v4(
                        #[trigger] body.kernels@[j],
                    ),
        {
            kernels.push(TxKernelV4::from(&body.kernels[i]));
        }
        let mut token_kernels: Vec<TokenTxKernelV4> = Vec::new();
        for i in 0..body.token_kernels.len()
            invariant
                token_kernels@.len() == i,
                forall|j: int|
                    0 <= j < i ==> token_kernels@[j] == token_kernel_to_v4(
                        #[trigger] body.token_kernels@[j],
                    ),
        {
            token_kernels.push(TokenTxKernelV4::from(&body.token_kernels[i]));
        }
        let r = TransactionBodyV4 {
            inputs,
            token_inputs,
            outputs,
            token_outputs,
            kernels,
            token_kernels,
        };
        assert(r@ =~= body@.to_v4());
        r
    }
}

impl FromSpecImpl<&TransactionBody> for TransactionBodyV4 {
    open spec fn obeys_from_spec() -> bool {
        false
    }

    open spec fn from_spec(body: &TransactionBody) -> TransactionBodyV4 {
        arbitrary()
    }
}

impl From<&Transaction> for TransactionV4 {
    fn from(tx: &Transaction) -> (r: TransactionV4)
        ensures
            r@ == tx@.to_v4(),
    {
        TransactionV4 { offset: tx.offset, body: TransactionBodyV4::from(&tx.body) }
    }
}

impl FromSpecImpl<&Transaction> for TransactionV4 {
    open spec fn obeys_from_spec() -> bool {
        false
    }

    open spec fn from_spec(tx: &Transaction) -> TransactionV4 {
        arbitrary()
    }
}

impl From<Transaction> for TransactionV4 {
    fn from(tx: Transaction) -> (r: TransactionV4)
        ensures
            r@ == tx@.to_v4(),
    {
        TransactionV4 { offset: tx.offset, body: TransactionBodyV4::from(&tx.body) }
    }
}

impl FromSpecImpl<Transaction> for TransactionV4 {
    open spec fn obeys_from_spec() -> bool {
        false
    }

    open spec fn from_spec(tx: Transaction) -> TransactionV4 {
        arbitrary()
    }
}

impl From<&Slate> for SlateV4 {
    fn from(slate: &Slate) -> (r: SlateV4)
        ensures
            r@ == slate@.to_v4(),
    {
        let mut participant_data: Vec<ParticipantDataV4> = Vec::new();
        for i in 0..slate.participant_data.len()
            invariant
                participant_data@.len() == i,
                forall|j: int|
                    0 <= j < i ==> participant_data@[j] == participant_to_v4(
                        #[trigger] slate.participant_data@[j],
                    ),
        {
            participant_data.push(ParticipantDataV4::from(&slate.participant_data[i]));
        }
        let payment_proof = match &slate.payment_proof {
            Some(p) => Some(PaymentInfoV4::from(p)),
            None => None,
        };
        let tx = match &slate.tx {
            Some(t) => Some(TransactionV4::from(t)),
            None => None,
        };
        let r = SlateV4 {
            version_info: VersionCompatInfoV4::from(&slate.version_info),
            num_participants: slate.num_participants,
            id: slate.id,
            tx,
            amount: slate.amount,
            token_type: copy_text(&slate.token_type),
            fee: slate.fee,
            height: slate.height,
            lock_height: slate.lock_height,
            ttl_cutoff_height: slate.ttl_cutoff_height,
            participant_data,
            payment_proof,
        };
        assert(r@ =~= slate@.to_v4());
        r
    }
}

impl FromSpecImpl<&Slate> for SlateV4 {
    open spec fn obeys_from_spec() -> bool {
        false
    }

    open spec fn from_spec(slate: &Slate) -> SlateV4 {
        arbitrary()
    }
}

impl From<Slate> for SlateV4 {
    fn from(slate: Slate) -> (r: SlateV4)
        ensures
            r@ == slate@.to_v4(),
    {
        SlateV4::from(&slate)
    }
}

impl FromSpecImpl<Slate> for SlateV4 {
    open spec fn obeys_from_spec() -> bool {
        false
    }

    open spec fn from_spec(slate: Slate) -> SlateV4 {
        arbitrary()
    }
}

impl From<&TransactionBodyV4> for TransactionBody {
    fn from(body: &TransactionBodyV4) -> (r: TransactionBody)
        ensures
            r@ == body@.from_v4(),
    {
        let mut inputs: Vec<Input> = Vec::new();
        for i in 0..body.inputs.len()
            invariant
                inputs@.len() == i,
                forall|j: int|
                    0 <= j < i ==> inputs@[j] == input_from_v4(
                        #[trigger] body.inputs@[j],
                    ),
        {
            inputs.push(Input::from(&body.inputs[i]));
        }
        let mut token_inputs: Vec<TokenInput> = Vec::new();
        for i in 0..body.token_inputs.len()
            invariant
                token_inputs@.len() == i,
                forall|j: int|
                    0 <= j < i ==> token_inputs@[j] == token_input_from_v4(
                        #[trigger] body.token_inputs@[j],
                    ),
        {
            token_inputs.push(TokenInput::from(&body.token_inputs[i]));
        }
        let mut outputs: Vec<Output> = Vec::new();
        for i in 0..body.outputs.len()
            invariant
                outputs@.len() == i,
                forall|j: int|
                    0 <= j < i ==> outputs@[j] == output_from_v4(
                        #[trigger] body.outputs@[j],
                    ),
        {
            outputs.push(Output::from(&body.outputs[i]));
        }
        let mut token_outputs: Vec<TokenOutput> = Vec::new();
        for i in 0..body.token_outputs.len()
            invariant
                token_outputs@.len() == i,
                forall|j: int|
                    0 <= j < i ==> token_outputs@[j] == token_output_from_v4(
                        #[trigger] body.token_outputs@[j],
                    ),
        {
            token_outputs.push(TokenOutput::from(&body.token_outputs[i]));
        }
        let mut kernels: Vec<TxKernel> = Vec::new();
        for i in 0..body.kernels.len()
            invariant
                kernels@.len() == i,
                forall|j: int|
                    0 <= j < i ==> kernels@[j] == kernel_from_v4(
                        #[trigger] body.kernels@[j],
                    ),
        {
            kernels.push(TxKernel::from(&body.kernels[i]));
        }
        let mut token_kernels: Vec<TokenTxKernel> = Vec::new();
        for i in 0..body.token_kernels.len()
            invariant
                token_kernels@.len() == i,
                forall|j: int|
                    0 <= j < i ==> token_kernels@[j] == token_kernel_from_v4(
                        #[trigger] body.token_kernels@[j],
                    ),
        {
            token_kernels.push(TokenTxKernel::from(&body.token_kernels[i]));
        }
        let r = TransactionBody {
            inputs,
            token_inputs,
            outputs,
            token_outputs,
            kernels,
            token_kernels,
        };
        assert(r@ =~= body@.from_v4());
        r
    }
}

impl FromSpecImpl<&TransactionBodyV4> for TransactionBody {
    open spec fn obeys_from_spec() -> bool {
        false
    }

    open spec fn from_spec(body: &TransactionBodyV4) -> TransactionBody {
        arbitrary()
    }
}

impl From<&TransactionV4> for Transaction {
    fn from(tx: &TransactionV4) -> (r: Transaction)
        ensures
            r@ == tx@.from_v4(),
    {
        Transaction { offset: tx.offset, body: TransactionBody::from(&tx.body) }
    }
}

impl FromSpecImpl<&TransactionV4> for Transaction {
    open spec fn obeys_from_spec() -> bool {
        false
    }

    open spec fn from_spec(tx: &TransactionV4) -> Transaction {
        arbitrary()
    }
}

impl From<TransactionV4> for Transaction {
    fn from(tx: TransactionV4) -> (r: Transaction)
        ensures
            r@ == tx@.from_v4(),
    {
        Transaction { offset: tx.offset, body: TransactionBody::from(&tx.body) }
    }
}

impl FromSpecImpl<TransactionV4> for Transaction {
    open spec fn obeys_from_spec() -> bool {
        false
    }

    open spec fn from_spec(tx: TransactionV4) -> Transaction {
        arbitrary()
    }
}

impl From<SlateV4> for Slate {
    fn from(slate: SlateV4) -> (r: Slate)
        ensures
            r@ == slate@.from_v4(),
    {
        let mut participant_data: Vec<ParticipantData> = Vec::new();
        for i in 0..slate.participant_data.len()
            invariant
                participant_data@.len() == i,
                forall|j: int|
                    0 <= j < i ==> participant_data@[j] == participant_from_v4(
                        #[trigger] slate.participant_data@[j],
                    ),
        {
            participant_data.push(ParticipantData::from(&slate.participant_data[i]));
        }
        let payment_proof = match &slate.payment_proof {
            Some(p) => Some(PaymentInfo::from(p)),
            None => None,
        };
        let tx = match &slate.tx {
            Some(t) => Some(Transaction::from(t)),
            None => None,
        };
        let r = Slate {
            version_info: VersionCompatInfo::from(&slate.version_info),
            num_participants: slate.num_participants,
            id: slate.id,
            tx,
            amount: slate.amount,
            token_type: copy_text(&slate.token_type),
            fee: slate.fee,
            height: slate.height,
            lock_height: slate.lock_height,
            ttl_cutoff_height: slate.ttl_cutoff_height,
            participant_data,
            payment_proof,
        };
        assert(r@ =~= slate@.from_v4());
        r
    }
}

impl FromSpecImpl<SlateV4> for Slate {
    open spec fn obeys_from_spec() -> bool {
        false
    }

    open spec fn from_spec(slate: SlateV4) -> Slate {
        arbitrary()
    }
}

// Laws of the conversions

/// A kernel survives the way into version 4 and back.
pub proof fn kernel_round_trip(kernel: TxKernel)
    ensures
        kernel_from_v4(kernel_to_v4(kernel)) == kernel,
{
}

/// A token kernel survives the way into version 4 and back.
pub proof fn token_kernel_round_trip(kernel: TokenTxKernel)
    ensures
        token_kernel_from_v4(token_kernel_to_v4(kernel)) == kernel,
{
}

/// The elements of a transaction survive the way into version 4 and back.
pub proof fn body_round_trip(body: BodyView)
    ensures
        body.to_v4().from_v4() == body,
{
    assert forall|i: int| 0 <= i < body.kernels.len() implies kernel_from_v4(
        kernel_to_v4(#[trigger] body.kernels[i]),
    ) == body.kernels[i] by {
        kernel_round_trip(body.kernels[i]);
    }
    assert forall|i: int| 0 <= i < body.token_kernels.len() implies token_kernel_from_v4(
        token_kernel_to_v4(#[trigger] body.token_kernels[i]),
    ) == body.token_kernels[i] by {
        token_kernel_round_trip(body.token_kernels[i]);
    }
    assert(body.to_v4().from_v4() =~= body);
}

/// A slate that is written in version 4 and read back is the same slate.
pub proof fn slate_round_trip(slate: SlateView)
    ensures
        slate.to_v4().from_v4() == slate,
{
    if let Some(tx) = slate.tx {
        body_round_trip(tx.body);
    }
    assert(slate.to_v4().from_v4() =~= slate);
}

/// Whether a kernel holds zero where its kind has no room for a number.
pub open spec fn kernel_canonical(v: TxKernelV4) -> bool {
    match v.features {
        CompatKernelFeatures::Plain => v.lock_height == 0,
        CompatKernelFeatures::Coinbase => v.fee == 0 && v.lock_height == 0,
        CompatKernelFeatures::HeightLocked => true,
    }
}

/// Whether a token kernel holds zero where its kind has no room for a number.
pub open spec fn token_kernel_canonical(v: TokenTxKernelV4) -> bool {
    match v.features {
        CompatTokenKernelFeatures::HeightLockedToken => true,
        _ => v.lock_height == 0,
    }
}

/// Whether all kernels of a slate are canonical.
pub open spec fn slate_canonical(slate: SlateV4View) -> bool {
    slate.tx matches Some(tx) ==> {
        &&& forall|i: int|
            0 <= i < tx.body.kernels.len() ==> kernel_canonical(#[trigger] tx.body.kernels[i])
        &&& forall|i: int|
            0 <= i < tx.body.token_kernels.len() ==> token_kernel_canonical(
                #[trigger] tx.body.token_kernels[i],
            )
    }
}

/// A canonical version 4 slate that is read and written again is the same slate.
pub proof fn slate_v4_round_trip(slate: SlateV4View)
    requires
        slate_canonical(slate),
    ensures
        slate.from_v4().to_v4() == slate,
{
    if let Some(tx) = slate.tx {
        assert forall|i: int| 0 <= i < tx.body.kernels.len() implies kernel_to_v4(
            kernel_from_v4(#[trigger] tx.body.kernels[i]),
        ) == tx.body.kernels[i] by {
            assert(kernel_canonical(tx.body.kernels[i]));
        }
        assert forall|i: int| 0 <= i < tx.body.token_kernels.len() implies token_kernel_to_v4(
            token_kernel_from_v4(#[trigger] tx.body.token_kernels[i]),
        ) == tx.body.token_kernels[i] by {
            assert(token_kernel_canonical(tx.body.token_kernels[i]));
        }
        assert(tx.from_v4().to_v4().body =~= tx.body);
    }
    assert(slate.from_v4().to_v4() =~= slate);
}

/// Whatever is written in version 4 is canonical.
pub proof fn written_slate_is_canonical(slate: SlateView)
    ensures
        slate_canonical(slate.to_v4()),
{
}

} // verus!
