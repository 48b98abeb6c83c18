//! What stands where: the views of slates, and slates in and out of version 4,
//! field by field.
use crate::elements::issue_excess_view;
use crate::error::{outcome, Error, ErrorView};
use crate::kernel::{excess_view, message_outcome};
use crate::keys::{Commitment, Message, PublicKey, Signature};
use crate::participant::{message_data, ParticipantData, ParticipantMessageData};
use crate::rounds::{key_outcome, signature_view};
use crate::slate::{
    format_outcome, is_blank, messages_listed, participant_found, slate_outcome, slate_read,
    slate_serialized, slate_written, upgrade_outcome, version_outcome, PaymentInfo, Slate,
    SlateView,
};
use crate::text::decimal_text;
use crate::transaction::{
    Input, KernelFeatures, Output, TokenInput, TokenKernelFeatures, TokenOutput, TokenTxKernel,
    Transaction, TransactionBody, TransactionView, TxKernel,
};
use crate::v4::{
    coinbase_to_v4, input_from_v4, input_to_v4, kernel_from_v4, kernel_to_v4, output_from_v4,
    output_to_v4, participant_from_v4, participant_to_v4, payment_from_v4, payment_to_v4,
    token_input_from_v4, token_input_to_v4, token_kernel_from_v4, token_kernel_to_v4,
    token_output_from_v4, token_output_to_v4, version_from_v4, version_to_v4, CbData, InputV4,
    OutputV4, ParticipantDataV4, PaymentInfoV4, SlateV4, SlateV4View, TokenInputV4, TokenOutputV4,
    TokenTxKernelV4, TransactionBodyV4, TransactionV4, TransactionV4View, TxKernelV4,
    VersionCompatInfoV4,
};
use crate::version::{
    format_of, probed_version, SlateFormat, SlateVersionProbe, VersionCompatInfo,
};
use vstd::prelude::*;

verus! {

// Views

/// The view of a slate has every field of the slate under its own name.
pub proof fn slate_view_has_all_fields(slate: Slate)
    ensures
        slate@.version_info == slate.version_info,
        slate@.num_participants == slate.num_participants,
        slate@.id == slate.id,
        slate@.tx is Some <==> slate.tx is Some,
        slate.tx matches Some(tx) ==> slate@.tx == Some(tx@),
        slate@.amount == slate.amount,
        slate@.token_type == slate.token_type,
        slate@.fee == slate.fee,
        slate@.height == slate.height,
        slate@.lock_height == slate.lock_height,
        slate@.ttl_cutoff_height == slate.ttl_cutoff_height,
        slate@.participant_data == slate.participant_data@,
        slate@.payment_proof == slate.payment_proof,
{
}

/// The view of a transaction has every list of the transaction under its own name.
pub proof fn transaction_view_has_all_fields(tx: Transaction, body: TransactionBody)
    ensures
        tx@.offset == tx.offset,
        tx@.body == tx.body@,
        body@.inputs == body.inputs@,
        body@.token_inputs == body.token_inputs@,
        body@.outputs == body.outputs@,
        body@.token_outputs == body.token_outputs@,
        body@.kernels == body.kernels@,
        body@.token_kernels == body.token_kernels@,
{
}

/// The view of a version 4 slate has every field of it under its own name.
pub proof fn slate_v4_view_has_all_fields(
    slate: SlateV4,
    tx: TransactionV4,
    body: TransactionBodyV4,
)
    ensures
        slate@.version_info == slate.version_info,
        slate@.num_participants == slate.num_participants,
        slate@.id == slate.id,
        slate@.tx is Some <==> slate.tx is Some,
        slate.tx matches Some(t) ==> slate@.tx == Some(t@),
        slate@.amount == slate.amount,
        slate@.token_type == slate.token_type,
        slate@.fee == slate.fee,
        slate@.height == slate.height,
        slate@.lock_height == slate.lock_height,
        slate@.ttl_cutoff_height == slate.ttl_cutoff_height,
        slate@.participant_data == slate.participant_data@,
        slate@.payment_proof == slate.payment_proof,
        tx@.offset == tx.offset,
        tx@.body == tx.body@,
        body@.inputs == body.inputs@,
        body@.token_inputs == body.token_inputs@,
        body@.outputs == body.outputs@,
        body@.token_outputs == body.token_outputs@,
        body@.kernels == body.kernels@,
        body@.token_kernels == body.token_kernels@,
{
}

// What a value and its form in version 4 have in common

/// Versioning info and its form in version 4.
pub open spec fn version_agrees(a: VersionCompatInfo, b: VersionCompatInfoV4) -> bool {
    &&& a.version == b.version
    &&& a.orig_version == b.orig_version
    &&& a.block_header_version == b.block_header_version
}

/// A participant and its form in version 4.
pub open spec fn participant_agrees(a: ParticipantData, b: ParticipantDataV4) -> bool {
    &&& a.id == b.id
    &&& a.public_blind_excess == b.public_blind_excess
    &&& a.public_nonce == b.public_nonce
    &&& a.part_sig == b.part_sig
    &&& a.message == b.message
    &&& a.message_sig == b.message_sig
}

/// A payment proof and its form in version 4.
pub open spec fn payment_agrees(a: PaymentInfo, b: PaymentInfoV4) -> bool {
    &&& a.sender_address == b.sender_address
    &&& a.receiver_address == b.receiver_address
    &&& a.receiver_signature == b.receiver_signature
}

/// A kernel and its form in version 4.
pub open spec fn kernel_agrees(a: TxKernel, b: TxKernelV4) -> bool {
    &&& a.excess == b.excess
    &&& a.excess_sig == b.excess_sig
    &&& b.features is Plain ==> a.features == KernelFeatures::Plain { fee: b.fee }
    &&& b.features is Coinbase ==> a.features == KernelFeatures::Coinbase
    &&& b.features is HeightLocked ==> a.features == KernelFeatures::HeightLocked {
        fee: b.fee,
        lock_height: b.lock_height,
    }
}

/// A token kernel and its form in version 4.
pub open spec fn token_kernel_agrees(a: TokenTxKernel, b: TokenTxKernelV4) -> bool {
    &&& a.token_type == b.token_type
    &&& a.excess == b.excess
    &&& a.excess_sig == b.excess_sig
    &&& b.features is PlainToken ==> a.features == TokenKernelFeatures::PlainToken
    &&& b.features is IssueToken ==> a.features == TokenKernelFeatures::IssueToken
    &&& b.features is HeightLockedToken ==> a.features == TokenKernelFeatures::HeightLockedToken {
        lock_height: b.lock_height,
    }
}

/// A transaction and its form in version 4: each list has its elements in the same
/// places.
pub open spec fn transaction_agrees(a: TransactionView, b: TransactionV4View) -> bool {
    &&& a.offset == b.offset
    &&& a.body.inputs.len() == b.body.inputs.len()
    &&& forall|i: int|
        #![trigger a.body.inputs[i]]
        #![trigger b.body.inputs[i]]
        0 <= i < a.body.inputs.len() ==> {
            &&& a.body.inputs[i].features == b.body.inputs[i].features
            &&& a.body.inputs[i].commit == b.body.inputs[i].commit
        }
    &&& a.body.token_inputs.len() == b.body.token_inputs.len()
    &&& forall|i: int|
        #![trigger a.body.token_inputs[i]]
        #![trigger b.body.token_inputs[i]]
        0 <= i < a.body.token_inputs.len() ==> {
            &&& a.body.token_inputs[i].features == b.body.token_inputs[i].features
            &&& a.body.token_inputs[i].token_type == b.body.token_inputs[i].token_type
            &&& a.body.token_inputs[i].commit == b.body.token_inputs[i].commit
        }
    &&& a.body.outputs.len() == b.body.outputs.len()
    &&& forall|i: int|
        #![trigger a.body.outputs[i]]
        #![trigger b.body.outputs[i]]
        0 <= i < a.body.outputs.len() ==> {
            &&& a.body.outputs[i].features == b.body.outputs[i].features
            &&& a.body.outputs[i].commit == b.body.outputs[i].commit
            &&& a.body.outputs[i].proof == b.body.outputs[i].proof
        }
    &&& a.body.token_outputs.len() == b.body.token_outputs.len()
    &&& forall|i: int|
        #![trigger a.body.token_outputs[i]]
        #![trigger b.body.token_outputs[i]]
        0 <= i < a.body.token_outputs.len() ==> {
            &&& a.body.token_outputs[i].features == b.body.token_outputs[i].features
            &&& a.body.token_outputs[i].token_type == b.body.token_outputs[i].token_type
            &&& a.body.token_outputs[i].commit == b.body.token_outputs[i].commit
            &&& a.body.token_outputs[i].proof == b.body.token_outputs[i].proof
        }
    &&& a.body.kernels.len() == b.body.kernels.len()
    &&& forall|i: int|
        #![trigger a.body.kernels[i]]
        #![trigger b.body.kernels[i]]
        0 <= i < a.body.kernels.len() ==> kernel_agrees(a.body.kernels[i], b.body.kernels[i])
    &&& a.body.token_kernels.len() == b.body.token_kernels.len()
    &&& forall|i: int|
        #![trigger a.body.token_kernels[i]]
        #![trigger b.body.token_kernels[i]]
        0 <= i < a.body.token_kernels.len() ==> token_kernel_agrees(
            a.body.token_kernels[i],
            b.body.token_kernels[i],
        )
}

/// A slate and its form in version 4: what one has in a field, the other has in the
/// field of the same name.
pub open spec fn slate_agrees(a: SlateView, b: SlateV4View) -> bool {
    &&& version_agrees(a.version_info, b.version_info)
    &&& a.num_participants == b.num_participants
    &&& a.id == b.id
    &&& a.tx is Some <==> b.tx is Some
    &&& a.tx is Some ==> transaction_agrees(a.tx.unwrap(), b.tx.unwrap())
    &&& a.amount == b.amount
    &&& a.token_type == b.token_type
    &&& a.fee == b.fee
    &&& a.height == b.height
    &&& a.lock_height == b.lock_height
    &&& a.ttl_cutoff_height == b.ttl_cutoff_height
    &&& a.participant_data.len() == b.participant_data.len()
    &&& forall|i: int|
        #![trigger a.participant_data[i]]
        #![trigger b.participant_data[i]]
        0 <= i < a.participant_data.len() ==> participant_agrees(
            a.participant_data[i],
            b.participant_data[i],
        )
    &&& a.payment_proof is Some <==> b.payment_proof is Some
    &&& a.payment_proof is Some ==> payment_agrees(
        a.payment_proof.unwrap(),
        b.payment_proof.unwrap(),
    )
}

/// A slate agrees with what it is in version 4, field by field.
pub proof fn slate_agrees_with_its_v4(s: SlateView)
    ensures
        slate_agrees(s, s.to_v4()),
        s.to_v4().num_participants == s.num_participants && s.to_v4().id == s.id,
        s.to_v4().amount == s.amount && s.to_v4().fee == s.fee,
        s.to_v4().height == s.height,
        s.to_v4().lock_height == s.lock_height,
        s.to_v4().ttl_cutoff_height == s.ttl_cutoff_height,
        s.to_v4().token_type == s.token_type,
        s.to_v4().participant_data.len() == s.participant_data.len(),
        s.to_v4().tx is Some <==> s.tx is Some,
        s.to_v4().payment_proof is Some <==> s.payment_proof is Some,
{
}

/// A version 4 slate agrees with the slate that is read from it, field by field.
pub proof fn v4_agrees_with_its_slate(v: SlateV4View)
    ensures
        slate_agrees(v.from_v4(), v),
        v.from_v4().num_participants == v.num_participants && v.from_v4().id == v.id,
        v.from_v4().amount == v.amount && v.from_v4().fee == v.fee,
        v.from_v4().height == v.height,
        v.from_v4().lock_height == v.lock_height,
        v.from_v4().ttl_cutoff_height == v.ttl_cutoff_height,
        v.from_v4().token_type == v.token_type,
        v.from_v4().participant_data.len() == v.participant_data.len(),
        v.from_v4().tx is Some <==> v.tx is Some,
        v.from_v4().payment_proof is Some <==> v.payment_proof is Some,
{
}

/// So do a transaction and what it is in version 4, both ways.
pub proof fn transaction_agrees_with_its_v4(tx: TransactionView, v: TransactionV4View)
    ensures
        transaction_agrees(tx, tx.to_v4()),
        transaction_agrees(v.from_v4(), v),
{
}

/// So do the single values and what they are in version 4, both ways.
pub proof fn values_agree_with_their_v4(
    p: ParticipantData,
    p4: ParticipantDataV4,
    v: VersionCompatInfo,
    v4: VersionCompatInfoV4,
    pay: PaymentInfo,
    pay4: PaymentInfoV4,
)
    ensures
        participant_agrees(p, participant_to_v4(p)),
        participant_agrees(participant_from_v4(p4), p4),
        version_agrees(v, version_to_v4(v)),
        version_agrees(version_from_v4(v4), v4),
        payment_agrees(pay, payment_to_v4(pay)),
        payment_agrees(payment_from_v4(pay4), pay4),
{
}

/// So do inputs and outputs.
pub proof fn elements_agree_with_their_v4(
    i: Input,
    i4: InputV4,
    ti: TokenInput,
    ti4: TokenInputV4,
    o: Output,
    o4: OutputV4,
    to: TokenOutput,
    to4: TokenOutputV4,
)
    ensures
        input_to_v4(i).features == i.features && input_to_v4(i).commit == i.commit,
        input_from_v4(i4).features == i4.features && input_from_v4(i4).commit == i4.commit,
        token_input_to_v4(ti).features == ti.features,
        token_input_to_v4(ti).token_type == ti.token_type,
        token_input_to_v4(ti).commit == ti.commit,
        token_input_from_v4(ti4).features == ti4.features,
        token_input_from_v4(ti4).token_type == ti4.token_type,
        token_input_from_v4(ti4).commit == ti4.commit,
        output_to_v4(o).features == o.features && output_to_v4(o).commit == o.commit,
        output_to_v4(o).proof == o.proof,
        output_from_v4(o4).features == o4.features && output_from_v4(o4).commit == o4.commit,
        output_from_v4(o4).proof == o4.proof,
        token_output_to_v4(to).features == to.features,
        token_output_to_v4(to).token_type == to.token_type,
        token_output_to_v4(to).commit == to.commit && token_output_to_v4(to).proof == to.proof,
        token_output_from_v4(to4).features == to4.features,
        token_output_from_v4(to4).token_type == to4.token_type,
        token_output_from_v4(to4).commit == to4.commit,
        token_output_from_v4(to4).proof == to4.proof,
{
}

/// A kernel goes into version 4 under its own kind, with zero for the numbers that
/// its kind does not have; and one that comes out has the kind that it had there.
pub proof fn kernel_agrees_with_its_v4(k: TxKernel, k4: TxKernelV4)
    ensures
        kernel_agrees(k, kernel_to_v4(k)),
        kernel_agrees(kernel_from_v4(k4), k4),
        k.features is Plain ==> kernel_to_v4(k).lock_height == 0,
        k.features is Coinbase ==> kernel_to_v4(k).lock_height == 0 && kernel_to_v4(k).fee == 0,
{
}

/// So does a token kernel.
pub proof fn token_kernel_agrees_with_its_v4(k: TokenTxKernel, k4: TokenTxKernelV4)
    ensures
        token_kernel_agrees(k, token_kernel_to_v4(k)),
        token_kernel_agrees(token_kernel_from_v4(k4), k4),
        !(k.features is HeightLockedToken) ==> token_kernel_to_v4(k).lock_height == 0,
{
}

/// A coinbase has its output, its kernel and its key id in version 4.
pub proof fn coinbase_agrees_with_its_v4(cb: CbData)
    ensures
        coinbase_to_v4(cb).key_id == cb.key_id,
        coinbase_to_v4(cb).output.features == cb.output.features,
        coinbase_to_v4(cb).output.commit == cb.output.commit,
        coinbase_to_v4(cb).output.proof == cb.output.proof,
        kernel_agrees(cb.kernel, coinbase_to_v4(cb).kernel),
{
}

// Versions

/// The version of a serialized slate is the one in its version info; without that
/// it is 1 where there is a bare number, whatever the number, and 0 otherwise.
pub proof fn version_is_found(probe: SlateVersionProbe)
    ensures
        probe.version_info matches Some(info) ==> probed_version(probe) == info.version,
        probe.version_info is None && probe.version is Some ==> probed_version(probe) == 1,
        probe.version_info is None && probe.version is None ==> probed_version(probe) == 0,
        version_outcome(Some(probe)) == Ok::<u16, ErrorView>(probed_version(probe)),
        version_outcome(None) == Err::<u16, ErrorView>(ErrorView::SlateVersionParse),
{
}

/// Version 4 has its format and version 3 has its format; any other version is
/// refused by its number, and so is a slate without a version.
pub proof fn format_follows_version(version: u16, probe: SlateVersionProbe)
    ensures
        format_of(4) == Ok::<SlateFormat, ErrorView>(SlateFormat::V4),
        format_of(3) == Ok::<SlateFormat, ErrorView>(SlateFormat::V3),
        version != 3 && version != 4 ==> format_of(version) == Err::<SlateFormat, ErrorView>(
            ErrorView::SlateVersion(version),
        ),
        format_outcome(None) == Err::<SlateFormat, ErrorView>(ErrorView::SlateVersionParse),
        format_outcome(Some(probe)) == format_of(probed_version(probe)),
{
}

/// A slate that is read is the one that its reader gave, by every field; and where
/// the reader gave none, that is the error.
pub proof fn slate_is_read_as_it_is<P, A, B>(
    slate_json: &str,
    probe: P,
    read_v4: A,
    read_v3: B,
    r: Result<SlateView, ErrorView>,
) where
    P: FnOnce(&str) -> Option<SlateVersionProbe>,
    A: FnOnce(&str) -> Option<SlateV4>,
    B: FnOnce(&str) -> Option<SlateV4>,

    requires
        slate_read(slate_json, probe, read_v4, read_v3, r),
    ensures
        exists|found: Option<SlateVersionProbe>|
            {
                &&& #[trigger] probe.ensures((slate_json,), found)
                &&& found is None ==> r == Err::<SlateView, ErrorView>(ErrorView::SlateVersionParse)
                &&& found matches Some(p) ==> {
                    let v = probed_version(p);
                    &&& v != 3 && v != 4 ==> r == Err::<SlateView, ErrorView>(
                        ErrorView::SlateVersion(v),
                    )
                    &&& v == 4 ==> exists|read: Option<SlateV4>|
                        #[trigger] read_v4.ensures((slate_json,), read) && read_gives(read, r)
                    &&& v == 3 ==> exists|read: Option<SlateV4>|
                        #[trigger] read_v3.ensures((slate_json,), read) && read_gives(read, r)
                }
            },
{
    let found = choose|found: Option<SlateVersionProbe>|
        {
            &&& #[trigger] probe.ensures((slate_json,), found)
            &&& match format_outcome(found) {
                Err(e) => r == Err::<SlateView, ErrorView>(e),
                Ok(SlateFormat::V4) => exists|read: Option<SlateV4>| #[trigger]
                    read_v4.ensures((slate_json,), read) && r == upgrade_outcome(read),
                Ok(SlateFormat::V3) => exists|read: Option<SlateV4>| #[trigger]
                    read_v3.ensures((slate_json,), read) && r == upgrade_outcome(read),
            }
        };
    assert(probe.ensures((slate_json,), found));
    assert forall|read: Option<SlateV4>| r == upgrade_outcome(read) implies read_gives(read, r) by {
        if let Some(v4) = read {
            v4_agrees_with_its_slate(v4@);
        }
    }
}

/// Whether `r` is a slate that agrees with the one that was read, or the error that
/// there was none to read.
pub open spec fn read_gives(read: Option<SlateV4>, r: Result<SlateView, ErrorView>) -> bool {
    &&& read is None ==> r == Err::<SlateView, ErrorView>(ErrorView::SlateDeser)
    &&& read matches Some(v4) ==> (r matches Ok(s) && slate_agrees(s, v4@))
}

/// What is handed to the writer agrees with the slate, field by field.
pub proof fn slate_is_written_as_it_is<W, T, E>(s: SlateView, write: W, r: Result<T, E>) where
    W: FnOnce(&SlateV4) -> Result<T, E>,

    requires
        slate_written(s, write, r),
    ensures
        exists|v4: &SlateV4| slate_agrees(s, v4@) && #[trigger] write.ensures((v4,), r),
{
    slate_agrees_with_its_v4(s);
}

/// A slate goes to the writer of the version that it came in, and agrees with what that is
/// handed; in a version that has none, the error names the version.
pub proof fn slate_is_written_in_its_version<A, B, C, T, E>(
    s: SlateView,
    write_v4: A,
    write_v3: B,
    custom: C,
    r: Result<T, E>,
) where
    A: FnOnce(&SlateV4) -> Result<T, E>,
    B: FnOnce(&SlateV4) -> Result<T, E>,
    C: FnOnce(String) -> E,

    requires
        slate_serialized(s, write_v4, write_v3, custom, r),
    ensures
        s.version_info.orig_version == 4 ==> exists|v4: &SlateV4|
            slate_agrees(s, v4@) && #[trigger] write_v4.ensures((v4,), r),
        s.version_info.orig_version == 3 ==> exists|v4: &SlateV4|
            slate_agrees(s, v4@) && #[trigger] write_v3.ensures((v4,), r),
        s.version_info.orig_version != 3 && s.version_info.orig_version != 4 ==> exists|
            text: String,
            e: E,
        |
            r == Err::<T, E>(e) && text@ == "Unknown slate version "@ + decimal_text(
                s.version_info.orig_version as nat,
            ) && #[trigger] custom.ensures((text,), e),
{
    slate_agrees_with_its_v4(s);
}

// Results

/// A result is shown as it is: a success by its value, and an error by its own kind and text.
pub proof fn results_are_shown_as_they_are(
    done: Result<(), Error>,
    msg: Result<Message, Error>,
    commit: Result<Commitment, Error>,
    key: Result<PublicKey, Error>,
    both: Result<(Commitment, PublicKey), Error>,
    sig: Result<Signature, Error>,
    slate: Result<Slate, Error>,
)
    ensures
        done is Ok <==> outcome(done) is Ok,
        done matches Err(e) ==> outcome(done) == Err::<(), ErrorView>(e@),
        msg matches Ok(v) ==> message_outcome(msg) == Ok::<Seq<u8>, ErrorView>(v@),
        msg matches Err(e) ==> message_outcome(msg) == Err::<Seq<u8>, ErrorView>(e@),
        commit matches Ok(v) ==> excess_view(commit) == Ok::<Seq<u8>, ErrorView>(v@),
        commit matches Err(e) ==> excess_view(commit) == Err::<Seq<u8>, ErrorView>(e@),
        key matches Ok(v) ==> key_outcome(key) == Ok::<Seq<u8>, ErrorView>(v@),
        key matches Err(e) ==> key_outcome(key) == Err::<Seq<u8>, ErrorView>(e@),
        both matches Ok(v) ==> issue_excess_view(both) == Ok::<(Seq<u8>, Seq<u8>), ErrorView>(
            (v.0@, v.1@),
        ),
        both matches Err(e) ==> issue_excess_view(both) == Err::<(Seq<u8>, Seq<u8>), ErrorView>(
            e@,
        ),
        sig matches Ok(v) ==> signature_view(sig) == Ok::<Seq<u8>, ErrorView>(v@),
        sig matches Err(e) ==> signature_view(sig) == Err::<Seq<u8>, ErrorView>(e@),
        slate matches Ok(v) ==> slate_outcome(slate) == Ok::<SlateView, ErrorView>(v@),
        slate matches Err(e) ==> slate_outcome(slate) == Err::<SlateView, ErrorView>(e@),
{
}

/// The view of an error is of the same kind, and has the same number or text.
pub proof fn error_view_is_of_its_kind(e: Error)
    ensures
        e is SlateTransactionRequired <==> e@ is SlateTransactionRequired,
        e is SlateVersionParse <==> e@ is SlateVersionParse,
        e is SlateDeser <==> e@ is SlateDeser,
        e matches Error::SlateVersion(v) ==> e@ == ErrorView::SlateVersion(v),
        e matches Error::Fee(t) ==> e@ == ErrorView::Fee(t@),
        e matches Error::Signature(t) ==> e@ == ErrorView::Signature(t@),
        e matches Error::Secp(t) ==> e@ == ErrorView::Secp(t@),
        e matches Error::LibTx(t) ==> e@ == ErrorView::LibTx(t@),
        e matches Error::Keychain(t) ==> e@ == ErrorView::Keychain(t@),
        e matches Error::Committed(t) ==> e@ == ErrorView::Committed(t@),
        e matches Error::Transaction(t) ==> e@ == ErrorView::Transaction(t@),
        e matches Error::Token(t) ==> e@ == ErrorView::Token(t@),
{
}

// Participants and new slates

/// A participant is found if and only if one has the id, and then it is the first of them.
pub proof fn first_participant_is_found(
    parts: Seq<ParticipantData>,
    id: usize,
    found: Option<ParticipantData>,
)
    requires
        participant_found(parts, id, found),
    ensures
        found is Some <==> exists|i: int|
            0 <= i < parts.len() && (#[trigger] parts[i]).id as usize == id,
        forall|i: int|
            0 <= i < parts.len() && (#[trigger] parts[i]).id as usize == id && (forall|j: int|
                0 <= j < i ==> (#[trigger] parts[j]).id as usize != id) ==> found == Some(parts[i]),
{
}

/// The messages are those of all participants, each in its place.
pub proof fn messages_are_of_everybody(
    parts: Seq<ParticipantData>,
    messages: Seq<ParticipantMessageData>,
)
    requires
        messages_listed(parts, messages),
    ensures
        messages.len() == parts.len(),
        forall|i: int|
            0 <= i < parts.len() ==> {
                &&& (#[trigger] messages[i]).id == parts[i].id
                &&& messages[i].public_key == parts[i].public_blind_excess
                &&& messages[i].message == parts[i].message
                &&& messages[i].message_sig == parts[i].message_sig
            },
{
}

/// The message data of a participant are its id, its public blinding factor, its
/// message and the message's signature.
pub proof fn message_data_has_all_fields(p: ParticipantData)
    ensures
        message_data(p).id == p.id,
        message_data(p).public_key == p.public_blind_excess,
        message_data(p).message == p.message,
        message_data(p).message_sig == p.message_sig,
{
}

/// A new slate is empty, for the given number of participants, and in version 4.
pub proof fn blank_slate_is_empty(s: SlateView, num_participants: usize)
    requires
        is_blank(s, num_participants),
    ensures
        s.num_participants == num_participants,
        s.version_info.version == 4 && s.version_info.orig_version == 4,
        s.version_info.block_header_version == 3,
        s.amount == 0 && s.fee == 0 && s.height == 0 && s.lock_height == 0,
        s.token_type is None && s.ttl_cutoff_height is None && s.payment_proof is None,
        s.participant_data.len() == 0,
        s.tx matches Some(tx) && tx.body.inputs.len() == 0 && tx.body.token_inputs.len() == 0
            && tx.body.outputs.len() == 0 && tx.body.token_outputs.len() == 0
            && tx.body.kernels.len() == 0 && tx.body.token_kernels.len() == 0
            && tx.offset@.len() == 32 && (forall|i: int| 0 <= i < 32 ==> tx.offset@[i] == 0),
{
}

/// Whoever is shown as the sender has the id 0, and whoever is not is shown as the
/// recipient; the text then names the id, the key, the message and its signature.
pub proof fn message_text_names_everything(m: ParticipantMessageData)
    ensures
        m.text() =~= "\nParticipant ID "@ + decimal_text(m.id as nat) + (if m.id == 0 {
            " (Sender)\n---------------------\nPublic Key: "@
        } else {
            " (Recipient)\n---------------------\nPublic Key: "@
        }) + crate::curve::hex_text(m.public_key@) + "\nMessage: "@ + (if m.message is Some {
            m.message.unwrap()@
        } else {
            "None"@
        }) + "\nMessage Signature: "@ + (if m.message_sig is Some {
            crate::curve::hex_text(m.message_sig.unwrap()@)
        } else {
            "None"@
        }) + "\n"@,
{
    reveal_strlit(" (Sender)\n");
    reveal_strlit(" (Recipient)\n");
    reveal_strlit("---------------------\nPublic Key: ");
    reveal_strlit(" (Sender)\n---------------------\nPublic Key: ");
    reveal_strlit(" (Recipient)\n---------------------\nPublic Key: ");
    assert(" (Sender)\n---------------------\nPublic Key: "@ =~= " (Sender)\n"@
        + "---------------------\nPublic Key: "@);
    assert(" (Recipient)\n---------------------\nPublic Key: "@ =~= " (Recipient)\n"@
        + "---------------------\nPublic Key: "@);
}

/// The number that a decimal text spells.
pub open spec fn decimal_value(text: Seq<char>) -> nat
    decreases text.len(),
{
    if text.len() == 0 {
        0
    } else {
        10 * decimal_value(text.drop_last()) + (text.last() as nat - '0' as nat) as nat
    }
}

/// A number in decimal spells the number, in digits, and without a leading zero.
pub proof fn decimal_text_spells_number(n: nat)
    ensures
        decimal_value(decimal_text(n)) == n,
        decimal_text(n).len() > 0,
        forall|i: int|
            0 <= i < decimal_text(n).len() ==> '0' <= #[trigger]
                decimal_text(n)[i] <= '9',
        n > 0 ==> decimal_text(n)[0] != '0',
    decreases n,
{
    reveal_strlit("0123456789");
    let text = decimal_text(n);
    if n < 10 {
        assert(text.drop_last() =~= seq![]);
        assert(decimal_value(text.drop_last()) == 0);
    } else {
        decimal_text_spells_number(n / 10);
        assert(text.drop_last() =~= decimal_text(n / 10));
    }
}

} // verus!
