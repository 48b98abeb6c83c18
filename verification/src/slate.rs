//! The slate, and how it is read and written.
use crate::curve::new_id;
use crate::error::{outcome, Error, ErrorView};
use crate::keys::zero_blind;
use crate::participant::{
    copy_text, message_data, ParticipantData, ParticipantMessageData, ParticipantMessages,
};
use crate::text::{decimal, decimal_text};
use crate::transaction::{BodyView, Transaction, TransactionView};
use crate::v4::SlateV4;
use crate::version::{
    format_of, probed_version, SlateFormat, SlateVersionProbe, VersionCompatInfo,
    CURRENT_SLATE_VERSION, GRIN_BLOCK_HEADER_VERSION,
};
use ed25519_dalek::PublicKey as DalekPublicKey;
use ed25519_dalek::Signature as DalekSignature;
use uuid::Uuid;
use vstd::prelude::*;
use vstd::string::*;

verus! {

/// The proof that the receiver owes the sender for a payment.
#[derive(Clone, Copy, Debug)]
pub struct PaymentInfo {
    pub sender_address: DalekPublicKey,
    pub receiver_address: DalekPublicKey,
    pub receiver_signature: Option<DalekSignature>,
}

/// A 'Slate' is passed around to all parties to build up all of the public
/// transaction data needed to create a finalized transaction. Callers can pass
/// the slate around by whatever means they choose.
#[derive(Debug)]
pub struct Slate {
    /// Versioning info
    pub version_info: VersionCompatInfo,
    /// The number of participants intended to take part in this transaction
    pub num_participants: usize,
    /// Unique transaction ID, selected by sender
    pub id: Uuid,
    /// The core transaction data: inputs, outputs, kernels, kernel offset.
    /// Optional to allow for a compact transaction initiation
    pub tx: Option<Transaction>,
    /// base amount (excluding fee)
    pub amount: u64,
    /// tx token type
    pub token_type: Option<String>,
    /// fee amount
    pub fee: u64,
    /// Block height for the transaction
    pub height: u64,
    /// Lock height
    pub lock_height: u64,
    /// TTL, the block height at which wallets should refuse to process the
    /// transaction and unlock all associated outputs
    pub ttl_cutoff_height: Option<u64>,
    /// Participant data, each participant in the transaction will insert their
    /// public data here. For now, 0 is sender and 1 is receiver, though this will
    /// change for multi-party
    pub participant_data: Vec<ParticipantData>,
    /// Payment Proof
    pub payment_proof: Option<PaymentInfo>,
}

/// A slate with its lists as sequences.
#[verifier::ext_equal]
pub struct SlateView {
    pub version_info: VersionCompatInfo,
    pub num_participants: usize,
    pub id: Uuid,
    pub tx: Option<TransactionView>,
    pub amount: u64,
    pub token_type: Option<String>,
    pub fee: u64,
    pub height: u64,
    pub lock_height: u64,
    pub ttl_cutoff_height: Option<u64>,
    pub participant_data: Seq<ParticipantData>,
    pub payment_proof: Option<PaymentInfo>,
}

impl View for Slate {
    type V = SlateView;

    open spec fn view(&self) -> SlateView {
        SlateView {
            version_info: self.version_info,
            num_participants: self.num_participants,
            id: self.id,
            tx: match self.tx {
                Some(tx) => Some(tx@),
                None => None,
            },
            amount: self.amount,
            token_type: self.token_type,
            fee: self.fee,
            height: self.height,
            lock_height: self.lock_height,
            ttl_cutoff_height: self.ttl_cutoff_height,
            participant_data: self.participant_data@,
            payment_proof: self.payment_proof,
        }
    }
}


impl Slate {
    /// Returns the transaction, or an error where there is none.
    pub fn tx_or_err(&self) -> (r: Result<&Transaction, Error>)
        ensures
            r matches Ok(t) ==> self.tx == Some(*t),
            r matches Err(e) ==> self.tx is None && e@ == ErrorView::SlateTransactionRequired,
    {
        match &self.tx {
            Some(t) => Ok(t),
            None => Err(Error::SlateTransactionRequired),
        }
    }

    /// As above, but returns a mutable reference.
    pub fn tx_or_err_mut(&mut self) -> (r: Result<&mut Transaction, Error>)
        ensures
            r matches Ok(t) ==> old(self).tx == Some(*t) && *final(self) == (Slate {
                tx: Some(*final(t)),
                ..*old(self)
            }),
            r matches Err(e) ==> old(self).tx is None && *final(self) == *old(self) && e@
                == ErrorView::SlateTransactionRequired,
    {
        match &mut self.tx {
            Some(t) => Ok(t),
            None => Err(Error::SlateTransactionRequired),
        }
    }
}


impl Clone for Slate {
    fn clone(&self) -> (r: Slate)
        ensures
            r@ == self@,
    {
        let mut participant_data: Vec<ParticipantData> = Vec::new();
        for i in 0..self.participant_data.len()
            invariant
                participant_data@.len() == i,
                forall|j: int|
                    0 <= j < i ==> participant_data@[j] == #[trigger] self.participant_data@[j],
        {
            participant_data.push(self.participant_data[i].clone());
        }
        let tx = match &self.tx {
            Some(t) => Some(t.clone()),
            None => None,
        };
        let r = Slate {
            version_info: self.version_info,
            num_participants: self.num_participants,
            id: self.id,
            tx,
            amount: self.amount,
            token_type: copy_text(&self.token_type),
            fee: self.fee,
            height: self.height,
            lock_height: self.lock_height,
            ttl_cutoff_height: self.ttl_cutoff_height,
            participant_data,
            payment_proof: self.payment_proof,
        };
        assert(r@ =~= self@);
        r
    }
}

/// Whether a slate is a new one for a number of participants: nothing is in it
/// but its id and the versions.
pub open spec fn is_blank(s: SlateView, num_participants: usize) -> bool {
    &&& s.version_info == VersionCompatInfo {
        version: CURRENT_SLATE_VERSION,
        orig_version: CURRENT_SLATE_VERSION,
        block_header_version: GRIN_BLOCK_HEADER_VERSION,
    }
    &&& s.num_participants == num_participants
    &&& s.tx matches Some(tx)
    &&& tx.offset@ == zero_blind()
    &&& tx.body == BodyView::empty()
    &&& s.amount == 0
    &&& s.token_type is None
    &&& s.fee == 0
    &&& s.height == 0
    &&& s.lock_height == 0
    &&& s.ttl_cutoff_height is None
    &&& s.participant_data == Seq::<ParticipantData>::empty()
    &&& s.payment_proof is None
}

/// Whether `found` is the first participant with the given id, or nobody where nobody
/// has it.
pub open spec fn participant_found(
    parts: Seq<ParticipantData>,
    id: usize,
    found: Option<ParticipantData>,
) -> bool {
    match found {
        Some(p) => exists|i: int|
            {
                &&& 0 <= i < parts.len()
                &&& p == #[trigger] parts[i]
                &&& p.id as usize == id
                &&& forall|j: int| 0 <= j < i ==> (#[trigger] parts[j]).id as usize != id
            },
        None => forall|j: int| 0 <= j < parts.len() ==> (#[trigger] parts[j]).id as usize != id,
    }
}

/// Whether `messages` are the message data of the participants, in their order.
pub open spec fn messages_listed(
    parts: Seq<ParticipantData>,
    messages: Seq<ParticipantMessageData>,
) -> bool {
    messages == parts.map_values(|p: ParticipantData| message_data(p))
}

/// The payment proof of a serialized slate that does not mention one.
pub fn default_payment_none() -> (r: Option<PaymentInfo>)
    ensures
        r is None,
{
    None
}

impl Slate {
    /// Creates a new slate, with a random id.
    pub fn blank(num_participants: usize) -> (r: Slate)
        ensures
            is_blank(r@, num_participants),
    {
        Slate {
            num_participants,
            id: new_id(),
            tx: Some(Transaction::empty()),
            amount: 0,
            token_type: None,
            fee: 0,
            height: 0,
            lock_height: 0,
            ttl_cutoff_height: None,
            participant_data: Vec::new(),
            version_info: VersionCompatInfo {
                version: CURRENT_SLATE_VERSION,
                orig_version: CURRENT_SLATE_VERSION,
                block_header_version: GRIN_BLOCK_HEADER_VERSION,
            },
            payment_proof: None,
        }
    }

    /// Returns the participant with the given id: the first one, where several
    /// have it.
    pub fn participant_with_id(&self, id: usize) -> (r: Option<ParticipantData>)
        ensures
            participant_found(self@.participant_data, id, r),
    {
        let parts = &self.participant_data;
        let mut i: usize = 0;
        while i < parts.len()
            invariant
                i <= parts@.len(),
                parts@ == self@.participant_data,
                forall|j: int| 0 <= j < i ==> (#[trigger] parts@[j]).id as usize != id,
            decreases parts@.len() - i,
        {
            if parts[i].id as usize == id {
                let p = parts[i].clone();
                assert(p == self@.participant_data[i as int]);
                return Some(p);
            }
            i = i + 1;
        }
        None
    }

    /// Helper to return all participant messages.
    pub fn participant_messages(&self) -> (r: ParticipantMessages)
        ensures
            messages_listed(self@.participant_data, r.messages@),
    {
        let parts = &self.participant_data;
        let mut messages: Vec<ParticipantMessageData> = Vec::new();
        for i in 0..parts.len()
            invariant
                messages@.len() == i,
                parts@ == self@.participant_data,
                forall|j: int| 0 <= j < i ==> messages@[j] == message_data(#[trigger] parts@[j]),
        {
            messages.push(ParticipantMessageData::from_participant_data(&parts[i]));
        }
        assert(messages@ =~= parts@.map_values(|p: ParticipantData| message_data(p)));
        ParticipantMessages { messages }
    }
}

// Reading and writing. What turns text into values and values into text is handed
// in as functions; here it is decided which of them is to be used.

/// The version of a serialized slate, by what was found of it.
pub open spec fn version_outcome(probe: Option<SlateVersionProbe>) -> Result<u16, ErrorView> {
    match probe {
        Some(p) => Ok(probed_version(p)),
        None => Err(ErrorView::SlateVersionParse),
    }
}

/// The format of a serialized slate, by what was found of its version.
pub open spec fn format_outcome(probe: Option<SlateVersionProbe>) -> Result<
    SlateFormat,
    ErrorView,
> {
    match version_outcome(probe) {
        Ok(version) => format_of(version),
        Err(e) => Err(e),
    }
}

/// The slate that was read, by what came out of reading it in its format.
pub open spec fn upgrade_outcome(read: Option<SlateV4>) -> Result<SlateView, ErrorView> {
    match read {
        Some(v4) => Ok(v4@.from_v4()),
        None => Err(ErrorView::SlateDeser),
    }
}

/// The text of a version in which a slate cannot be written.
pub open spec fn unknown_version_text(version: u16) -> Seq<char> {
    "Unknown slate version "@ + decimal_text(version as nat)
}

/// What a slate function gave, by its view or by its error.
pub open spec fn slate_outcome(r: Result<Slate, Error>) -> Result<SlateView, ErrorView> {
    match r {
        Ok(slate) => Ok(slate@),
        Err(e) => Err(e@),
    }
}

/// Whether `r` is what came out of reading a slate: its version was found, and it
/// was read in the format of that version.
pub open spec fn slate_read<P, A, B>(
    slate_json: &str,
    probe: P,
    read_v4: A,
    read_v3: B,
    r: Result<SlateView, ErrorView>,
) -> bool where
    P: FnOnce(&str) -> Option<SlateVersionProbe>,
    A: FnOnce(&str) -> Option<SlateV4>,
    B: FnOnce(&str) -> Option<SlateV4>,
 {
    exists|found: Option<SlateVersionProbe>|
        {
            &&& #[trigger] probe.ensures((slate_json,), found)
            &&& match format_outcome(found) {
                Err(e) => r == Err::<SlateView, ErrorView>(e),
                Ok(SlateFormat::V4) => exists|read: Option<SlateV4>| #[trigger]
                    read_v4.ensures((slate_json,), read) && r == upgrade_outcome(read),
                Ok(SlateFormat::V3) => exists|read: Option<SlateV4>| #[trigger]
                    read_v3.ensures((slate_json,), read) && r == upgrade_outcome(read),
            }
        }
}

/// Whether `r` is what came out of writing a slate, by a function that is handed the
/// slate as version 4 has it.
pub open spec fn slate_written<W, T, E>(s: SlateView, write: W, r: Result<T, E>) -> bool where
    W: FnOnce(&SlateV4) -> Result<T, E>,
 {
    exists|v4: &SlateV4| v4@ == s.to_v4() && #[trigger] write.ensures((v4,), r)
}

/// Whether `r` is what came out of writing a slate in the version that it came in: in
/// version 4, in version 3, or the error that the version is unknown.
pub open spec fn slate_serialized<A, B, C, T, E>(
    s: SlateView,
    write_v4: A,
    write_v3: B,
    custom: C,
    r: Result<T, E>,
) -> bool where
    A: FnOnce(&SlateV4) -> Result<T, E>,
    B: FnOnce(&SlateV4) -> Result<T, E>,
    C: FnOnce(String) -> E,
 {
    &&& s.version_info.orig_version == 4 ==> slate_written(s, write_v4, r)
    &&& s.version_info.orig_version == 3 ==> slate_written(s, write_v3, r)
    &&& format_of(s.version_info.orig_version) is Err ==> exists|text: String, e: E|
        r == Err::<T, E>(e) && text@ == unknown_version_text(s.version_info.orig_version)
            && #[trigger] custom.ensures((text,), e)
}

impl Slate {
    /// Attempts to find the slate version, where `probe` reads what tells it.
    pub fn parse_slate_version<P>(slate_json: &str, probe: P) -> (r: Result<u16, Error>) where
        P: FnOnce(&str) -> Option<SlateVersionProbe>,

        requires
            probe.requires((slate_json,)),
        ensures
            exists|found: Option<SlateVersionProbe>| #[trigger]
                probe.ensures((slate_json,), found) && outcome(r) == version_outcome(found),
    {
        match probe(slate_json) {
            Some(found) => Ok(found.version()),
            None => Err(Error::SlateVersionParse),
        }
    }

    /// Receives a slate and upgrades it to the latest version internally. `probe`
    /// reads what tells its version, `read_v4` a slate in version 4, and `read_v3`
    /// one in version 3 as version 4 has it.
    pub fn deserialize_upgrade<P, A, B>(
        slate_json: &str,
        probe: P,
        read_v4: A,
        read_v3: B,
    ) -> (r: Result<Slate, Error>) where
        P: FnOnce(&str) -> Option<SlateVersionProbe>,
        A: FnOnce(&str) -> Option<SlateV4>,
        B: FnOnce(&str) -> Option<SlateV4>,

        requires
            probe.requires((slate_json,)),
            read_v4.requires((slate_json,)),
            read_v3.requires((slate_json,)),
        ensures
            slate_read(slate_json, probe, read_v4, read_v3, slate_outcome(r)),
    {
        let version: u16 = match Slate::parse_slate_version(slate_json, probe) {
            Ok(version) => version,
            Err(e) => return Err(e),
        };
        let read = match SlateFormat::for_version(version) {
            Ok(SlateFormat::V4) => read_v4(slate_json),
            Ok(SlateFormat::V3) => read_v3(slate_json),
            Err(e) => return Err(e),
        };
        match read {
            Some(v4) => Ok(Slate::from(v4)),
            None => Err(Error::SlateDeser),
        }
    }

    /// Writes the slate in the version that it came in. `write_v4` writes a slate
    /// in version 4, `write_v3` one in version 3 after version 4 has been converted
    /// to it, and `custom` makes an error of a text.
    pub fn serialize<T, E, A, B, C>(&self, write_v4: A, write_v3: B, custom: C) -> (r: Result<
        T,
        E,
    >) where
        A: FnOnce(&SlateV4) -> Result<T, E>,
        B: FnOnce(&SlateV4) -> Result<T, E>,
        C: FnOnce(String) -> E,

        requires
            forall|v4: &SlateV4| write_v4.requires((v4,)),
            forall|v4: &SlateV4| write_v3.requires((v4,)),
            forall|text: String| custom.requires((text,)),
        ensures
            slate_serialized(self@, write_v4, write_v3, custom, r),
    {
        let v4 = SlateV4::from(self);
        match SlateFormat::for_version(self.version_info.orig_version) {
            Ok(SlateFormat::V4) => write_v4(&v4),
            Ok(SlateFormat::V3) => write_v3(&v4),
            Err(_) => {
                let mut text = String::from_str("Unknown slate version ");
                text.append(decimal(self.version_info.orig_version as u64).as_str());
                Err(custom(text))
            },
        }
    }
}

} // verus!
