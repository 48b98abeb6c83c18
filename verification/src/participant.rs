//! What each participant adds to a slate.
use crate::curve::{hex_text, to_hex};
use crate::keys::{PublicKey, Signature};
use crate::text::{decimal, decimal_text};
use vstd::prelude::*;
use vstd::string::*;

verus! {

/// Public data for each participant in the slate.
#[derive(Debug)]
pub struct ParticipantData {
    /// Id of participant in the transaction. (For now, 0=sender, 1=rec)
    pub id: u64,
    /// Public key corresponding to private blinding factor
    pub public_blind_excess: PublicKey,
    /// Public key corresponding to private nonce
    pub public_nonce: PublicKey,
    /// Public partial signature
    pub part_sig: Option<Signature>,
    /// A message for other participants
    pub message: Option<String>,
    /// Signature, created with private key corresponding to 'public_blind_excess'
    pub message_sig: Option<Signature>,
}

impl Clone for ParticipantData {
    fn clone(&self) -> (r: ParticipantData)
        ensures
            r == *self,
    {
        ParticipantData {
            id: self.id,
            public_blind_excess: self.public_blind_excess,
            public_nonce: self.public_nonce,
            part_sig: self.part_sig,
            message: copy_text(&self.message),
            message_sig: self.message_sig,
        }
    }
}

/// A copy of an optional text.
pub(crate) fn copy_text(text: &Option<String>) -> (r: Option<String>)
    ensures
        r == *text,
{
    match text {
        Some(t) => Some(t.clone()),
        None => None,
    }
}

impl ParticipantData {
    /// Whether this participant has completed round 1 and round 2.
    ///
    /// Round 1 has to be completed before there is a value of this type: the
    /// participant has added inputs and outputs to the transaction, and chosen
    /// and added a public nonce and a public contribution to the blinding factor.
    /// Round 2 can only be completed after all participants have performed
    /// round 1, and fills in the partial signature.
    pub fn is_complete(&self) -> (r: bool)
        ensures
            r == (self.part_sig is Some),
    {
        self.part_sig.is_some()
    }
}

/// Public message data (for serialising and storage).
#[derive(Debug)]
pub struct ParticipantMessageData {
    /// id of the participant in the tx
    pub id: u64,
    /// Public key
    pub public_key: PublicKey,
    /// Message
    pub message: Option<String>,
    /// Signature
    pub message_sig: Option<Signature>,
}

impl Clone for ParticipantMessageData {
    fn clone(&self) -> (r: ParticipantMessageData)
        ensures
            r == *self,
    {
        ParticipantMessageData {
            id: self.id,
            public_key: self.public_key,
            message: copy_text(&self.message),
            message_sig: self.message_sig,
        }
    }
}

/// The message data of a participant: who it is, and the signed message.
pub open spec fn message_data(p: ParticipantData) -> ParticipantMessageData {
    ParticipantMessageData {
        id: p.id,
        public_key: p.public_blind_excess,
        message: p.message,
        message_sig: p.message_sig,
    }
}

impl ParticipantMessageData {
    /// Extracts the message data from participant data.
    pub fn from_participant_data(p: &ParticipantData) -> (r: ParticipantMessageData)
        ensures
            r == message_data(*p),
    {
        ParticipantMessageData {
            id: p.id,
            public_key: p.public_blind_excess,
            message: copy_text(&p.message),
            message_sig: p.message_sig,
        }
    }

    /// The message data as the wallet shows it.
    pub open spec fn text(self) -> Seq<char> {
        "\nParticipant ID "@ + decimal_text(self.id as nat) + (if self.id == 0 {
            " (Sender)\n"@
        } else {
            " (Recipient)\n"@
        }) + "---------------------\nPublic Key: "@ + hex_text(self.public_key@) + "\nMessage: "@ + (
        match self.message {
            Some(m) => m@,
            None => "None"@,
        }) + "\nMessage Signature: "@ + (match self.message_sig {
            Some(sig) => hex_text(sig@),
            None => "None"@,
        }) + "\n"@
    }

    /// Writes the message data out for the user.
    pub fn to_text(&self) -> (r: String)
        ensures
            r@ == self.text(),
    {
        let mut text = String::from_str("\nParticipant ID ");
        text.append(decimal(self.id).as_str());
        if self.id == 0 {
            text.append(" (Sender)\n");
        } else {
            text.append(" (Recipient)\n");
        }
        text.append("---------------------\nPublic Key: ");
        text.append(to_hex(&self.public_key.to_bytes()).as_str());
        text.append("\nMessage: ");
        match &self.message {
            Some(m) => text.append(m.as_str()),
            None => text.append("None"),
        }
        text.append("\nMessage Signature: ");
        match &self.message_sig {
            Some(sig) => text.append(to_hex(&sig.bytes).as_str()),
            None => text.append("None"),
        }
        text.append("\n");
        text
    }
}

/// The messages of all participants.
#[derive(Debug)]
pub struct ParticipantMessages {
    /// included messages
    pub messages: Vec<ParticipantMessageData>,
}

impl Clone for ParticipantMessages {
    fn clone(&self) -> (r: ParticipantMessages)
        ensures
            r.messages@ == self.messages@,
    {
        let mut messages: Vec<ParticipantMessageData> = Vec::new();
        for i in 0..self.messages.len()
            invariant
                messages@.len() == i,
                forall|j: int| 0 <= j < i ==> messages@[j] == #[trigger] self.messages@[j],
        {
            messages.push(self.messages[i].clone());
        }
        assert(messages@ =~= self.messages@);
        ParticipantMessages { messages }
    }
}

} // verus!
