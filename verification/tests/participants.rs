use grin_core::libtx::aggsig;
use grin_keychain::{ExtKeychain, Keychain};
use grin_util::secp;
use slate::rounds::message_verdict;
use slate::{Error, ParticipantData, ParticipantMessageData, PublicKey, SecretKey, Signature, Slate};

fn keychain() -> ExtKeychain {
    ExtKeychain::from_seed(&[7; 32], false).unwrap()
}

fn secret(k: &ExtKeychain, byte: u8) -> SecretKey {
    SecretKey::from_slice(k, &[byte; 32]).unwrap()
}

fn public(k: &ExtKeychain, byte: u8) -> PublicKey {
    let key = secp::PublicKey::from_secret_key(k.secp(), &secp::SecretKey([byte; 32])).unwrap();
    PublicKey::from_slice(k, &key.serialize_vec(k.secp(), true)).unwrap()
}

fn participant(k: &ExtKeychain, id: u64) -> ParticipantData {
    ParticipantData {
        id,
        public_blind_excess: public(k, 5),
        public_nonce: public(k, 6),
        part_sig: None,
        message: None,
        message_sig: None,
    }
}

/// A slate that went through the first round of one participant.
fn with_message(k: &ExtKeychain, message: Option<&str>) -> Slate {
    let mut slate = Slate::blank(2);
    let mut key = secret(k, 2);
    slate
        .fill_round_1(
            k,
            &mut key,
            &secret(k, 3),
            &secret(k, 4),
            0,
            message.map(|m| m.to_string()),
            true,
        )
        .unwrap();
    slate
}

#[test]
fn complete_with_a_part_sig() {
    let k = keychain();
    let mut p = participant(&k, 0);
    assert!(!p.is_complete());
    p.part_sig = Some(Signature { bytes: [9; 64] });
    assert!(p.is_complete());
    assert!(p.clone().is_complete());
}

#[test]
fn message_data_is_extracted() {
    let k = keychain();
    let mut p = participant(&k, 3);
    p.message = Some("hi".to_string());
    p.message_sig = Some(Signature { bytes: [8; 64] });
    let m = ParticipantMessageData::from_participant_data(&p);
    assert_eq!(m.id, 3);
    assert_eq!(m.public_key.to_bytes(), p.public_blind_excess.to_bytes());
    assert_eq!(m.message.as_deref(), Some("hi"));
    assert_eq!(m.message_sig.unwrap().bytes, [8; 64]);
}

#[test]
fn message_data_is_written_out() {
    let k = keychain();
    let mut p = participant(&k, 0);
    // the generator of the group
    let one = secp::SecretKey::from_slice(k.secp(), &[&[0u8; 31][..], &[1u8][..]].concat()).unwrap();
    let point = secp::PublicKey::from_secret_key(k.secp(), &one).unwrap();
    p.public_blind_excess = PublicKey::from_slice(&k, &point.serialize_vec(k.secp(), true)).unwrap();
    let generator = "0279be667ef9dcbbac55a06295ce870b07029bfcdb2dce28d959f2815b16f81798";
    assert_eq!(
        ParticipantMessageData::from_participant_data(&p).to_text(),
        format!(
            "\nParticipant ID 0 (Sender)\n---------------------\nPublic Key: {}\nMessage: None\nMessage Signature: None\n",
            generator
        )
    );
    p.id = 1230;
    p.message = Some("hello".to_string());
    p.message_sig = Some(Signature { bytes: [0xA5; 64] });
    assert_eq!(
        ParticipantMessageData::from_participant_data(&p).to_text(),
        format!(
            "\nParticipant ID 1230 (Recipient)\n---------------------\nPublic Key: {}\nMessage: hello\nMessage Signature: {}\n",
            generator,
            "a5".repeat(64)
        )
    );
}

#[test]
fn first_participant_with_an_id_is_found() {
    let k = keychain();
    let mut slate = Slate::blank(3);
    let mut second = participant(&k, 1);
    second.message = Some("first of two".to_string());
    slate.participant_data = vec![participant(&k, 0), second, participant(&k, 1)];
    assert_eq!(slate.participant_with_id(0).unwrap().id, 0);
    assert_eq!(
        slate.participant_with_id(1).unwrap().message.as_deref(),
        Some("first of two")
    );
    assert!(slate.participant_with_id(2).is_none());
    assert!(Slate::blank(2).participant_with_id(0).is_none());
}

#[test]
fn messages_keep_the_order_of_participants() {
    let k = keychain();
    let mut slate = Slate::blank(2);
    let mut second = participant(&k, 4);
    second.message = Some("m".to_string());
    slate.participant_data = vec![participant(&k, 9), second];
    let all = slate.participant_messages();
    let ids: Vec<u64> = all.messages.iter().map(|m| m.id).collect();
    assert_eq!(ids, vec![9, 4]);
    assert_eq!(all.messages[0].message, None);
    assert_eq!(all.clone().messages[1].message.as_deref(), Some("m"));
    assert!(Slate::blank(1).participant_messages().messages.is_empty());
}

#[test]
fn signed_message_is_accepted() {
    let k = keychain();
    assert!(Slate::blank(2).verify_messages().is_ok());
    assert!(with_message(&k, None).verify_messages().is_ok());
    assert!(with_message(&k, Some("")).verify_messages().is_ok());
    assert!(with_message(&k, Some("a message, \u{e4}\u{20ac}")).verify_messages().is_ok());
}

#[test]
fn message_is_signed_with_the_test_nonce() {
    let k = keychain();
    let slate = with_message(&k, Some("a message"));
    let p = &slate.participant_data[0];
    // what is left of the key after the offset was split off signs
    let offset = secp::SecretKey(slate.tx_or_err().unwrap().offset.bytes);
    let left = k
        .secp()
        .blind_sum(vec![secp::SecretKey([2; 32])], vec![offset])
        .unwrap();
    let key = secp::PublicKey::from_secret_key(k.secp(), &left).unwrap();
    assert_eq!(p.public_blind_excess.to_bytes()[..], key.serialize_vec(k.secp(), true)[..]);
    let hash = blake2_rfc::blake2b::blake2b(32, &[], b"a message");
    let msg = secp::Message::from_slice(hash.as_bytes()).unwrap();
    let nonce = secp::SecretKey([1; 32]);
    let sig = aggsig::sign_single(k.secp(), &msg, &left, Some(&nonce), Some(&key)).unwrap();
    assert_eq!(p.message_sig.unwrap().bytes[..], sig.to_raw_data()[..]);
    assert_eq!(p.public_nonce.to_bytes(), public(&k, 4).to_bytes());
    assert!(p.part_sig.is_none());
}

#[test]
fn changed_message_is_refused() {
    let k = keychain();
    let mut slate = with_message(&k, Some("a message"));
    slate.participant_data[0].message = Some("another message".to_string());
    match slate.verify_messages() {
        Err(Error::Signature(text)) => {
            assert_eq!(text, "Optional participant messages do not match signatures")
        }
        _ => panic!("accepted"),
    }
}

#[test]
fn unsigned_message_is_refused() {
    let k = keychain();
    let mut slate = with_message(&k, Some("a message"));
    slate.participant_data[0].message_sig = None;
    match slate.verify_messages() {
        Err(Error::Signature(text)) => {
            assert_eq!(text, "Optional participant messages doesn't have signature")
        }
        _ => panic!("accepted"),
    }
    // a signature without a message is not looked at
    let mut slate = with_message(&k, Some("a message"));
    slate.participant_data[0].message = None;
    assert!(slate.verify_messages().is_ok());
}

#[test]
fn first_fault_is_reported() {
    let k = keychain();
    let mut slate = with_message(&k, Some("one"));
    slate
        .fill_round_1(
            &k,
            &mut secret(&k, 8),
            &secret(&k, 3),
            &secret(&k, 9),
            1,
            Some("two".to_string()),
            false,
        )
        .unwrap();
    assert!(slate.verify_messages().is_ok());
    slate.participant_data[0].message_sig = None;
    slate.participant_data[1].message = Some("three".to_string());
    match slate.verify_messages() {
        Err(Error::Signature(text)) => {
            assert_eq!(text, "Optional participant messages doesn't have signature")
        }
        _ => panic!("accepted"),
    }
}

#[test]
fn verdict_on_a_message() {
    let k = keychain();
    let mut p = participant(&k, 0);
    assert!(message_verdict(&p, false).is_ok());
    p.message = Some("m".to_string());
    assert!(message_verdict(&p, true).is_err());
    p.message_sig = Some(Signature { bytes: [0; 64] });
    assert!(message_verdict(&p, true).is_ok());
    assert!(message_verdict(&p, false).is_err());
}

#[test]
fn secret_keys_are_in_range() {
    let k = keychain();
    assert_eq!(secret(&k, 3).to_bytes(), [3; 32]);
    for bytes in [vec![0u8; 32], vec![0xFF; 32], vec![1; 31], vec![1; 33]] {
        match SecretKey::from_slice(&k, &bytes) {
            Err(text) => assert_eq!(text, "InvalidSecretKey"),
            Ok(_) => panic!("accepted"),
        }
    }
}

#[test]
fn public_keys_are_points() {
    let k = keychain();
    let key = public(&k, 5);
    let again = PublicKey::from_slice(&k, &key.to_bytes()).unwrap();
    assert_eq!(again.to_bytes(), key.to_bytes());
    let point = secp::PublicKey::from_secret_key(k.secp(), &secp::SecretKey([5; 32])).unwrap();
    let long = PublicKey::from_slice(&k, &point.serialize_vec(k.secp(), false)).unwrap();
    assert_eq!(long.to_bytes(), key.to_bytes());
    match PublicKey::from_slice(&k, &[0; 33]) {
        Err(text) => assert_eq!(text, "InvalidPublicKey"),
        Ok(_) => panic!("accepted"),
    }
}
