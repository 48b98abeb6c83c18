use grin_keychain::{ExtKeychain, Keychain};
use grin_util::secp;
use grin_util::secp::pedersen::RangeProof;
use slate::transaction::{
    ElementCounts, Input, KernelFeatures, Output, OutputFeatures, TokenInput, TokenKernelFeatures,
    TokenOutput, TokenTxKernel, Transaction,
};
use slate::{
    BlindingFactor, Commitment, Error, Identifier, Message, SecretKey, Signature, Slate, TokenKey,
};

const FEE: u64 = 8;
const KEY: TokenKey = TokenKey { bytes: [0x42; 32] };

fn keychain() -> ExtKeychain {
    ExtKeychain::from_seed(&[7; 32], false).unwrap()
}

fn secret(k: &ExtKeychain, byte: u8) -> SecretKey {
    SecretKey::from_slice(k, &[byte; 32]).unwrap()
}

fn commit(k: &ExtKeychain, value: u64, blind: u8) -> Commitment {
    Commitment {
        bytes: k.secp().commit(value, secp::SecretKey([blind; 32])).unwrap().0,
    }
}

fn input(k: &ExtKeychain, value: u64, blind: u8) -> Input {
    Input {
        features: OutputFeatures { byte: 0 },
        commit: commit(k, value, blind),
    }
}

fn output(k: &ExtKeychain, value: u64, blind: u8) -> Output {
    Output {
        features: OutputFeatures { byte: 0 },
        commit: commit(k, value, blind),
        proof: RangeProof::zero(),
    }
}

fn difference(k: &ExtKeychain, plus: u8, minus: u8) -> SecretKey {
    let sum = k
        .secp()
        .blind_sum(vec![secp::SecretKey([plus; 32])], vec![secp::SecretKey([minus; 32])])
        .unwrap();
    SecretKey::from_slice(k, &sum.0).unwrap()
}

fn no_token(_: &String) -> Result<TokenKey, Error> {
    Err(Error::Token("no token".to_string()))
}

fn the_token(text: &String) -> Result<TokenKey, Error> {
    if text == "42" {
        Ok(KEY)
    } else {
        Err(Error::Token(text.clone()))
    }
}

fn token_msg(features: TokenKernelFeatures, key: TokenKey) -> Result<Message, Error> {
    let lock: u8 = match features {
        TokenKernelFeatures::PlainToken => 0,
        TokenKernelFeatures::IssueToken => 1,
        TokenKernelFeatures::HeightLockedToken { .. } => 2,
    };
    let mut bytes = key.bytes;
    bytes[0] = lock;
    Ok(Message { bytes })
}

fn flat_fee(_: ElementCounts) -> u64 {
    FEE
}

fn accept(_: &Transaction) -> Result<(), Error> {
    Ok(())
}

fn accept_token(_: &TokenTxKernel) -> Result<(), Error> {
    Ok(())
}

/// A slate with 100 of input, 30 for the recipient, the fee, and change, that both
/// participants have added their keys to. Also what is left of the sender's key.
fn after_round_1(k: &ExtKeychain, lock_height: u64) -> (Slate, SecretKey, SecretKey) {
    let mut slate = Slate::blank(2);
    slate.amount = 30;
    slate.fee = FEE;
    slate.lock_height = lock_height;
    let (blind, _) = slate
        .add_transaction_elements(&no_token, |tx: Transaction| {
            let mut tx = tx;
            tx.body.inputs.push(input(k, 100, 11));
            tx.body.outputs.push(output(k, 100 - 30 - FEE, 12));
            let blind = BlindingFactor::from_secret_key(&difference(k, 12, 11));
            Ok((tx, blind, BlindingFactor::zero()))
        })
        .unwrap();
    let mut sender = SecretKey::from_slice(k, &blind.bytes).unwrap();
    slate
        .fill_round_1(
            k,
            &mut sender,
            &secret(k, 99),
            &secret(k, 21),
            0,
            Some("from the sender".to_string()),
            false,
        )
        .unwrap();
    let offset = slate.tx_or_err().unwrap().offset;
    slate
        .add_transaction_elements(&no_token, |tx: Transaction| {
            let mut tx = tx;
            tx.body.outputs.push(output(k, 30, 13));
            Ok((tx, BlindingFactor::zero(), BlindingFactor::zero()))
        })
        .unwrap();
    let mut recipient = secret(k, 13);
    slate
        .fill_round_1(
            k,
            &mut recipient,
            &secret(k, 99),
            &secret(k, 22),
            1,
            Some("from the recipient".to_string()),
            false,
        )
        .unwrap();
    // the recipient found an offset and left it alone
    assert_eq!(slate.tx_or_err().unwrap().offset.bytes, offset.bytes);
    assert_eq!(recipient.to_bytes(), [13; 32]);
    (slate, sender, recipient)
}

fn sign(k: &ExtKeychain, slate: &mut Slate, key: &SecretKey, nonce: u8, id: usize) -> Result<(), Error> {
    slate.fill_round_2(
        k,
        key,
        &secret(k, 99),
        &secret(k, nonce),
        id,
        &flat_fee,
        &no_token,
        &token_msg,
    )
}

fn finalize(k: &ExtKeychain, slate: &mut Slate) -> Result<(), Error> {
    slate
        .try_finalize(k, &flat_fee, &no_token, &token_msg, &accept_token, &accept)
        .unwrap()
}

fn signed(k: &ExtKeychain, lock_height: u64) -> Slate {
    let (mut slate, sender, recipient) = after_round_1(k, lock_height);
    sign(k, &mut slate, &recipient, 22, 1).unwrap();
    sign(k, &mut slate, &sender, 21, 0).unwrap();
    slate
}

#[test]
fn test_offset_is_split_off() {
    let k = keychain();
    let mut slate = Slate::blank(2);
    let mut key = secret(&k, 2);
    slate.generate_offset(&k, &mut key, true).unwrap();
    let mut expected = [0u8; 32];
    for i in 0..4 {
        let word: u64 = 1_234_567_890 + i as u64;
        expected[8 * i..8 * i + 8].copy_from_slice(&word.to_le_bytes());
    }
    let offset = slate.tx_or_err().unwrap().offset;
    assert_eq!(offset.bytes, expected);
    // offset and rest add up to the key
    let sum = k
        .secp()
        .blind_sum(
            vec![secp::SecretKey(offset.bytes), secp::SecretKey(key.to_bytes())],
            vec![],
        )
        .unwrap();
    assert_eq!(sum.0, [2; 32]);
}

#[test]
fn random_offsets_differ() {
    let k = keychain();
    let mut one = Slate::blank(2);
    let mut two = Slate::blank(2);
    one.generate_offset(&k, &mut secret(&k, 2), false).unwrap();
    two.generate_offset(&k, &mut secret(&k, 2), false).unwrap();
    let offset = one.tx_or_err().unwrap().offset;
    assert!(!offset.is_zero());
    assert_ne!(offset.bytes, two.tx_or_err().unwrap().offset.bytes);
}

#[test]
fn offset_that_eats_the_key_is_refused() {
    let k = keychain();
    let mut slate = Slate::blank(2);
    slate.generate_offset(&k, &mut secret(&k, 2), true).unwrap();
    let offset = slate.tx_or_err().unwrap().offset;
    let mut slate = Slate::blank(2);
    let mut key = SecretKey::from_slice(&k, &offset.bytes).unwrap();
    match slate.fill_round_1(&k, &mut key, &secret(&k, 3), &secret(&k, 4), 0, None, true) {
        Err(Error::Keychain(text)) => assert_eq!(text, "Secp(InvalidSecretKey)"),
        _ => panic!("accepted"),
    }
    // the offset stays, the key too, and nobody was added
    assert_eq!(slate.tx_or_err().unwrap().offset.bytes, offset.bytes);
    assert_eq!(key.to_bytes(), offset.bytes);
    assert!(slate.participant_data.is_empty());
}

#[test]
fn rounds_need_a_transaction() {
    let k = keychain();
    let mut slate = Slate::blank(2);
    slate.tx = None;
    let mut key = secret(&k, 2);
    let r = slate.generate_offset(&k, &mut key, true);
    assert!(matches!(r, Err(Error::SlateTransactionRequired)));
    let r = slate.fill_round_1(&k, &mut key, &secret(&k, 3), &secret(&k, 4), 0, None, true);
    assert!(matches!(r, Err(Error::SlateTransactionRequired)));
    assert_eq!(key.to_bytes(), [2; 32]);
    let r = sign(&k, &mut slate, &key, 4, 0);
    assert!(matches!(r, Err(Error::SlateTransactionRequired)));
    assert!(matches!(slate.calc_excess(&k), Err(Error::SlateTransactionRequired)));
    assert!(matches!(slate.update_kernel(), Err(Error::SlateTransactionRequired)));
    assert!(slate.update_token_kernel(&the_token).is_ok());
    slate.token_type = Some("42".to_string());
    assert!(matches!(
        slate.update_token_kernel(&the_token),
        Err(Error::SlateTransactionRequired)
    ));
    assert!(matches!(
        slate.calc_token_excess(&k, &the_token),
        Err(Error::SlateTransactionRequired)
    ));
    let r = slate.add_transaction_elements(&the_token, |_: Transaction| {
        Err(Error::LibTx("unused".to_string()))
    });
    assert!(matches!(r, Err(Error::SlateTransactionRequired)));
    assert!(slate.tx_or_err_mut().is_err());
}

#[test]
fn round_1_adds_one_incomplete_participant() {
    let k = keychain();
    let (slate, _, _) = after_round_1(&k, 0);
    assert_eq!(slate.participant_data.len(), 2);
    assert_eq!(slate.participant_data[0].id, 0);
    assert_eq!(slate.participant_data[1].id, 1);
    assert!(!slate.participant_data[0].is_complete());
    assert!(!slate.participant_data[1].is_complete());
    assert!(slate.verify_messages().is_ok());
}

#[test]
fn round_1_uses_the_token_key_for_tokens() {
    let k = keychain();
    let mut slate = Slate::blank(2);
    slate.token_type = Some("42".to_string());
    slate
        .fill_round_1(&k, &mut secret(&k, 2), &secret(&k, 3), &secret(&k, 4), 0, None, true)
        .unwrap();
    let key = secp::PublicKey::from_secret_key(k.secp(), &secp::SecretKey([3; 32])).unwrap();
    assert_eq!(
        slate.participant_data[0].public_blind_excess.to_bytes()[..],
        key.serialize_vec(k.secp(), true)[..]
    );
}

#[test]
fn honest_participants_finalize() {
    let k = keychain();
    let mut slate = signed(&k, 0);
    assert!(slate.participant_with_id(0).unwrap().is_complete());
    assert!(slate.participant_with_id(1).unwrap().is_complete());
    let excess = slate.calc_excess(&k).unwrap();
    finalize(&k, &mut slate).unwrap();
    let tx = slate.tx_or_err().unwrap();
    assert_eq!(tx.body.kernels.len(), 1);
    assert_eq!(tx.body.kernels[0].excess.bytes, excess.bytes);
    assert_eq!(tx.body.kernels[0].features, KernelFeatures::Plain { fee: FEE });
    assert_ne!(tx.body.kernels[0].excess_sig.bytes[..], [0u8; 64][..]);
    assert_eq!(tx.fee(), FEE);
    assert_eq!(tx.body.outputs.len(), 2);
}

#[test]
fn honest_participants_finalize_with_a_lock_height() {
    let k = keychain();
    for lock_height in [1, 500, u64::MAX] {
        let mut slate = signed(&k, lock_height);
        slate
            .finalize(&k, &flat_fee, &no_token, &token_msg, &accept_token, &accept)
            .unwrap();
        assert_eq!(
            slate.tx_or_err().unwrap().body.kernels[0].features,
            KernelFeatures::HeightLocked { fee: FEE, lock_height }
        );
    }
}

#[test]
fn round_2_leaves_the_others_alone() {
    let k = keychain();
    let (mut slate, sender, _) = after_round_1(&k, 0);
    let before = slate.clone();
    sign(&k, &mut slate, &sender, 21, 0).unwrap();
    assert!(slate.participant_data[0].is_complete());
    assert!(!slate.participant_data[1].is_complete());
    assert_eq!(
        slate.participant_data[0].public_nonce.to_bytes(),
        before.participant_data[0].public_nonce.to_bytes()
    );
    assert!(slate.verify_messages().is_ok());
}

#[test]
fn round_2_for_an_unknown_id_changes_nothing() {
    let k = keychain();
    let (mut slate, sender, _) = after_round_1(&k, 0);
    sign(&k, &mut slate, &sender, 21, 7).unwrap();
    assert!(!slate.participant_data[0].is_complete());
    assert!(!slate.participant_data[1].is_complete());
}

#[test]
fn part_sig_goes_to_the_first_slot_with_the_id() {
    let k = keychain();
    let (mut slate, _, _) = after_round_1(&k, 0);
    slate.participant_data[1].id = 0;
    slate.set_part_sig(0, Signature { bytes: [5; 64] });
    assert_eq!(slate.participant_data[0].part_sig.unwrap().bytes[..], [5u8; 64][..]);
    assert!(slate.participant_data[1].part_sig.is_none());
    // slots beyond the number of participants are not looked at
    slate.participant_data[1].id = 1;
    slate.num_participants = 1;
    slate.set_part_sig(1, Signature { bytes: [6; 64] });
    assert!(slate.participant_data[1].part_sig.is_none());
}

#[test]
fn round_2_waits_for_round_1() {
    let k = keychain();
    let (mut slate, sender, _) = after_round_1(&k, 0);
    slate.num_participants = 3;
    let none = secret(&k, 99);
    let nonce = secret(&k, 21);
    // two of three have performed round 1: nobody gets a partial signature
    for id in 0..4 {
        let r = slate
            .try_fill_round_2(&k, &sender, &none, &nonce, id, &flat_fee, &no_token, &token_msg);
        assert!(r.is_none());
        assert!(slate.participant_data.iter().all(|p| !p.is_complete()));
    }
    slate.num_participants = 2;
    let r = slate.try_fill_round_2(&k, &sender, &none, &nonce, 0, &flat_fee, &no_token, &token_msg);
    assert!(matches!(r, Some(Ok(()))));
    assert!(slate.participant_data[0].is_complete());
    slate.participant_data.clear();
    slate.num_participants = 0;
    let r = slate.try_fill_round_2(&k, &sender, &none, &nonce, 0, &flat_fee, &no_token, &token_msg);
    assert!(r.is_none());
}

#[test]
fn key_sums_do_not_depend_on_the_order() {
    let k = keychain();
    let (mut slate, _, _) = after_round_1(&k, 0);
    slate
        .fill_round_1(&k, &mut secret(&k, 44), &secret(&k, 99), &secret(&k, 45), 2, None, false)
        .unwrap();
    let nonces = slate.pub_nonce_sum(&k).unwrap().to_bytes();
    let blinds = slate.pub_blind_sum(&k).unwrap().to_bytes();
    assert_ne!(nonces, blinds);
    // the nonces are 21, 22 and 45
    let sum = k
        .secp()
        .blind_sum([21u8, 22, 45].iter().map(|b| secp::SecretKey([*b; 32])).collect(), vec![])
        .unwrap();
    let key = secp::PublicKey::from_secret_key(k.secp(), &sum).unwrap();
    assert_eq!(nonces[..], key.serialize_vec(k.secp(), true)[..]);
    slate.participant_data.rotate_left(1);
    assert_eq!(slate.pub_nonce_sum(&k).unwrap().to_bytes(), nonces);
    assert_eq!(slate.pub_blind_sum(&k).unwrap().to_bytes(), blinds);
    slate.participant_data.swap(0, 1);
    assert_eq!(slate.pub_nonce_sum(&k).unwrap().to_bytes(), nonces);
    assert_eq!(slate.pub_blind_sum(&k).unwrap().to_bytes(), blinds);
}

#[test]
fn given_offset_is_split_off() {
    let k = keychain();
    let mut slate = Slate::blank(2);
    let mut key = secret(&k, 9);
    slate.split_offset(&k, &mut key, &secret(&k, 4)).unwrap();
    assert_eq!(slate.tx_or_err().unwrap().offset.bytes, [4; 32]);
    assert_eq!(key.to_bytes(), [5; 32]);
    // nothing is left: the key stays, and the offset is there
    match slate.split_offset(&k, &mut key, &secret(&k, 5)) {
        Err(Error::Keychain(text)) => assert_eq!(text, "Secp(InvalidSecretKey)"),
        _ => panic!("accepted"),
    }
    assert_eq!(slate.tx_or_err().unwrap().offset.bytes, [5; 32]);
    assert_eq!(key.to_bytes(), [5; 32]);
    slate.tx = None;
    let r = slate.split_offset(&k, &mut key, &secret(&k, 4));
    assert!(matches!(r, Err(Error::SlateTransactionRequired)));
}

#[test]
fn share_under_a_wrong_key_is_refused() {
    let k = keychain();
    let (mut slate, sender, _) = after_round_1(&k, 0);
    // somebody else signs in the place of the recipient
    sign(&k, &mut slate, &secret(&k, 55), 22, 1).unwrap();
    match sign(&k, &mut slate, &sender, 21, 0) {
        Err(Error::LibTx(text)) => {
            assert_eq!(text, "Signature(\"Signature validation error\")")
        }
        _ => panic!("accepted"),
    }
    assert!(!slate.participant_data[0].is_complete());
}

#[test]
fn keys_that_cancel_out_are_refused() {
    let k = keychain();
    let (mut slate, sender, _) = after_round_1(&k, 0);
    let mut opposite = slate.participant_data[0].public_nonce.to_bytes();
    opposite[0] ^= 1;
    slate.participant_data[1].public_nonce = slate::PublicKey::from_slice(&k, &opposite).unwrap();
    match sign(&k, &mut slate, &sender, 21, 0) {
        Err(Error::Secp(text)) => assert_eq!(text, "InvalidPublicKey"),
        _ => panic!("accepted"),
    }
}

#[test]
fn changed_fee_spoils_the_signatures() {
    let k = keychain();
    let mut slate = signed(&k, 0);
    slate.fee = FEE + 1;
    assert!(matches!(finalize(&k, &mut slate), Err(Error::LibTx(_))));
}

#[test]
fn finalizing_waits_for_everybody() {
    let k = keychain();
    let (mut slate, sender, _) = after_round_1(&k, 0);
    sign(&k, &mut slate, &sender, 21, 0).unwrap();
    let r = slate.try_finalize(&k, &flat_fee, &no_token, &token_msg, &accept_token, &accept);
    assert!(r.is_none());
    let mut slate = Slate::blank(2);
    let r = slate.try_finalize(&k, &flat_fee, &no_token, &token_msg, &accept_token, &accept);
    assert!(r.is_none());
}

#[test]
fn unbalanced_transaction_gets_no_valid_kernel() {
    let k = keychain();
    let mut slate = signed(&k, 0);
    slate.tx_or_err_mut().unwrap().body.outputs.push(output(&k, 1, 14));
    match finalize(&k, &mut slate) {
        Err(Error::Transaction(text)) => assert_eq!(text, "IncorrectSignature"),
        _ => panic!("accepted"),
    }
    // the kernel stays signed
    let tx = slate.tx_or_err().unwrap();
    assert_ne!(tx.body.kernels[0].excess_sig.bytes[..], [0u8; 64][..]);
}

#[test]
fn refused_transaction_is_not_final() {
    let k = keychain();
    let mut slate = signed(&k, 0);
    let r = slate.finalize(&k, &flat_fee, &no_token, &token_msg, &accept_token, &|_: &Transaction| {
        Err(Error::Transaction("too heavy".to_string()))
    });
    match r {
        Err(Error::Transaction(text)) => assert_eq!(text, "too heavy"),
        _ => panic!("accepted"),
    }
}

#[test]
fn fee_is_checked_in_round_2_and_at_the_end() {
    let k = keychain();
    let (mut slate, sender, _) = after_round_1(&k, 0);
    let fee = |counts: ElementCounts| {
        assert_eq!(counts.inputs, 1);
        assert_eq!(counts.outputs, 2);
        assert_eq!(counts.kernels, 1);
        assert_eq!(counts.token_inputs + counts.token_outputs + counts.token_kernels, 0);
        9
    };
    let none = secret(&k, 99);
    let nonce = secret(&k, 21);
    match slate.fill_round_2(&k, &sender, &none, &nonce, 0, &fee, &no_token, &token_msg) {
        Err(Error::Fee(text)) => assert_eq!(text, "Fee Dispute Error: 8, 9"),
        _ => panic!("accepted"),
    }
    let mut slate = signed(&k, 0);
    let r = slate.finalize(&k, &fee, &no_token, &token_msg, &accept_token, &accept);
    assert!(matches!(r, Err(Error::Fee(_))));
    let tx = slate.tx_or_err().unwrap();
    assert_eq!(tx.body.kernels[0].excess_sig.bytes[..], [0u8; 64][..]);
}

#[test]
fn token_parent_is_signed_with_one_key() {
    let k = keychain();
    let mut slate = Slate::blank(1);
    slate.fee = FEE;
    slate.amount = 10;
    slate
        .add_transaction_elements(&no_token, |tx: Transaction| {
            let mut tx = tx;
            tx.body.inputs.push(input(&k, 100, 11));
            tx.body.outputs.push(output(&k, 100 - FEE, 12));
            Ok((tx, BlindingFactor::zero(), BlindingFactor::zero()))
        })
        .unwrap();
    let mut key = difference(&k, 12, 11);
    slate.generate_offset(&k, &mut key, false).unwrap();
    let refuse = |_: &Transaction| Err(Error::Transaction("no".to_string()));
    slate
        .finalize_token_parent_tx(&k, &key, false, &flat_fee, &refuse)
        .unwrap();
    let kernel = slate.tx_or_err().unwrap().body.kernels[0];
    assert_eq!(kernel.excess.bytes, slate.calc_excess(&k).unwrap().bytes);
    assert!(slate
        .finalize_token_parent_tx(&k, &key, true, &flat_fee, &accept)
        .is_ok());
    assert!(matches!(
        slate.try_finalize_token_parent_tx(&k, &key, true, &flat_fee, &refuse),
        Some(Err(Error::Transaction(_)))
    ));
    // another key does not sign for this excess
    assert!(matches!(
        slate.finalize_token_parent_tx(&k, &secret(&k, 77), true, &flat_fee, &accept),
        Err(Error::Transaction(_))
    ));
    slate.tx_or_err_mut().unwrap().body.kernels.clear();
    let r = slate.try_finalize_token_parent_tx(&k, &key, true, &|_: ElementCounts| 0, &accept);
    assert!(r.is_none());
}

fn token_output(k: &ExtKeychain, value: u64, blind: u8) -> TokenOutput {
    TokenOutput {
        features: OutputFeatures { byte: 0 },
        token_type: KEY,
        commit: commit(k, value, blind),
        proof: RangeProof::zero(),
    }
}

fn token_input(k: &ExtKeychain, value: u64, blind: u8) -> TokenInput {
    TokenInput {
        features: OutputFeatures { byte: 0 },
        token_type: KEY,
        commit: commit(k, value, blind),
    }
}

/// A transfer of 50 tokens that both participants have signed.
fn signed_tokens(k: &ExtKeychain) -> Slate {
    let mut slate = Slate::blank(2);
    slate.token_type = Some("42".to_string());
    slate.amount = 50;
    slate.fee = FEE;
    slate
        .add_transaction_elements(&the_token, |tx: Transaction| {
            let mut tx = tx;
            tx.body.token_inputs.push(token_input(k, 80, 31));
            tx.body.token_outputs.push(token_output(k, 30, 32));
            tx.body.token_outputs.push(token_output(k, 50, 33));
            Ok((tx, BlindingFactor::zero(), BlindingFactor::zero()))
        })
        .unwrap();
    let sender = difference(k, 32, 31);
    let recipient = secret(k, 33);
    for (id, key) in [(0, &sender), (1, &recipient)] {
        slate
            .fill_round_1(k, &mut secret(k, 2), key, &secret(k, 21 + id as u8), id, None, false)
            .unwrap();
    }
    for (id, key) in [(0, &sender), (1, &recipient)] {
        slate
            .fill_round_2(
                k,
                &secret(k, 2),
                key,
                &secret(k, 21 + id as u8),
                id,
                &flat_fee,
                &the_token,
                &token_msg,
            )
            .unwrap();
    }
    slate
}

#[test]
fn honest_participants_finalize_tokens() {
    let k = keychain();
    let mut slate = signed_tokens(&k);
    let excess = slate.calc_token_excess(&k, &the_token).unwrap();
    slate
        .finalize(&k, &flat_fee, &the_token, &token_msg, &accept_token, &accept)
        .unwrap();
    let tx = slate.tx_or_err().unwrap();
    assert_eq!(tx.body.token_kernels.len(), 1);
    let kernel = tx.body.token_kernels[0];
    assert_eq!(kernel.features, TokenKernelFeatures::PlainToken);
    assert_eq!(kernel.token_type.bytes, KEY.bytes);
    assert_eq!(kernel.excess.bytes, excess.bytes);
    // the signature holds under the excess
    let context = k.secp();
    let key = secp::pedersen::Commitment(kernel.excess.bytes).to_pubkey(context).unwrap();
    let msg = token_msg(TokenKernelFeatures::PlainToken, KEY).unwrap();
    let sig = secp::Signature::from_raw_data(&kernel.excess_sig.bytes).unwrap();
    let msg = secp::Message::from_slice(&msg.bytes).unwrap();
    assert!(grin_core::libtx::aggsig::verify_single(
        context,
        &sig,
        &msg,
        None,
        &key,
        Some(&key),
        false
    ));
    // the plain kernel is as it was
    assert_eq!(tx.body.kernels[0].excess_sig.bytes[..], [0u8; 64][..]);
}

#[test]
fn token_rules_can_refuse() {
    let k = keychain();
    let mut slate = signed_tokens(&k);
    let refuse = |_: &TokenTxKernel| Err(Error::Transaction("bad token kernel".to_string()));
    let r = slate.finalize(&k, &flat_fee, &the_token, &token_msg, &refuse, &accept);
    match r {
        Err(Error::Transaction(text)) => assert_eq!(text, "bad token kernel"),
        _ => panic!("accepted"),
    }
    let r = slate.finalize(&k, &flat_fee, &no_token, &token_msg, &accept_token, &accept);
    match r {
        Err(Error::Token(text)) => assert_eq!(text, "no token"),
        _ => panic!("accepted"),
    }
    slate.tx_or_err_mut().unwrap().body.token_kernels.clear();
    let r = slate.try_finalize(&k, &flat_fee, &the_token, &token_msg, &accept_token, &accept);
    assert!(r.is_none());
}

#[test]
fn token_excess_counts_one_kind_only() {
    let k = keychain();
    let mut slate = signed_tokens(&k);
    let excess = slate.calc_token_excess(&k, &the_token).unwrap();
    let mut other = token_output(&k, 7, 41);
    other.token_type = TokenKey { bytes: [1; 32] };
    slate.tx_or_err_mut().unwrap().body.token_outputs.insert(0, other);
    assert_eq!(slate.calc_token_excess(&k, &the_token).unwrap().bytes, excess.bytes);
    match slate.calc_token_excess(&k, &no_token) {
        Err(Error::Token(text)) => assert_eq!(text, "no token"),
        _ => panic!("accepted"),
    }
    // nothing of that kind: there is no sum
    slate.token_type = Some("other".to_string());
    let nothing = |_: &String| Ok(TokenKey { bytes: [9; 32] });
    assert!(matches!(slate.calc_token_excess(&k, &nothing), Err(Error::Secp(_))));
}

#[test]
fn token_is_issued_into_the_first_output() {
    let k = keychain();
    let path = Identifier { bytes: [3, 0, 0, 0, 1, 0, 0, 0, 2, 0, 0, 0, 3, 0, 0, 0, 0] };
    let id = grin_keychain::Identifier::from_bytes(&path.bytes);
    let amount: u64 = 1000;
    let out = k.commit(amount, &id, grin_keychain::SwitchCommitmentType::Regular).unwrap();
    let mut slate = Slate::blank(1);
    // without a token type there is nothing to do
    slate.construct_issue_token_kernel(&k, amount, &path, &the_token, &token_msg).unwrap();
    assert!(slate.tx_or_err().unwrap().body.token_kernels.is_empty());
    slate.token_type = Some("42".to_string());
    let mut output = token_output(&k, 1, 1);
    output.commit = Commitment { bytes: out.0 };
    slate.tx_or_err_mut().unwrap().body.token_outputs.push(output);
    slate.construct_issue_token_kernel(&k, amount, &path, &the_token, &token_msg).unwrap();
    let kernels = &slate.tx_or_err().unwrap().body.token_kernels;
    assert_eq!(kernels.len(), 1);
    assert_eq!(kernels[0].features, TokenKernelFeatures::IssueToken);
    assert_eq!(kernels[0].token_type.bytes, KEY.bytes);
    // the excess is the key of the output, and the signature holds under it
    let context = k.secp();
    let secret = k
        .derive_key(amount, &id, grin_keychain::SwitchCommitmentType::Regular)
        .unwrap();
    let key = secp::PublicKey::from_secret_key(context, &secret).unwrap();
    let excess_key = secp::pedersen::Commitment(kernels[0].excess.bytes)
        .to_pubkey(context)
        .unwrap();
    assert_eq!(key, excess_key);
    let msg = token_msg(TokenKernelFeatures::IssueToken, KEY).unwrap();
    assert!(grin_core::libtx::aggsig::verify_single(
        context,
        &secp::Signature::from_raw_data(&kernels[0].excess_sig.bytes).unwrap(),
        &secp::Message::from_slice(&msg.bytes).unwrap(),
        None,
        &key,
        Some(&key),
        false
    ));
}

#[test]
fn issuing_reports_what_goes_wrong() {
    let k = keychain();
    let path = Identifier { bytes: [0; 17] };
    let mut slate = Slate::blank(1);
    slate.token_type = Some("unknown".to_string());
    match slate.construct_issue_token_kernel(&k, 0, &path, &the_token, &token_msg) {
        Err(Error::Token(text)) => assert_eq!(text, "unknown"),
        _ => panic!("accepted"),
    }
    slate.token_type = Some("42".to_string());
    slate.tx = None;
    let r = slate.construct_issue_token_kernel(&k, 1, &path, &the_token, &token_msg);
    assert!(matches!(r, Err(Error::SlateTransactionRequired)));
    slate.tx = Some(Transaction::empty());
    slate.tx_or_err_mut().unwrap().body.token_outputs.push(token_output(&k, 1, 1));
    let no_msg = |_: TokenKernelFeatures, _: TokenKey| Err(Error::Token("no message".to_string()));
    match slate.construct_issue_token_kernel(&k, 1, &path, &the_token, &no_msg) {
        Err(Error::Token(text)) => assert_eq!(text, "no message"),
        _ => panic!("accepted"),
    }
    let mut bad = token_output(&k, 1, 1);
    bad.commit = Commitment { bytes: [0; 33] };
    slate.tx_or_err_mut().unwrap().body.token_outputs[0] = bad;
    let r = slate.construct_issue_token_kernel(&k, 1, &path, &the_token, &token_msg);
    assert!(matches!(r, Err(Error::Secp(_))));
    assert!(slate.tx_or_err().unwrap().body.token_kernels.is_empty());
}

#[test]
fn signed_message_is_the_hash_of_the_features() {
    let k = keychain();
    let fees = [0u64, 1, FEE, 1 << 40, 1 << 44, u64::MAX];
    for (fee, lock_height) in fees.iter().flat_map(|fee| [(*fee, 0u64), (*fee, 700), (*fee, u64::MAX)]) {
        let mut slate = Slate::blank(1);
        slate.fee = fee;
        slate.lock_height = lock_height;
        slate.update_kernel().unwrap();
        let mut key = secret(&k, 2);
        slate
            .fill_round_1(&k, &mut key, &secret(&k, 3), &secret(&k, 4), 0, None, true)
            .unwrap();
        slate
            .fill_round_2(
                &k,
                &key,
                &secret(&k, 3),
                &secret(&k, 4),
                0,
                &|_: ElementCounts| 0,
                &no_token,
                &token_msg,
            )
            .unwrap();
        let mut bytes = vec![if lock_height == 0 { 0u8 } else { 2 }];
        bytes.extend_from_slice(&fee.to_be_bytes());
        if lock_height != 0 {
            bytes.extend_from_slice(&lock_height.to_be_bytes());
        }
        let hash = blake2_rfc::blake2b::blake2b(32, &[], &bytes);
        let p = &slate.participant_data[0];
        let context = k.secp();
        let nonce = secp::PublicKey::from_slice(context, &p.public_nonce.to_bytes()).unwrap();
        let key = secp::PublicKey::from_slice(context, &p.public_blind_excess.to_bytes()).unwrap();
        assert!(grin_core::libtx::aggsig::verify_partial_sig(
            context,
            &secp::Signature::from_raw_data(&p.part_sig.unwrap().bytes).unwrap(),
            &nonce,
            &key,
            Some(&key),
            &secp::Message::from_slice(hash.as_bytes()).unwrap(),
        )
        .is_ok());
    }
}

#[test]
fn shares_depend_on_their_nonce() {
    let k = keychain();
    let (slate, sender, _) = after_round_1(&k, 0);
    let mut one = slate.clone();
    let mut again = slate.clone();
    let mut other = slate.clone();
    sign(&k, &mut one, &sender, 21, 0).unwrap();
    sign(&k, &mut again, &sender, 21, 0).unwrap();
    sign(&k, &mut other, &sender, 77, 0).unwrap();
    let share = |s: &Slate| s.participant_data[0].part_sig.unwrap().bytes.to_vec();
    assert_eq!(share(&one), share(&again));
    assert_ne!(share(&one), share(&other));
}

#[test]
fn keychain_without_a_key_issues_nothing() {
    let mut k = keychain();
    let path = Identifier { bytes: [0; 17] };
    let mut slate = Slate::blank(1);
    slate.token_type = Some("42".to_string());
    slate.tx_or_err_mut().unwrap().body.token_outputs.push(token_output(&k, 5, 1));
    // masked with itself, the master key is zero
    let mask = k.master.secret_key.clone();
    k.mask_master_key(&mask).unwrap();
    match slate.construct_issue_token_kernel(&k, 3, &path, &the_token, &token_msg) {
        Err(Error::LibTx(text)) => assert_eq!(text, "InvalidSecretKey"),
        _ => panic!("accepted"),
    }
    assert!(slate.tx_or_err().unwrap().body.token_kernels.is_empty());
}

#[test]
fn issue_is_signed_with_the_given_key() {
    let k = keychain();
    let mut slate = Slate::blank(1);
    let context = k.secp();
    let key = secp::PublicKey::from_secret_key(context, &secp::SecretKey([6; 32])).unwrap();
    let excess_key = slate::PublicKey::from_slice(&k, &key.serialize_vec(context, true)).unwrap();
    let msg = Message { bytes: [8; 32] };
    let excess = Commitment { bytes: [9; 33] };
    slate.sign_issue(&k, KEY, excess, &excess_key, &msg, &secret(&k, 6)).unwrap();
    let kernel = slate.tx_or_err().unwrap().body.token_kernels[0];
    assert_eq!(kernel.features, TokenKernelFeatures::IssueToken);
    assert_eq!(kernel.token_type.bytes, KEY.bytes);
    assert_eq!(kernel.excess.bytes, excess.bytes);
    assert!(grin_core::libtx::aggsig::verify_single(
        context,
        &secp::Signature::from_raw_data(&kernel.excess_sig.bytes).unwrap(),
        &secp::Message::from_slice(&msg.bytes).unwrap(),
        None,
        &key,
        Some(&key),
        false
    ));
    slate.tx = None;
    let r = slate.sign_issue(&k, KEY, excess, &excess_key, &msg, &secret(&k, 6));
    assert!(matches!(r, Err(Error::SlateTransactionRequired)));
}

#[test]
fn issuing_follows_the_depth_of_the_path() {
    let k = keychain();
    // depths from none to four, with a hardened step
    let paths: [[u8; 17]; 4] = [
        [0, 0, 0, 0, 1, 0, 0, 0, 2, 0, 0, 0, 3, 0, 0, 0, 4],
        [1, 0, 0, 0, 1, 0, 0, 0, 2, 0, 0, 0, 3, 0, 0, 0, 4],
        [2, 128, 0, 0, 1, 0, 0, 0, 2, 0, 0, 0, 3, 0, 0, 0, 4],
        [4, 0, 0, 0, 1, 0, 0, 0, 2, 0, 0, 0, 3, 0, 0, 0, 4],
    ];
    for bytes in paths {
        let id = grin_keychain::Identifier::from_bytes(&bytes);
        let out = k.commit(77, &id, grin_keychain::SwitchCommitmentType::Regular).unwrap();
        let mut slate = Slate::blank(1);
        slate.token_type = Some("42".to_string());
        let mut output = token_output(&k, 1, 1);
        output.commit = Commitment { bytes: out.0 };
        slate.tx_or_err_mut().unwrap().body.token_outputs.push(output);
        slate
            .construct_issue_token_kernel(&k, 77, &Identifier { bytes }, &the_token, &token_msg)
            .unwrap();
        let kernel = slate.tx_or_err().unwrap().body.token_kernels[0];
        let key = secp::pedersen::Commitment(kernel.excess.bytes).to_pubkey(k.secp()).unwrap();
        let msg = token_msg(TokenKernelFeatures::IssueToken, KEY).unwrap();
        assert!(grin_core::libtx::aggsig::verify_single(
            k.secp(),
            &secp::Signature::from_raw_data(&kernel.excess_sig.bytes).unwrap(),
            &secp::Message::from_slice(&msg.bytes).unwrap(),
            None,
            &key,
            Some(&key),
            false
        ));
    }
}

#[test]
fn zero_key_takes_an_offset() {
    let k = keychain();
    let mut slate = Slate::blank(2);
    let mut key = SecretKey::zero();
    assert!(key.is_zero());
    slate.generate_offset(&k, &mut key, true).unwrap();
    let offset = slate.tx_or_err().unwrap().offset;
    // what is left is the negative of the offset
    let mut negative = secp::SecretKey(offset.bytes);
    negative.neg_assign(k.secp()).unwrap();
    assert_eq!(key.to_bytes(), negative.0);
    let mut slate = Slate::blank(2);
    let mut key = SecretKey::zero();
    slate.split_offset(&k, &mut key, &secret(&k, 4)).unwrap();
    let mut negative = secp::SecretKey([4; 32]);
    negative.neg_assign(k.secp()).unwrap();
    assert_eq!(key.to_bytes(), negative.0);
    // zero less zero is no key
    let mut key = SecretKey::zero();
    assert!(matches!(
        slate.split_offset(&k, &mut key, &SecretKey::zero()),
        Err(Error::Keychain(_))
    ));
    assert!(key.is_zero());
}

#[test]
fn unused_key_may_be_zero() {
    let k = keychain();
    let none = SecretKey::zero();
    // the token key of a plain slate
    let mut slate = Slate::blank(1);
    slate.fee = FEE;
    slate.update_kernel().unwrap();
    let mut key = secret(&k, 2);
    slate.fill_round_1(&k, &mut key, &none, &secret(&k, 4), 0, None, false).unwrap();
    slate
        .fill_round_2(&k, &key, &none, &secret(&k, 4), 0, &flat_fee, &no_token, &token_msg)
        .unwrap();
    assert!(slate.participant_data[0].is_complete());
    // the plain key of a token slate
    let mut slate = Slate::blank(1);
    slate.fee = FEE;
    slate.token_type = Some("42".to_string());
    slate.update_kernel().unwrap();
    let mut unused = SecretKey::zero();
    slate.fill_round_1(&k, &mut unused, &secret(&k, 3), &secret(&k, 4), 0, None, false).unwrap();
    assert!(!unused.is_zero());
    slate
        .fill_round_2(
            &k,
            &SecretKey::zero(),
            &secret(&k, 3),
            &secret(&k, 4),
            0,
            &flat_fee,
            &the_token,
            &token_msg,
        )
        .unwrap();
    assert!(slate.participant_data[0].is_complete());
    // the next participant finds an offset, and a zero key stays zero
    slate.num_participants = 2;
    let mut unused = SecretKey::zero();
    slate.fill_round_1(&k, &mut unused, &secret(&k, 5), &secret(&k, 6), 1, None, false).unwrap();
    assert!(unused.is_zero());
}

#[test]
fn zero_key_of_the_first_signs_with_what_is_left() {
    let k = keychain();
    let mut slate = Slate::blank(1);
    let mut key = SecretKey::zero();
    let message = Some("hello".to_string());
    slate.fill_round_1(&k, &mut key, &SecretKey::zero(), &secret(&k, 4), 0, message, true).unwrap();
    assert!(!key.is_zero());
    assert!(slate.verify_messages().is_ok());
}

#[test]
fn share_of_the_zero_key_does_not_hold() {
    let k = keychain();
    let (mut slate, _, _) = after_round_1(&k, 0);
    sign(&k, &mut slate, &SecretKey::zero(), 22, 1).unwrap();
    assert!(slate.participant_data[1].is_complete());
    assert!(matches!(
        sign(&k, &mut slate, &secret(&k, 2), 21, 0),
        Err(Error::LibTx(_))
    ));
}

#[test]
fn round_2_wants_a_nonce() {
    let k = keychain();
    let (mut slate, sender, _) = after_round_1(&k, 0);
    let zero = SecretKey::zero();
    let r = slate.try_fill_round_2(&k, &sender, &zero, &zero, 0, &flat_fee, &no_token, &token_msg);
    assert!(r.is_none());
    assert!(!slate.participant_data[0].is_complete());
}

#[test]
fn zero_key_signs_no_parent() {
    let k = keychain();
    let mut slate = Slate::blank(1);
    slate.fee = FEE;
    slate.update_kernel().unwrap();
    slate.tx_or_err_mut().unwrap().offset = BlindingFactor { bytes: [9; 32] };
    match slate.finalize_token_parent_tx(&k, &SecretKey::zero(), false, &flat_fee, &accept) {
        Err(Error::Transaction(text)) => assert_eq!(text, "IncorrectSignature"),
        other => panic!("{:?}", other),
    }
}

#[test]
fn blinding_factors_are_read_as_keys() {
    let k = keychain();
    assert!(BlindingFactor::zero().secret_key(&k).unwrap().is_zero());
    let key = BlindingFactor { bytes: [7; 32] }.secret_key(&k).unwrap();
    assert_eq!(key.to_bytes(), [7; 32]);
    match (BlindingFactor { bytes: [0xFF; 32] }).secret_key(&k) {
        Err(text) => assert_eq!(text, "Secp(InvalidSecretKey)"),
        Ok(_) => panic!("accepted"),
    }
}

#[test]
fn path_is_read_last() {
    let k = keychain();
    let deep = Identifier { bytes: [5; 17] };
    let mut slate = Slate::blank(1);
    // without a token type the path is not read
    slate.construct_issue_token_kernel(&k, 1, &deep, &the_token, &token_msg).unwrap();
    slate.token_type = Some("42".to_string());
    slate.tx_or_err_mut().unwrap().body.token_outputs.push(token_output(&k, 5, 1));
    // nor where there is no message
    let no_msg = |_: TokenKernelFeatures, _: TokenKey| Err(Error::Token("no message".to_string()));
    match slate.construct_issue_token_kernel(&k, 1, &deep, &the_token, &no_msg) {
        Err(Error::Token(text)) => assert_eq!(text, "no message"),
        _ => panic!("accepted"),
    }
    let r = slate.try_construct_issue_token_kernel(&k, 1, &deep, &the_token, &token_msg);
    assert!(r.is_none());
    assert!(slate.tx_or_err().unwrap().body.token_kernels.is_empty());
    // nor where there is no excess
    slate.tx_or_err_mut().unwrap().body.token_outputs[0].commit = Commitment { bytes: [0; 33] };
    let r = slate.construct_issue_token_kernel(&k, 1, &deep, &the_token, &token_msg);
    assert!(matches!(r, Err(Error::Secp(_))));
    assert!(matches!(slate.calc_issue_excess(&k, 1), Err(Error::Secp(_))));
    let shallow = Identifier { bytes: [0; 17] };
    let r = slate.try_construct_issue_token_kernel(&k, 1, &shallow, &the_token, &token_msg);
    assert!(matches!(r, Some(Err(Error::Secp(_)))));
}
