use grin_keychain::{ExtKeychain, Keychain};
use slate::kernel::rejection;
use slate::text::decimal;
use slate::transaction::{KernelFeatures, TokenKernelFeatures, Transaction, TxKernel};
use slate::{BlindingFactor, Error, Slate, TokenKey};

fn paying(fees: &[u64]) -> Slate {
    let mut slate = Slate::blank(2);
    let tx = slate.tx_or_err_mut().unwrap();
    for fee in fees {
        tx.body.kernels.push(TxKernel::with_features(KernelFeatures::Plain { fee: *fee }));
    }
    slate
}

fn token_key(_: &String) -> Result<TokenKey, Error> {
    Ok(TokenKey { bytes: [4; 32] })
}

#[test]
fn new_slate_is_blank() {
    let slate = Slate::blank(3);
    assert_eq!(slate.num_participants, 3);
    assert_eq!((slate.amount, slate.fee, slate.height, slate.lock_height), (0, 0, 0, 0));
    assert_eq!(slate.version_info.version, 4);
    assert_eq!(slate.version_info.orig_version, 4);
    assert!(slate.token_type.is_none());
    assert!(slate.ttl_cutoff_height.is_none());
    assert!(slate.payment_proof.is_none());
    assert!(slate::slate::default_payment_none().is_none());
    assert!(slate.participant_data.is_empty());
    let tx = slate.tx_or_err().unwrap();
    assert!(tx.offset.is_zero());
    assert_eq!(tx.fee(), 0);
    let counts = tx.element_counts();
    assert_eq!((counts.inputs, counts.outputs, counts.kernels), (0, 0, 0));
    assert_ne!(slate.id, Slate::blank(3).id);
}

#[test]
fn features_follow_the_lock_height() {
    let mut slate = Slate::blank(2);
    slate.fee = 7;
    assert_eq!(slate.kernel_features(), KernelFeatures::Plain { fee: 7 });
    assert_eq!(slate.token_kernel_features(), TokenKernelFeatures::PlainToken);
    slate.lock_height = 12;
    assert_eq!(
        slate.kernel_features(),
        KernelFeatures::HeightLocked { fee: 7, lock_height: 12 }
    );
    assert_eq!(
        slate.token_kernel_features(),
        TokenKernelFeatures::HeightLockedToken { lock_height: 12 }
    );
}

#[test]
fn updated_kernel_replaces_all() {
    let mut slate = paying(&[1, 2, 3]);
    slate.fee = 40;
    slate.update_kernel().unwrap();
    let tx = slate.tx_or_err().unwrap();
    assert_eq!(tx.body.kernels.len(), 1);
    assert_eq!(tx.fee(), 40);
    assert_eq!(tx.body.kernels[0].excess.bytes[..], [0u8; 33][..]);
    slate.fee = 41;
    slate.update_kernel().unwrap();
    slate.update_kernel().unwrap();
    assert_eq!(slate.tx_or_err().unwrap().fee(), 41);
}

#[test]
fn token_kernel_is_updated_for_tokens_only() {
    let mut slate = Slate::blank(2);
    slate.update_token_kernel(&token_key).unwrap();
    assert!(slate.tx_or_err().unwrap().body.token_kernels.is_empty());
    slate.token_type = Some("any".to_string());
    slate.lock_height = 3;
    slate.update_token_kernel(&token_key).unwrap();
    slate.update_token_kernel(&token_key).unwrap();
    let kernels = &slate.tx_or_err().unwrap().body.token_kernels;
    assert_eq!(kernels.len(), 1);
    assert_eq!(kernels[0].token_type.bytes, [4; 32]);
    assert_eq!(
        kernels[0].features,
        TokenKernelFeatures::HeightLockedToken { lock_height: 3 }
    );
}

#[test]
fn builder_gets_updated_kernels() {
    let mut slate = Slate::blank(2);
    slate.fee = 5;
    slate.token_type = Some("any".to_string());
    let (blind, token_blind) = slate
        .add_transaction_elements(&token_key, |tx: Transaction| {
            assert_eq!(tx.fee(), 5);
            assert_eq!(tx.body.token_kernels.len(), 1);
            let mut tx = tx;
            tx.offset = BlindingFactor { bytes: [6; 32] };
            Ok((tx, BlindingFactor { bytes: [7; 32] }, BlindingFactor { bytes: [8; 32] }))
        })
        .unwrap();
    assert_eq!(blind.bytes, [7; 32]);
    assert_eq!(token_blind.bytes, [8; 32]);
    assert_eq!(slate.tx_or_err().unwrap().offset.bytes, [6; 32]);
    // where building fails, the updated kernels stay
    slate.fee = 6;
    let r = slate.add_transaction_elements(&token_key, |_: Transaction| {
        Err(Error::LibTx("no".to_string()))
    });
    assert!(matches!(r, Err(Error::LibTx(_))));
    assert_eq!(slate.tx_or_err().unwrap().fee(), 6);
}

#[test]
fn fees_add_up_and_saturate() {
    assert_eq!(paying(&[1, 2, 3]).tx_or_err().unwrap().fee(), 6);
    assert_eq!(paying(&[u64::MAX, 2]).tx_or_err().unwrap().fee(), u64::MAX);
    let mut slate = paying(&[4]);
    let tx = slate.tx_or_err_mut().unwrap();
    tx.body.kernels.push(TxKernel::with_features(KernelFeatures::Coinbase));
    tx.body.kernels.push(TxKernel::with_features(KernelFeatures::HeightLocked {
        fee: 5,
        lock_height: 1,
    }));
    assert_eq!(slate.tx_or_err().unwrap().fee(), 9);
}

#[test]
fn fee_is_covered_or_disputed() {
    let mut slate = paying(&[8]);
    slate.amount = 3;
    slate.fee = 2;
    assert!(slate.check_fee(5).is_ok());
    assert!(slate.check_fee(0).is_ok());
    match slate.check_fee(12) {
        Err(Error::Fee(text)) => assert_eq!(text, "Fee Dispute Error: 8, 12"),
        _ => panic!("accepted"),
    }
    match slate.check_fee(8) {
        Err(Error::Fee(text)) => assert_eq!(
            text,
            rejection(
                &grin_core::core::amount_to_hr_string(8, false),
                &grin_core::core::amount_to_hr_string(5, false)
            )
        ),
        _ => panic!("accepted"),
    }
    slate.tx = None;
    assert!(matches!(slate.check_fee(0), Err(Error::SlateTransactionRequired)));
}

#[test]
fn texts_are_put_together() {
    assert_eq!(
        rejection("a", "b"),
        "Rejected the transfer because transaction fee (a) exceeds received amount (b)."
    );
    assert_eq!(decimal(0), "0");
    assert_eq!(decimal(9), "9");
    assert_eq!(decimal(10), "10");
    assert_eq!(decimal(1_234_567_890), "1234567890");
    assert_eq!(decimal(u64::MAX), "18446744073709551615");
}

#[test]
fn excess_needs_an_offset_in_range() {
    let k = ExtKeychain::from_seed(&[7; 32], false).unwrap();
    let mut slate = Slate::blank(2);
    slate.fee = 8;
    slate.update_kernel().unwrap();
    slate.tx_or_err_mut().unwrap().offset = BlindingFactor { bytes: [0xFF; 32] };
    match slate.calc_excess(&k) {
        Err(Error::Keychain(text)) => assert_eq!(text, "Secp(InvalidSecretKey)"),
        other => panic!("{:?}", other),
    }
    // the commitment to zero under no blinding factor does not exist
    slate.tx_or_err_mut().unwrap().offset = BlindingFactor::zero();
    match slate.calc_excess(&k) {
        Err(Error::Secp(text)) => assert_eq!(text, "InvalidCommit"),
        other => panic!("{:?}", other),
    }
    // the fee alone, less the offset
    let key = grin_util::secp::SecretKey([9; 32]);
    slate.tx_or_err_mut().unwrap().offset = BlindingFactor { bytes: key.0 };
    let fee = k.secp().commit_value(8).unwrap();
    let offset = k.secp().commit(0, key).unwrap();
    let expected = k.secp().commit_sum(vec![fee], vec![offset]).unwrap();
    assert_eq!(slate.calc_excess(&k).unwrap().bytes[..], expected.0[..]);
}

#[test]
fn commitments_must_have_a_sum() {
    let k = ExtKeychain::from_seed(&[7; 32], false).unwrap();
    let slate = Slate::blank(2);
    assert!(matches!(slate.calc_excess(&k), Err(Error::Committed(_))));
    // a fee of 2^63 is out of the range of an overage
    let mut slate = Slate::blank(2);
    slate.fee = 1 << 63;
    slate.update_kernel().unwrap();
    match slate.calc_excess(&k) {
        Err(Error::Committed(text)) => assert_eq!(text, "InvalidValue"),
        other => panic!("{:?}", other),
    }
}
