use grin_keychain::{ExtKeychain, Keychain};
use grin_util::secp::pedersen::RangeProof;
use slate::transaction::{
    Input, KernelFeatures, Output, OutputFeatures, TokenInput, TokenKernelFeatures, TokenOutput,
    TokenTxKernel, Transaction, TransactionBody, TxKernel,
};
use slate::v4::{
    CbData, CoinbaseV4, CompatKernelFeatures, CompatTokenKernelFeatures, SlateV4, TokenTxKernelV4,
    TransactionV4, TxKernelV4,
};
use slate::{
    BlindingFactor, Commitment, Error, Identifier, ParticipantData, PaymentInfo, PublicKey,
    Signature, Slate, SlateVersionProbe, TokenKey, VersionCompatInfo,
};

const EXCESS: Commitment = Commitment { bytes: [1; 33] };
const SIG: Signature = Signature { bytes: [2; 64] };
const TOKEN: TokenKey = TokenKey { bytes: [3; 32] };

fn kernel(features: KernelFeatures) -> TxKernel {
    TxKernel { features, excess: EXCESS, excess_sig: SIG }
}

fn token_kernel(features: TokenKernelFeatures) -> TokenTxKernel {
    TokenTxKernel { features, token_type: TOKEN, excess: EXCESS, excess_sig: SIG }
}

/// A slate with something in every field.
fn full() -> Slate {
    let k = ExtKeychain::from_seed(&[7; 32], false).unwrap();
    let key = |byte: u8| {
        let secret = grin_util::secp::SecretKey([byte; 32]);
        let key = grin_util::secp::PublicKey::from_secret_key(k.secp(), &secret).unwrap();
        PublicKey::from_slice(&k, &key.serialize_vec(k.secp(), true)).unwrap()
    };
    let address = |byte: u8| {
        let secret = ed25519_dalek::SecretKey::from_bytes(&[byte; 32]).unwrap();
        ed25519_dalek::PublicKey::from(&secret)
    };
    let mut slate = Slate::blank(2);
    slate.version_info = VersionCompatInfo { version: 4, orig_version: 4, block_header_version: 9 };
    slate.amount = 10;
    slate.token_type = Some("token".to_string());
    slate.fee = 11;
    slate.height = 12;
    slate.lock_height = 13;
    slate.ttl_cutoff_height = Some(14);
    slate.participant_data = vec![
        ParticipantData {
            id: 15,
            public_blind_excess: key(16),
            public_nonce: key(17),
            part_sig: Some(SIG),
            message: Some("message".to_string()),
            message_sig: Some(Signature { bytes: [18; 64] }),
        },
        ParticipantData {
            id: 19,
            public_blind_excess: key(20),
            public_nonce: key(21),
            part_sig: None,
            message: None,
            message_sig: None,
        },
    ];
    slate.payment_proof = Some(PaymentInfo {
        sender_address: address(22),
        receiver_address: address(23),
        receiver_signature: None,
    });
    let features = OutputFeatures { byte: 1 };
    let proof = RangeProof::zero();
    slate.tx = Some(Transaction {
        offset: BlindingFactor { bytes: [24; 32] },
        body: TransactionBody {
            inputs: vec![
                Input { features, commit: EXCESS },
                Input { features: OutputFeatures { byte: 0 }, commit: Commitment { bytes: [4; 33] } },
            ],
            token_inputs: vec![TokenInput { features, token_type: TOKEN, commit: EXCESS }],
            outputs: vec![Output { features, commit: EXCESS, proof }],
            token_outputs: vec![TokenOutput { features, token_type: TOKEN, commit: EXCESS, proof }],
            kernels: vec![
                kernel(KernelFeatures::Plain { fee: 25 }),
                kernel(KernelFeatures::Coinbase),
                kernel(KernelFeatures::HeightLocked { fee: 26, lock_height: 27 }),
            ],
            token_kernels: vec![
                token_kernel(TokenKernelFeatures::PlainToken),
                token_kernel(TokenKernelFeatures::IssueToken),
                token_kernel(TokenKernelFeatures::HeightLockedToken { lock_height: 28 }),
            ],
        },
    });
    slate
}

#[test]
fn slate_survives_version_4() {
    let slate = full();
    let text = format!("{:?}", slate);
    assert_eq!(format!("{:?}", Slate::from(SlateV4::from(&slate))), text);
    assert_eq!(format!("{:?}", slate.clone()), text);
    let v4 = SlateV4::from(slate);
    assert_eq!(v4.participant_data[0].id, 15);
    assert_eq!(v4.payment_proof.is_some(), true);
    let v4_text = format!("{:?}", v4);
    assert_eq!(format!("{:?}", SlateV4::from(Slate::from(v4))), v4_text);
}

#[test]
fn missing_parts_stay_missing() {
    let mut slate = Slate::blank(1);
    slate.tx = None;
    let v4 = SlateV4::from(&slate);
    assert!(v4.tx.is_none());
    assert!(v4.payment_proof.is_none());
    assert!(v4.token_type.is_none());
    assert!(v4.participant_data.is_empty());
    assert!(Slate::from(v4).tx.is_none());
}

#[test]
fn transaction_survives_version_4() {
    let tx = full().tx.unwrap();
    let text = format!("{:?}", tx);
    assert_eq!(format!("{:?}", Transaction::from(&TransactionV4::from(&tx))), text);
    assert_eq!(format!("{:?}", Transaction::from(TransactionV4::from(tx))), text);
}

#[test]
fn kernel_features_are_spread_out() {
    let v4 = TxKernelV4::from(&kernel(KernelFeatures::Plain { fee: 5 }));
    assert_eq!((v4.features, v4.fee, v4.lock_height), (CompatKernelFeatures::Plain, 5, 0));
    let v4 = TxKernelV4::from(&kernel(KernelFeatures::Coinbase));
    assert_eq!((v4.features, v4.fee, v4.lock_height), (CompatKernelFeatures::Coinbase, 0, 0));
    let v4 = TxKernelV4::from(&kernel(KernelFeatures::HeightLocked { fee: 5, lock_height: 6 }));
    assert_eq!((v4.features, v4.fee, v4.lock_height), (CompatKernelFeatures::HeightLocked, 5, 6));
    assert_eq!(v4.excess.bytes, EXCESS.bytes);
    assert_eq!(v4.excess_sig.bytes[..], SIG.bytes[..]);
}

#[test]
fn numbers_without_room_are_dropped() {
    let v4 = |features| TxKernelV4 { features, fee: 5, lock_height: 6, excess: EXCESS, excess_sig: SIG };
    let back = TxKernel::from(&v4(CompatKernelFeatures::Plain));
    assert_eq!(back.features, KernelFeatures::Plain { fee: 5 });
    let back = TxKernel::from(&v4(CompatKernelFeatures::Coinbase));
    assert_eq!(back.features, KernelFeatures::Coinbase);
    let back = TxKernel::from(&v4(CompatKernelFeatures::HeightLocked));
    assert_eq!(back.features, KernelFeatures::HeightLocked { fee: 5, lock_height: 6 });
    let v4 = |features| TokenTxKernelV4 {
        features,
        token_type: TOKEN,
        lock_height: 6,
        excess: EXCESS,
        excess_sig: SIG,
    };
    let back = TokenTxKernel::from(&v4(CompatTokenKernelFeatures::PlainToken));
    assert_eq!(back.features, TokenKernelFeatures::PlainToken);
    let back = TokenTxKernel::from(&v4(CompatTokenKernelFeatures::IssueToken));
    assert_eq!(back.features, TokenKernelFeatures::IssueToken);
    let back = TokenTxKernel::from(&v4(CompatTokenKernelFeatures::HeightLockedToken));
    assert_eq!(back.features, TokenKernelFeatures::HeightLockedToken { lock_height: 6 });
    assert_eq!(back.token_type.bytes, TOKEN.bytes);
}

#[test]
fn coinbase_is_converted() {
    let cb = CbData {
        output: Output {
            features: OutputFeatures { byte: 1 },
            commit: EXCESS,
            proof: RangeProof::zero(),
        },
        kernel: kernel(KernelFeatures::Coinbase),
        key_id: Some(Identifier { bytes: [3; 17] }),
    };
    let v4 = CoinbaseV4::from(cb);
    assert_eq!(v4.output.features.byte, 1);
    assert_eq!(v4.output.commit.bytes, EXCESS.bytes);
    assert_eq!(v4.kernel.features, CompatKernelFeatures::Coinbase);
    assert_eq!(v4.key_id.unwrap().bytes, [3; 17]);
}

fn probe(version: u16) -> SlateVersionProbe {
    let version_info = VersionCompatInfo { version, orig_version: 4, block_header_version: 3 };
    SlateVersionProbe { version: None, version_info: Some(version_info) }
}

#[test]
fn slate_is_read_in_its_format() {
    let some = |amount: u64| {
        let mut slate = Slate::blank(2);
        slate.amount = amount;
        Some(SlateV4::from(slate))
    };
    let read = |version: u16| {
        Slate::deserialize_upgrade(
            "text",
            |_| Some(probe(version)),
            |t| {
                assert_eq!(t, "text");
                some(44)
            },
            |t| {
                assert_eq!(t, "text");
                some(33)
            },
        )
    };
    assert_eq!(read(4).unwrap().amount, 44);
    assert_eq!(read(3).unwrap().amount, 33);
    assert!(matches!(read(2), Err(Error::SlateVersion(2))));
    let r = Slate::deserialize_upgrade("text", |_| None, |_| some(4), |_| some(3));
    assert!(matches!(r, Err(Error::SlateVersionParse)));
    let r = Slate::deserialize_upgrade("text", |_| Some(probe(4)), |_| None, |_| some(3));
    assert!(matches!(r, Err(Error::SlateDeser)));
    let r = Slate::deserialize_upgrade("text", |_| Some(probe(3)), |_| some(4), |_| None);
    assert!(matches!(r, Err(Error::SlateDeser)));
}

#[test]
fn slate_is_written_in_its_original_version() {
    let write = |orig_version: u16| {
        let mut slate = full();
        slate.version_info.orig_version = orig_version;
        slate.serialize(
            |v4: &SlateV4| Ok((4, v4.amount)),
            |v4: &SlateV4| Ok((3, v4.amount)),
            |text: String| text,
        )
    };
    assert_eq!(write(4), Ok((4, 10)));
    assert_eq!(write(3), Ok((3, 10)));
    assert_eq!(write(2), Err("Unknown slate version 2".to_string()));
    assert_eq!(write(65535), Err("Unknown slate version 65535".to_string()));
}
