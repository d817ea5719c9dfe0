use starknet_sync_core::felt::Felt;
use starknet_sync_core::hash_chain::{hash_of_list, HashChain};
use starknet_sync_core::transaction::{
    resolve_chain_id, BlockNumber, ChainId, DeclareTransaction, DeclareTransactionV0V1,
    DeclareTransactionV2, DeployAccountTransaction, DeployTransaction, EntryPointType,
    InvokeTransaction, InvokeTransactionV0, InvokeTransactionV1, L1HandlerTransaction,
    Transaction,
};
use starknet_sync_core::transaction_hash::{
    compute_deploy_hash, compute_invoke_v0_hash, compute_l1_handler_hash,
    compute_transaction_hash, constructor_entry_point, verify, verify2, ComputedTransactionHash,
    VerifyError,
};

fn hex(s: &str) -> Felt {
    let s = s.trim_start_matches("0x");
    let padded = format!("{:0>64}", s);
    let mut bytes = [0u8; 32];
    for i in 0..32 {
        bytes[i] = u8::from_str_radix(&padded[2 * i..2 * i + 2], 16).unwrap();
    }
    Felt::from_be_bytes(bytes).unwrap()
}

fn dec(s: &str) -> Felt {
    let mut bytes = [0u8; 32];
    for c in s.chars() {
        let mut carry = c.to_digit(10).unwrap() as u32;
        for b in bytes.iter_mut().rev() {
            let v = (*b as u32) * 10 + carry;
            *b = (v & 0xff) as u8;
            carry = v >> 8;
        }
        assert_eq!(carry, 0);
    }
    Felt::from_be_bytes(bytes).unwrap()
}

/// Block 854, index 96 on testnet: an invoke that is in fact an old L1 handler.
fn block_854_idx_96() -> Transaction {
    Transaction::Invoke(InvokeTransaction::V0(InvokeTransactionV0 {
        calldata: vec![
            dec("7184257680882984759486662715103668781242208776"),
            dec("917789154208678215885349831600092172101398039978"),
            dec("2"),
            dec("1957115730347262841245066474128500922180113325335838466518362100423532002451"),
        ],
        sender_address: hex("0xda8054260ec00606197a4103eb2ef08d6c8af0b6a808b610152d1ce498f8c3"),
        entry_point_selector: hex(
            "0xe3f5e9e1456ffa52a3fbc7e8c296631d4cc2120c0be1e2829301c0d8fa026b",
        ),
        entry_point_type: Some(EntryPointType::L1Handler),
        max_fee: hex("0x0"),
        transaction_hash: hex("0x61b518bb1f97c49244b8a7a1a984798b4c2876d42920eca2b6ba8dfb1bddc54"),
    }))
}

fn testnet2_with_wrong_chain_id() -> DeployTransaction {
    DeployTransaction {
        contract_address: hex("0x49d36570d4e46f48e99674bd3fcc84644ddd6b96f7c741b1562b82f9e004dc7"),
        contract_address_salt: hex(
            "0x322c2610264639f6b2cee681ac53fa65c37e187ea24292d1b21d859c55e1a78",
        ),
        class_hash: hex("0xd0e183745e9dae3e4e78a8ffedcce0903fc4900beace4e0abf192d4c202da3"),
        constructor_calldata: vec![dec("0")],
        transaction_hash: hex("0x356893f6716b2817ebb7b817ef8d5d6bfa0e10b14ad1bac654119f09f5b892c"),
        version: hex("0x1"),
    }
}

#[test]
fn computation() {
    let skipped = block_854_idx_96();
    assert!(compute_transaction_hash(&skipped, ChainId::testnet()).hash().is_none());

    let deploy = Transaction::Deploy(testnet2_with_wrong_chain_id());
    assert_eq!(
        compute_transaction_hash(&deploy, ChainId::testnet()).hash().unwrap(),
        deploy.hash()
    );
}

#[test]
fn skipped() {
    assert!(verify(&block_854_idx_96(), ChainId::testnet(), BlockNumber(854)).unwrap());
}

#[test]
fn known_deploy_verifies() {
    let deploy = Transaction::Deploy(testnet2_with_wrong_chain_id());
    assert_eq!(verify(&deploy, ChainId::testnet(), BlockNumber(1)), Ok(false));
    // testnet2 blocks up to 21086 were hashed with testnet's id
    assert_eq!(verify(&deploy, ChainId::testnet2(), BlockNumber(21086)), Ok(false));
}

#[test]
fn known_deploy_fails_on_other_chain() {
    let deploy = Transaction::Deploy(testnet2_with_wrong_chain_id());
    let r = verify(&deploy, ChainId::mainnet(), BlockNumber(1));
    match r {
        Err(VerifyError::HashMismatch { expected, computed }) => {
            assert_eq!(expected, deploy.hash());
            assert_ne!(computed, deploy.hash());
        }
        other => panic!("unexpected {:?}", other),
    }
    assert!(verify(&deploy, ChainId::testnet2(), BlockNumber(21087)).is_err());
}

#[test]
fn verify2_turns_the_verdict_round() {
    let deploy = Transaction::Deploy(testnet2_with_wrong_chain_id());
    match verify2(&deploy, ChainId::testnet(), BlockNumber(7), 3) {
        Err(VerifyError::IndexedHashMismatch { block_number, txn_idx, expected, computed }) => {
            assert_eq!(block_number, BlockNumber(7));
            assert_eq!(txn_idx, 3);
            assert_eq!(expected, deploy.hash());
            assert_eq!(computed, deploy.hash());
        }
        other => panic!("unexpected {:?}", other),
    }
    assert_eq!(verify2(&deploy, ChainId::mainnet(), BlockNumber(7), 3), Ok(false));
    assert_eq!(verify2(&block_854_idx_96(), ChainId::testnet(), BlockNumber(854), 96), Ok(true));
}

#[test]
fn chain_id_boundary() {
    let t2 = ChainId::testnet2();
    assert_eq!(resolve_chain_id(t2, BlockNumber(0)), ChainId::testnet());
    assert_eq!(resolve_chain_id(t2, BlockNumber(21086)), ChainId::testnet());
    assert_eq!(resolve_chain_id(t2, BlockNumber(21087)), t2);
    assert_eq!(resolve_chain_id(ChainId::mainnet(), BlockNumber(5)), ChainId::mainnet());
    assert_eq!(resolve_chain_id(ChainId::testnet(), BlockNumber(21087)), ChainId::testnet());
}

#[test]
fn chain_ids_are_ascii_names() {
    assert_eq!(ChainId::mainnet().0, hex("0x534e5f4d41494e"));
    assert_eq!(ChainId::testnet().0, hex("0x534e5f474f45524c49"));
    assert_eq!(ChainId::testnet2().0, hex("0x534e5f474f45524c4932"));
}

#[test]
fn empty_chain_is_pedersen_of_zeros() {
    let h = HashChain::new().finalize();
    assert_eq!(h, hex("0x049ee3eba8c1600700ee1b87eb599f16716b0b1022947733551fde4050ca6804"));
    assert_eq!(hash_of_list(&[]), h);
}

#[test]
fn chain_depends_on_order_and_length() {
    let a = hex("0x1");
    let b = hex("0x2");
    let ab = hash_of_list(&[a, b]);
    assert_ne!(ab, hash_of_list(&[b, a]));
    assert_ne!(ab, hash_of_list(&[a, b, Felt::zero()]));
    let mut h = HashChain::new();
    h.update(a);
    h.update(b);
    assert_eq!(h.finalize(), ab);
}

#[test]
fn constructor_selector() {
    assert_eq!(
        constructor_entry_point(),
        hex("0x28ffe4ff0f226a9107253e17a904099aa4f63a02a5621de0576e5aa71bc5194")
    );
}

#[test]
fn felt_range() {
    let modulus = [
        0x08u8, 0, 0, 0, 0, 0, 0, 0x11, 0, 0, 0, 0, 0, 0, 0, 0, 0, 0, 0, 0, 0, 0, 0, 0, 0, 0, 0,
        0, 0, 0, 0, 1,
    ];
    assert!(Felt::from_be_bytes(modulus).is_err());
    let mut below = modulus;
    below[31] = 0;
    assert!(Felt::from_be_bytes(below).is_ok());
    assert!(Felt::from_be_bytes([0xff; 32]).is_err());
    assert!(Felt::from_be_slice(&[1u8; 33]).is_err());
    assert_eq!(Felt::from_be_slice(b"invoke").unwrap(), hex("0x696e766f6b65"));
    assert_eq!(Felt::from_u64(258), hex("0x102"));
    assert_eq!(Felt::from_short_string(b"deploy"), hex("0x6465706c6f79"));
}

#[test]
fn deploy_falls_back_to_legacy() {
    let mut t = testnet2_with_wrong_chain_id();
    t.transaction_hash = Felt::zero();
    let legacy = compute_transaction_hash(&Transaction::Deploy(t.clone()), ChainId::testnet())
        .hash()
        .unwrap();
    assert_ne!(legacy, testnet2_with_wrong_chain_id().transaction_hash);
    t.transaction_hash = legacy;
    let txn = Transaction::Deploy(t);
    assert_eq!(verify(&txn, ChainId::testnet(), BlockNumber(1)), Ok(false));
    assert!(matches!(
        compute_transaction_hash(&txn, ChainId::testnet()),
        ComputedTransactionHash::Deploy(_)
    ));
}

fn invoke_v0() -> InvokeTransactionV0 {
    InvokeTransactionV0 {
        calldata: vec![hex("0x5"), hex("0x6")],
        sender_address: hex("0x1234"),
        entry_point_selector: hex("0x99"),
        entry_point_type: Some(EntryPointType::External),
        max_fee: hex("0x10"),
        transaction_hash: Felt::zero(),
    }
}

#[test]
fn invoke_v0_falls_back_to_legacy() {
    let mut t = invoke_v0();
    let legacy =
        compute_transaction_hash(&Transaction::Invoke(InvokeTransaction::V0(t.clone())), ChainId::testnet())
            .hash()
            .unwrap();
    t.transaction_hash = legacy;
    let txn = Transaction::Invoke(InvokeTransaction::V0(t.clone()));
    assert_eq!(verify(&txn, ChainId::testnet(), BlockNumber(1)), Ok(false));
    // the legacy formula leaves out the fee: another fee gives the same hash
    t.max_fee = hex("0x20");
    let txn = Transaction::Invoke(InvokeTransaction::V0(t));
    assert_eq!(verify(&txn, ChainId::testnet(), BlockNumber(1)), Ok(false));
}

#[test]
fn invoke_v0_marked_l1_handler_is_skipped() {
    let mut t = invoke_v0();
    t.entry_point_type = Some(EntryPointType::L1Handler);
    let txn = Transaction::Invoke(InvokeTransaction::V0(t.clone()));
    assert_eq!(
        compute_transaction_hash(&txn, ChainId::testnet()),
        ComputedTransactionHash::InvokeV0(None)
    );
    assert_eq!(verify(&txn, ChainId::mainnet(), BlockNumber(100)), Ok(true));
    t.entry_point_type = None;
    let txn = Transaction::Invoke(InvokeTransaction::V0(t));
    assert!(verify(&txn, ChainId::testnet(), BlockNumber(1)).is_err());
}

#[test]
fn l1_handler_falls_back_to_invoke_prefix() {
    let t = L1HandlerTransaction {
        contract_address: hex("0x1234"),
        entry_point_selector: hex("0x99"),
        nonce: hex("0x3"),
        calldata: vec![hex("0x5"), hex("0x6")],
        transaction_hash: Felt::zero(),
        version: Felt::zero(),
    };
    let legacy = compute_transaction_hash(&Transaction::L1Handler(t.clone()), ChainId::testnet())
        .hash()
        .unwrap();
    // same fields as an invoke of version 0: the legacy formulas agree
    let as_invoke = InvokeTransactionV0 {
        calldata: t.calldata.clone(),
        sender_address: t.contract_address,
        entry_point_selector: t.entry_point_selector,
        entry_point_type: None,
        max_fee: Felt::zero(),
        transaction_hash: Felt::zero(),
    };
    let invoke_legacy = compute_transaction_hash(
        &Transaction::Invoke(InvokeTransaction::V0(as_invoke)),
        ChainId::testnet(),
    )
    .hash()
    .unwrap();
    assert_eq!(legacy, invoke_legacy);
    let mut t2 = t;
    t2.transaction_hash = legacy;
    assert_eq!(verify(&Transaction::L1Handler(t2), ChainId::testnet(), BlockNumber(1)), Ok(false));
}

#[test]
fn every_kind_hashes_to_its_variant() {
    let d = DeclareTransactionV0V1 {
        class_hash: hex("0x11"),
        max_fee: hex("0x22"),
        nonce: hex("0x1"),
        sender_address: hex("0x33"),
        transaction_hash: Felt::zero(),
    };
    let d2 = DeclareTransactionV2 {
        class_hash: hex("0x11"),
        max_fee: hex("0x22"),
        nonce: hex("0x1"),
        sender_address: hex("0x33"),
        transaction_hash: Felt::zero(),
        compiled_class_hash: hex("0x44"),
    };
    let da = DeployAccountTransaction {
        contract_address: hex("0x55"),
        transaction_hash: Felt::zero(),
        max_fee: hex("0x22"),
        version: hex("0x1"),
        nonce: Felt::zero(),
        contract_address_salt: hex("0x66"),
        constructor_calldata: vec![hex("0x7")],
        class_hash: hex("0x11"),
    };
    let i1 = InvokeTransactionV1 {
        calldata: vec![hex("0x7")],
        sender_address: hex("0x33"),
        max_fee: hex("0x22"),
        nonce: hex("0x1"),
        transaction_hash: Felt::zero(),
    };
    let c = ChainId::testnet();
    let v0 = compute_transaction_hash(&Transaction::Declare(DeclareTransaction::V0(d.clone())), c);
    let v1 = compute_transaction_hash(&Transaction::Declare(DeclareTransaction::V1(d)), c);
    let v2 = compute_transaction_hash(&Transaction::Declare(DeclareTransaction::V2(d2)), c);
    let a = compute_transaction_hash(&Transaction::DeployAccount(da), c);
    let i = compute_transaction_hash(&Transaction::Invoke(InvokeTransaction::V1(i1)), c);
    assert!(matches!(v0, ComputedTransactionHash::DeclareV0(_)));
    assert!(matches!(v1, ComputedTransactionHash::DeclareV1(_)));
    assert!(matches!(v2, ComputedTransactionHash::DeclareV2(_)));
    assert!(matches!(a, ComputedTransactionHash::DeployAccount(_)));
    assert!(matches!(i, ComputedTransactionHash::InvokeV1(_)));
    let all = [v0.hash(), v1.hash(), v2.hash(), a.hash(), i.hash()];
    for x in 0..all.len() {
        for y in 0..x {
            assert_ne!(all[x], all[y]);
        }
    }
}

#[test]
fn per_kind_functions_agree_with_dispatch() {
    let c = ChainId::testnet();
    let d = testnet2_with_wrong_chain_id();
    assert_eq!(compute_deploy_hash(&d, c), compute_transaction_hash(&Transaction::Deploy(d.clone()), c));
    assert_eq!(compute_deploy_hash(&d, c).hash(), Some(d.transaction_hash));
    let i = invoke_v0();
    assert_eq!(
        compute_invoke_v0_hash(&i, c),
        compute_transaction_hash(&Transaction::Invoke(InvokeTransaction::V0(i.clone())), c)
    );
    let mut marked = i;
    marked.entry_point_type = Some(EntryPointType::L1Handler);
    assert_eq!(compute_invoke_v0_hash(&marked, ChainId::mainnet()), ComputedTransactionHash::InvokeV0(None));
    let l = L1HandlerTransaction {
        contract_address: hex("0x1234"),
        entry_point_selector: hex("0x99"),
        nonce: hex("0x3"),
        calldata: vec![],
        transaction_hash: Felt::zero(),
        version: Felt::zero(),
    };
    assert_eq!(
        compute_l1_handler_hash(&l, c),
        compute_transaction_hash(&Transaction::L1Handler(l.clone()), c)
    );
}

#[test]
fn full_width_slice_below_modulus() {
    let mut bytes = [0u8; 32];
    bytes[0] = 0x07;
    bytes[31] = 0xff;
    let f = Felt::from_be_slice(&bytes).unwrap();
    assert_eq!(f.to_be_bytes(), bytes);
}
