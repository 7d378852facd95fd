use near_primitives_core::types::AccountId;
use near_receipts::account::{AccessKey, AccessKeyPermission, FunctionCallPermission};
use near_receipts::crypto::PublicKey;
use near_receipts::errors::ReceiptError;
use near_receipts::hash::CryptoHash;
use near_receipts::receipt::DataReceiver;
use near_receipts::receipt_manager::{FunctionCallActionIndex, GasWeight, ReceiptManager};
use near_receipts::transaction::Action;

fn account(name: &str) -> AccountId {
    name.parse().unwrap()
}

fn data_id(receipt_index: u64, position: u64) -> CryptoHash {
    let mut bytes = [0u8; 32];
    bytes[..8].copy_from_slice(&receipt_index.to_le_bytes());
    bytes[8..16].copy_from_slice(&position.to_le_bytes());
    CryptoHash(bytes)
}

fn ed25519_encoding() -> Vec<u8> {
    let mut bytes = vec![0u8];
    bytes.extend(1..=32u8);
    bytes
}

fn ed25519_key() -> PublicKey {
    let mut data = [0u8; 32];
    for (i, byte) in data.iter_mut().enumerate() {
        *byte = i as u8 + 1;
    }
    PublicKey::ED25519(data)
}

fn secp256k1_encoding() -> Vec<u8> {
    let mut bytes = vec![1u8];
    bytes.extend(100..164u8);
    bytes
}

fn secp256k1_key() -> PublicKey {
    let mut data = [0u8; 64];
    for (i, byte) in data.iter_mut().enumerate() {
        *byte = i as u8 + 100;
    }
    PublicKey::SECP256K1(data)
}

#[test]
fn fresh_manager_is_empty() {
    let manager = ReceiptManager::default();
    assert!(manager.action_receipts().is_empty());
    assert!(manager.gas_weights().is_empty());
    assert_eq!(manager.get_receipt_receiver(0), None);
}

#[test]
fn receivers_keep_their_index() {
    let mut manager = ReceiptManager::default();
    assert_eq!(manager.create_receipt(vec![], account("alice")), Ok(0));
    assert_eq!(manager.create_receipt(vec![0], account("bob")), Ok(1));
    manager.append_action_transfer(0, 7).unwrap();
    manager.append_action_create_account(1).unwrap();
    assert_eq!(manager.create_receipt(vec![1, 0], account("carol")), Ok(2));
    assert_eq!(
        manager.create_receipt(vec![7], account("dave")),
        Err(ReceiptError::InvalidReceiptIndex { receipt_index: 7 })
    );
    assert_eq!(manager.get_receipt_receiver(0), Some(&account("alice")));
    assert_eq!(manager.get_receipt_receiver(1), Some(&account("bob")));
    assert_eq!(manager.get_receipt_receiver(2), Some(&account("carol")));
    assert_eq!(manager.get_receipt_receiver(3), None);
    assert_eq!(manager.get_receipt_receiver(u64::MAX), None);
}

#[test]
fn data_edge_links_predecessor_and_successor() {
    let mut manager = ReceiptManager::default();
    let r0 = manager.create_receipt(vec![], account("alice")).unwrap();
    let r1 = manager.create_receipt(vec![r0], account("carol")).unwrap();
    let receipts = manager.action_receipts();
    let inputs = &receipts[r1 as usize].1.input_data_ids;
    let outputs = &receipts[r0 as usize].1.output_data_receivers;
    assert_eq!(inputs.len(), 1);
    assert_eq!(outputs.len(), 1);
    assert_eq!(outputs[0].data_id, inputs[0]);
    assert_eq!(outputs[0].receiver_id, account("carol"));
    assert!(receipts[r0 as usize].1.input_data_ids.is_empty());
    assert!(receipts[r1 as usize].1.output_data_receivers.is_empty());
    assert!(receipts[r1 as usize].1.actions.is_empty());
}

#[test]
fn data_ids_name_their_place_and_differ() {
    let mut manager = ReceiptManager::default();
    manager.create_receipt(vec![], account("alice")).unwrap();
    manager.create_receipt(vec![0], account("bob")).unwrap();
    manager.create_receipt(vec![1, 0, 1], account("carol")).unwrap();
    let receipts = manager.action_receipts();
    assert_eq!(receipts[1].1.input_data_ids, vec![data_id(0, 0)]);
    assert_eq!(receipts[2].1.input_data_ids, vec![data_id(1, 0), data_id(0, 1), data_id(1, 1)]);
    assert_eq!(
        receipts[0].1.output_data_receivers,
        vec![
            DataReceiver { data_id: data_id(0, 0), receiver_id: account("bob") },
            DataReceiver { data_id: data_id(0, 1), receiver_id: account("carol") },
        ]
    );
    assert_eq!(
        receipts[1].1.output_data_receivers,
        vec![
            DataReceiver { data_id: data_id(1, 0), receiver_id: account("carol") },
            DataReceiver { data_id: data_id(1, 1), receiver_id: account("carol") },
        ]
    );
    assert_eq!(data_id(0, 0), CryptoHash::default());
    let mut expected = [0u8; 32];
    expected[0] = 1;
    expected[8] = 1;
    assert_eq!(receipts[2].1.input_data_ids[2], CryptoHash(expected));
}

#[test]
fn actions_keep_the_order_of_appending() {
    let mut manager = ReceiptManager::default();
    manager.create_receipt(vec![], account("alice")).unwrap();
    let a1 = Action::CreateAccount;
    let a2 = Action::Transfer { deposit: 5 };
    let a3 = Action::DeleteAccount { beneficiary_id: account("bob") };
    assert_eq!(manager.append_action(0, a1.clone()), Ok(0));
    assert_eq!(manager.append_action(0, a2.clone()), Ok(1));
    assert_eq!(manager.append_action(0, a3.clone()), Ok(2));
    assert_eq!(manager.action_receipts()[0].1.actions, vec![a1, a2, a3]);
}

#[test]
fn append_action_needs_the_receipt() {
    let mut manager = ReceiptManager::default();
    assert_eq!(
        manager.append_action(0, Action::CreateAccount),
        Err(ReceiptError::InvalidReceiptIndex { receipt_index: 0 })
    );
    assert!(manager.action_receipts().is_empty());
}

#[test]
fn invalid_method_name_appends_nothing() {
    let mut manager = ReceiptManager::default();
    let r = manager.create_receipt(vec![], account("alice")).unwrap();
    manager.append_action_transfer(r, 1).unwrap();
    assert_eq!(
        manager.append_action_function_call(r, vec![0xff, 0xfe], vec![], 0, 1000),
        Err(ReceiptError::InvalidMethodName)
    );
    assert_eq!(manager.action_receipts()[0].1.actions.len(), 1);
    assert_eq!(
        manager.append_action_function_call_weight(r, vec![0xc0], vec![], 0, 1000, GasWeight(5)),
        Err(ReceiptError::InvalidMethodName)
    );
    assert_eq!(manager.action_receipts()[0].1.actions.len(), 1);
    assert!(manager.gas_weights().is_empty());
}

#[test]
fn invalid_method_name_is_reported_before_the_index() {
    let mut manager = ReceiptManager::default();
    assert_eq!(
        manager.append_action_function_call(3, vec![0xff], vec![], 0, 0),
        Err(ReceiptError::InvalidMethodName)
    );
    assert_eq!(
        manager.append_action_function_call(3, b"f".to_vec(), vec![], 0, 0),
        Err(ReceiptError::InvalidReceiptIndex { receipt_index: 3 })
    );
}

#[test]
fn missing_predecessor_registers_nothing() {
    let mut manager = ReceiptManager::default();
    let r0 = manager.create_receipt(vec![], account("alice")).unwrap();
    manager.create_receipt(vec![r0], account("carol")).unwrap();
    let before = manager.action_receipts()[0].1.output_data_receivers.clone();
    assert_eq!(
        manager.create_receipt(vec![r0, 9999], account("bob")),
        Err(ReceiptError::InvalidReceiptIndex { receipt_index: 9999 })
    );
    assert_eq!(manager.action_receipts()[0].1.output_data_receivers, before);
    assert_eq!(manager.action_receipts().len(), 2);
}

#[test]
fn first_missing_predecessor_is_reported() {
    let mut manager = ReceiptManager::default();
    manager.create_receipt(vec![], account("alice")).unwrap();
    assert_eq!(
        manager.create_receipt(vec![0, 5, 3], account("bob")),
        Err(ReceiptError::InvalidReceiptIndex { receipt_index: 5 })
    );
    assert_eq!(
        manager.create_receipt(vec![1], account("bob")),
        Err(ReceiptError::InvalidReceiptIndex { receipt_index: 1 })
    );
}

#[test]
fn zero_weight_is_not_recorded() {
    let mut manager = ReceiptManager::default();
    let r = manager.create_receipt(vec![], account("alice")).unwrap();
    manager
        .append_action_function_call_weight(r, b"f".to_vec(), vec![], 0, 1000, GasWeight(0))
        .unwrap();
    assert!(manager.gas_weights().is_empty());
    assert_eq!(
        manager.action_receipts()[0].1.actions,
        vec![Action::FunctionCall {
            method_name: "f".to_string(),
            args: vec![],
            gas: 1000,
            deposit: 0
        }]
    );
}

#[test]
fn positive_weight_is_recorded_once() {
    let mut manager = ReceiptManager::default();
    let r = manager.create_receipt(vec![], account("alice")).unwrap();
    manager.append_action_transfer(r, 1).unwrap();
    manager
        .append_action_function_call_weight(r, b"f".to_vec(), vec![], 0, 1000, GasWeight(5))
        .unwrap();
    assert_eq!(
        manager.gas_weights(),
        &vec![(FunctionCallActionIndex { receipt_index: 0, action_index: 1 }, GasWeight(5))]
    );
    assert_eq!(manager.action_receipts()[0].1.actions.len(), 2);
}

#[test]
fn weighted_call_needs_the_receipt() {
    let mut manager = ReceiptManager::default();
    assert_eq!(
        manager.append_action_function_call_weight(0, b"f".to_vec(), vec![], 0, 1, GasWeight(5)),
        Err(ReceiptError::InvalidReceiptIndex { receipt_index: 0 })
    );
    assert!(manager.gas_weights().is_empty());
}

#[test]
fn transfer_end_to_end() {
    let mut manager = ReceiptManager::default();
    assert_eq!(manager.create_receipt(vec![], account("bob")), Ok(0));
    assert_eq!(manager.append_action_transfer(0, 100), Ok(()));
    assert_eq!(manager.get_receipt_receiver(0), Some(&account("bob")));
    assert_eq!(manager.action_receipts()[0].1.actions, vec![Action::Transfer { deposit: 100 }]);
}

#[test]
fn function_call_keeps_its_arguments() {
    let mut manager = ReceiptManager::default();
    manager.create_receipt(vec![], account("alice")).unwrap();
    manager
        .append_action_function_call(0, "héllo".as_bytes().to_vec(), vec![1, 2, 3], 77, 1000)
        .unwrap();
    assert_eq!(
        manager.action_receipts()[0].1.actions,
        vec![Action::FunctionCall {
            method_name: "héllo".to_string(),
            args: vec![1, 2, 3],
            gas: 1000,
            deposit: 77
        }]
    );
}

#[test]
fn plain_actions_are_appended() {
    let mut manager = ReceiptManager::default();
    manager.create_receipt(vec![], account("alice")).unwrap();
    manager.append_action_create_account(0).unwrap();
    manager.append_action_deploy_contract(0, vec![9, 8, 7]).unwrap();
    manager.append_action_delete_account(0, account("bob")).unwrap();
    assert_eq!(
        manager.action_receipts()[0].1.actions,
        vec![
            Action::CreateAccount,
            Action::DeployContract { code: vec![9, 8, 7] },
            Action::DeleteAccount { beneficiary_id: account("bob") },
        ]
    );
    assert_eq!(
        manager.append_action_create_account(1),
        Err(ReceiptError::InvalidReceiptIndex { receipt_index: 1 })
    );
    assert_eq!(
        manager.append_action_deploy_contract(1, vec![]),
        Err(ReceiptError::InvalidReceiptIndex { receipt_index: 1 })
    );
    assert_eq!(
        manager.append_action_transfer(1, 0),
        Err(ReceiptError::InvalidReceiptIndex { receipt_index: 1 })
    );
    assert_eq!(
        manager.append_action_delete_account(1, account("bob")),
        Err(ReceiptError::InvalidReceiptIndex { receipt_index: 1 })
    );
    assert_eq!(manager.action_receipts()[0].1.actions.len(), 3);
}

#[test]
fn stake_decodes_the_key() {
    let mut manager = ReceiptManager::default();
    manager.create_receipt(vec![], account("alice")).unwrap();
    manager.append_action_stake(0, 500, ed25519_encoding()).unwrap();
    manager.append_action_stake(0, 600, secp256k1_encoding()).unwrap();
    assert_eq!(
        manager.action_receipts()[0].1.actions,
        vec![
            Action::Stake { stake: 500, public_key: ed25519_key() },
            Action::Stake { stake: 600, public_key: secp256k1_key() },
        ]
    );
}

#[test]
fn malformed_keys_are_refused() {
    let mut manager = ReceiptManager::default();
    manager.create_receipt(vec![], account("alice")).unwrap();
    let mut unknown_curve = ed25519_encoding();
    unknown_curve[0] = 2;
    let mut too_long = ed25519_encoding();
    too_long.push(0);
    let mut too_short = secp256k1_encoding();
    too_short.pop();
    let mut wrong_length = ed25519_encoding();
    wrong_length[0] = 1;
    for bytes in [vec![], vec![0], unknown_curve, too_long, too_short, wrong_length] {
        assert_eq!(
            manager.append_action_stake(0, 1, bytes.clone()),
            Err(ReceiptError::InvalidPublicKey)
        );
        assert_eq!(
            manager.append_action_delete_key(0, bytes.clone()),
            Err(ReceiptError::InvalidPublicKey)
        );
        assert_eq!(
            manager.append_action_add_key_with_full_access(0, bytes.clone(), 1),
            Err(ReceiptError::InvalidPublicKey)
        );
        assert_eq!(
            manager.append_action_add_key_with_function_call(
                0,
                bytes,
                1,
                None,
                account("bob"),
                vec![vec![0xff]]
            ),
            Err(ReceiptError::InvalidPublicKey)
        );
    }
    assert!(manager.action_receipts()[0].1.actions.is_empty());
}

#[test]
fn keys_are_added_and_deleted() {
    let mut manager = ReceiptManager::default();
    manager.create_receipt(vec![], account("alice")).unwrap();
    manager.append_action_add_key_with_full_access(0, ed25519_encoding(), 3).unwrap();
    manager
        .append_action_add_key_with_function_call(
            0,
            secp256k1_encoding(),
            4,
            Some(1_000),
            account("bob"),
            vec![b"get".to_vec(), b"set".to_vec()],
        )
        .unwrap();
    manager.append_action_delete_key(0, ed25519_encoding()).unwrap();
    assert_eq!(
        manager.action_receipts()[0].1.actions,
        vec![
            Action::AddKey {
                public_key: ed25519_key(),
                access_key: AccessKey { nonce: 3, permission: AccessKeyPermission::FullAccess },
            },
            Action::AddKey {
                public_key: secp256k1_key(),
                access_key: AccessKey {
                    nonce: 4,
                    permission: AccessKeyPermission::FunctionCall(FunctionCallPermission {
                        allowance: Some(1_000),
                        receiver_id: account("bob"),
                        method_names: vec!["get".to_string(), "set".to_string()],
                    }),
                },
            },
            Action::DeleteKey { public_key: ed25519_key() },
        ]
    );
}

#[test]
fn one_invalid_method_name_refuses_the_key() {
    let mut manager = ReceiptManager::default();
    manager.create_receipt(vec![], account("alice")).unwrap();
    assert_eq!(
        manager.append_action_add_key_with_function_call(
            0,
            ed25519_encoding(),
            1,
            None,
            account("bob"),
            vec![b"get".to_vec(), vec![0x80], b"set".to_vec()],
        ),
        Err(ReceiptError::InvalidMethodName)
    );
    assert!(manager.action_receipts()[0].1.actions.is_empty());
    assert_eq!(
        manager.append_action_add_key_with_function_call(
            1,
            ed25519_encoding(),
            1,
            None,
            account("bob"),
            vec![],
        ),
        Err(ReceiptError::InvalidReceiptIndex { receipt_index: 1 })
    );
    assert_eq!(
        manager.append_action_stake(1, 1, ed25519_encoding()),
        Err(ReceiptError::InvalidReceiptIndex { receipt_index: 1 })
    );
    assert_eq!(
        manager.append_action_delete_key(1, ed25519_encoding()),
        Err(ReceiptError::InvalidReceiptIndex { receipt_index: 1 })
    );
    assert_eq!(
        manager.append_action_add_key_with_full_access(1, ed25519_encoding(), 1),
        Err(ReceiptError::InvalidReceiptIndex { receipt_index: 1 })
    );
}
