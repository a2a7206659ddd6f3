use account_registry::contract::{
    execute, execute_init_wallet, execute_set_password, get_balance, instantiate, query,
    update_balance, ContractError, Response,
};
use account_registry::msg::{ExecuteMsg, InstantiateMsg, QueryMsg};
use account_registry::state::{
    decode_account, encode_account, load, load_account, remove, save, store_account, Account,
    AccountStore,
};
use secret_toolkit::crypto::sha_256;

fn init(store: &mut AccountStore, who: &str, pw: Option<&str>) -> Result<Response, ContractError> {
    execute_init_wallet(
        store,
        &who.to_string(),
        &who.to_string(),
        &pw.map(|p| p.to_string()),
    )
}

#[test]
fn instantiate_returns_empty_success() {
    let r = instantiate(&InstantiateMsg {}).unwrap();
    assert_eq!(r.attributes.len(), 0);
}

#[test]
fn init_wallet_succeeds_then_already_exists() {
    let mut store = AccountStore::new();
    let r = init(&mut store, "alice", None).unwrap();
    assert_eq!(r.attributes.len(), 2);
    assert_eq!(r.attributes[0].key, "action");
    assert_eq!(r.attributes[0].value, "init_wallet");
    assert_eq!(r.attributes[1].key, "address");
    assert_eq!(r.attributes[1].value, "alice");
    let again = init(&mut store, "alice", None);
    assert_eq!(again.unwrap_err(), ContractError::AccountAlreadyExists);
}

#[test]
fn init_wallet_for_other_address_unauthorized() {
    let mut store = AccountStore::new();
    let r = execute_init_wallet(&mut store, &"alice".to_string(), &"bob".to_string(), &None);
    assert_eq!(r.unwrap_err(), ContractError::Unauthorized);
    // storage was left unchanged: bob still has no account
    let q = get_balance(&store, &"bob".to_string());
    assert_eq!(q.unwrap_err(), ContractError::AccountNotFound(b"bob".to_vec()));
}

#[test]
fn fresh_wallet_reads_zero_balance() {
    let mut store = AccountStore::new();
    init(&mut store, "alice", None).unwrap();
    let resp = get_balance(&store, &"alice".to_string()).unwrap();
    assert_eq!(resp.address, "alice");
    assert_eq!(resp.balance, 0u128);
}

#[test]
fn first_time_set_password_then_wrong_current_rejected() {
    let mut store = AccountStore::new();
    init(&mut store, "alice", None).unwrap();
    let alice = "alice".to_string();
    execute_set_password(&mut store, &alice, &None, &"x".to_string()).unwrap();
    let stored = load_account(&store, &b"alice".to_vec()).unwrap();
    assert_eq!(stored.password_hash, Some(sha_256(b"x").to_vec()));
    let wrong = execute_set_password(
        &mut store,
        &alice,
        &Some("wrong".to_string()),
        &"y".to_string(),
    );
    assert_eq!(wrong.unwrap_err(), ContractError::Unauthorized);
    // the stored digest is still the digest of "x"
    let stored = load_account(&store, &b"alice".to_vec()).unwrap();
    assert_eq!(stored.password_hash, Some(sha_256(b"x").to_vec()));
}

#[test]
fn password_rotation_then_superseded_password_rejected() {
    let mut store = AccountStore::new();
    init(&mut store, "alice", Some("x")).unwrap();
    let alice = "alice".to_string();
    let r = execute_set_password(&mut store, &alice, &Some("x".to_string()), &"y".to_string());
    assert!(r.is_ok());
    let stored = load_account(&store, &b"alice".to_vec()).unwrap();
    assert_eq!(stored.password_hash, Some(sha_256(b"y").to_vec()));
    let old = execute_set_password(&mut store, &alice, &Some("x".to_string()), &"z".to_string());
    assert_eq!(old.unwrap_err(), ContractError::Unauthorized);
}

#[test]
fn set_password_without_account_not_found() {
    let mut store = AccountStore::new();
    let r = execute_set_password(&mut store, &"ghost".to_string(), &None, &"x".to_string());
    assert_eq!(r.unwrap_err(), ContractError::AccountNotFound(b"ghost".to_vec()));
}

#[test]
fn update_balance_rejects_underflow_and_decrements_exactly() {
    let mut store = AccountStore::new();
    let account = Account { address: b"alice".to_vec(), balance: 100u128, password_hash: None };
    store_account(&mut store, &account).unwrap();
    let alice = "alice".to_string();
    let too_much = update_balance(&mut store, &alice, 101u128);
    assert_eq!(too_much.unwrap_err(), ContractError::InsufficientFunds);
    assert_eq!(get_balance(&store, &alice).unwrap().balance, 100u128);
    update_balance(&mut store, &alice, 30u128).unwrap();
    assert_eq!(get_balance(&store, &alice).unwrap().balance, 70u128);
}

#[test]
fn update_balance_on_missing_account_not_found() {
    let mut store = AccountStore::new();
    let r = update_balance(&mut store, &"ghost".to_string(), 1u128);
    assert_eq!(r.unwrap_err(), ContractError::AccountNotFound(b"ghost".to_vec()));
}

#[test]
fn update_balance_can_drain_largest_balance() {
    let mut store = AccountStore::new();
    let account = Account { address: b"a".to_vec(), balance: u128::MAX, password_hash: None };
    store_account(&mut store, &account).unwrap();
    update_balance(&mut store, &"a".to_string(), u128::MAX).unwrap();
    assert_eq!(get_balance(&store, &"a".to_string()).unwrap().balance, 0u128);
}

#[test]
fn store_then_load_returns_identical_record() {
    let mut store = AccountStore::new();
    let account = Account {
        address: b"alice".to_vec(),
        balance: 42u128,
        password_hash: Some(vec![7u8; 32]),
    };
    store_account(&mut store, &account).unwrap();
    let loaded = load_account(&store, &b"alice".to_vec()).unwrap();
    assert_eq!(loaded, account);
}

#[test]
fn save_then_load_by_key_round_trips() {
    let mut store = AccountStore::new();
    let account = Account { address: b"k".to_vec(), balance: 5u128, password_hash: None };
    save(&mut store, &b"k".to_vec(), &account).unwrap();
    let loaded = load(&store, &b"k".to_vec()).unwrap();
    assert_eq!(loaded, account);
}

#[test]
fn remove_then_load_not_found() {
    let mut store = AccountStore::new();
    let account = Account { address: b"alice".to_vec(), balance: 1u128, password_hash: None };
    store_account(&mut store, &account).unwrap();
    remove(&mut store, &b"alice".to_vec()).unwrap();
    let r = load_account(&store, &b"alice".to_vec());
    assert_eq!(r.unwrap_err(), ContractError::AccountNotFound(b"alice".to_vec()));
}

#[test]
fn encode_has_exact_layout() {
    let account = Account { address: vec![1u8, 2u8], balance: 3u128, password_hash: None };
    let bytes = encode_account(&account);
    let mut expected = vec![2u8, 0, 0, 0, 0, 0, 0, 0]; // address length, little endian
    expected.extend_from_slice(&[1u8, 2u8]); // address
    expected.extend_from_slice(&[3u8, 0, 0, 0, 0, 0, 0, 0, 0, 0, 0, 0, 0, 0, 0, 0]); // balance
    expected.push(0u8); // no password
    assert_eq!(bytes, expected);
}

#[test]
fn encode_decode_round_trips_with_password() {
    let account = Account {
        address: b"someone".to_vec(),
        balance: u128::MAX,
        password_hash: Some(sha_256(b"pw").to_vec()),
    };
    let bytes = encode_account(&account);
    let decoded = decode_account(&bytes).unwrap();
    assert_eq!(decoded, account);
}

#[test]
fn decode_corrupt_bytes_reports_storage_error() {
    assert!(matches!(
        decode_account(&Vec::new()).unwrap_err(),
        ContractError::Std(_)
    ));
    // long enough, but the tag byte is neither 0 nor 1
    let account = Account { address: b"a".to_vec(), balance: 0u128, password_hash: None };
    let mut bytes = encode_account(&account);
    let last = bytes.len() - 1;
    bytes[last] = 9u8;
    assert!(matches!(decode_account(&bytes).unwrap_err(), ContractError::Std(_)));
    // trailing garbage after a well-formed record
    let mut bytes = encode_account(&account);
    bytes.push(0u8);
    assert!(matches!(decode_account(&bytes).unwrap_err(), ContractError::Std(_)));
}

#[test]
fn get_balance_missing_account_not_found() {
    let store = AccountStore::new();
    let r = get_balance(&store, &"ghost".to_string());
    assert_eq!(r.unwrap_err(), ContractError::AccountNotFound(b"ghost".to_vec()));
}

#[test]
fn execute_dispatches_init_wallet_and_set_password() {
    let mut store = AccountStore::new();
    let alice = "alice".to_string();
    let msg = ExecuteMsg::InitWallet { address: "alice".to_string(), password: Some("pw".to_string()) };
    let r = execute(&mut store, &alice, &msg).unwrap();
    assert_eq!(r.attributes.len(), 2);
    let stored = load_account(&store, &b"alice".to_vec()).unwrap();
    assert_eq!(stored.password_hash, Some(sha_256(b"pw").to_vec()));
    let msg = ExecuteMsg::SetPassword {
        current_password: Some("pw".to_string()),
        new_password: "pw2".to_string(),
    };
    let r = execute(&mut store, &alice, &msg).unwrap();
    assert_eq!(r.attributes.len(), 0);
    let stored = load_account(&store, &b"alice".to_vec()).unwrap();
    assert_eq!(stored.password_hash, Some(sha_256(b"pw2").to_vec()));
}

#[test]
fn query_dispatches_get_balance() {
    let mut store = AccountStore::new();
    init(&mut store, "alice", None).unwrap();
    let msg = QueryMsg::GetBalance { address: "alice".to_string() };
    let resp = query(&store, &msg).unwrap();
    assert_eq!(resp.address, "alice");
    assert_eq!(resp.balance, 0u128);
}

#[test]
fn empty_address_can_register_itself() {
    let mut store = AccountStore::new();
    let r = init(&mut store, "", None);
    assert!(r.is_ok());
    assert_eq!(get_balance(&store, &"".to_string()).unwrap().balance, 0u128);
}
