//! The account service: operation dispatch, authorization, and the password
//! and balance rules, stated as transitions over the abstract account map.

use vstd::prelude::*;
use vstd::slice::slice_to_vec;
use vstd::utf8::encode_utf8;

use crate::msg::{AccountResponse, ExecuteMsg, InstantiateMsg, QueryMsg};
use crate::state::{
    load_account, store_account, Account, AccountStore, AccountV, DIGEST_LEN,
};

verus! {

/// The error surface of the service. Every failure of an operation is one of
/// these, and the contracts below say exactly which inputs produce which.
/// `Std` wraps a message from the host storage layer verbatim.
#[derive(Clone, Debug, PartialEq, Eq)]
pub enum ContractError {
    Std(String),
    Unauthorized,
    InsufficientFunds,
    AccountNotFound(Vec<u8>),
    AccountAlreadyExists,
}

/// Abstract counterpart of `ContractError`, used by the transition
/// specifications: payloads are mathematical sequences.
pub enum ErrV {
    Std(Seq<char>),
    Unauthorized,
    InsufficientFunds,
    AccountNotFound(Seq<u8>),
    AccountAlreadyExists,
}

impl View for ContractError {
    type V = ErrV;

    open spec fn view(&self) -> ErrV {
        match self {
            ContractError::Std(m) => ErrV::Std(m@),
            ContractError::Unauthorized => ErrV::Unauthorized,
            ContractError::InsufficientFunds => ErrV::InsufficientFunds,
            ContractError::AccountNotFound(a) => ErrV::AccountNotFound(a@),
            ContractError::AccountAlreadyExists => ErrV::AccountAlreadyExists,
        }
    }
}

/// One audit attribute of an acknowledgement.
#[derive(Clone, Debug, PartialEq, Eq)]
pub struct Attribute {
    pub key: String,
    pub value: String,
}

/// Acknowledgement of a mutating operation: a list of audit attributes.
#[derive(Clone, Debug, PartialEq, Eq)]
pub struct Response {
    pub attributes: Vec<Attribute>,
}

/// The digest of a byte string, as the host's hash function computes it:
/// it depends on the input bytes alone.
pub uninterp spec fn digest_of(data: Seq<u8>) -> Seq<u8>;

/// Relies on `secret_toolkit::crypto::sha_256`: a 32-byte digest of the
/// input that depends on the input bytes alone.
#[verifier::external_body]
fn hash_password(p: &str) -> (r: Vec<u8>)
    ensures
        r@ == digest_of(encode_utf8(p@)),
        r@.len() == DIGEST_LEN,
{
    secret_toolkit::crypto::sha_256(p.as_bytes()).to_vec()
}

/// The digest stored for an optional password.
pub open spec fn pw_digest(p: Option<String>) -> Option<Seq<u8>> {
    match p {
        Some(s) => Some(digest_of(encode_utf8(s@))),
        None => None,
    }
}

/// Byte-for-byte equality of two byte vectors.
fn bytes_eq(a: &Vec<u8>, b: &Vec<u8>) -> (r: bool)
    ensures
        r == (a@ == b@),
{
    if a.len() != b.len() {
        return false;
    }
    let mut i: usize = 0;
    while i < a.len()
        invariant
            i <= a@.len(),
            a@.len() == b@.len(),
            forall|j: int| 0 <= j < i ==> a@[j] == b@[j],
        decreases a@.len() - i,
    {
        if a[i] != b[i] {
            return false;
        }
        i = i + 1;
    }
    proof {
        assert(a@ =~= b@);
    }
    true
}

/// Registration transition. `InitWallet` is self-sovereign: the caller may
/// only register the account bound to its own identity, exactly once, and
/// the new record starts with balance 0 and the optional password digest.
pub open spec fn init_wallet_spec(
    m: Map<Seq<u8>, AccountV>,
    caller: Seq<char>,
    target: Seq<char>,
    digest: Option<Seq<u8>>,
) -> Result<Map<Seq<u8>, AccountV>, ErrV> {
    let k = encode_utf8(target);
    if caller != target {
        Err(ErrV::Unauthorized)
    } else if m.dom().contains(k) {
        Err(ErrV::AccountAlreadyExists)
    } else {
        Ok(m.insert(k, AccountV { address: k, balance: 0u128, password_hash: digest }))
    }
}

/// Password transition. With no current password supplied the new digest is
/// set unconditionally (the first-time path deliberately has no protection
/// against overwriting an existing password); with one supplied, its digest
/// must match the stored hash byte for byte.
pub open spec fn set_password_spec(
    m: Map<Seq<u8>, AccountV>,
    caller: Seq<char>,
    current: Option<Seq<u8>>,
    new_digest: Seq<u8>,
) -> Result<Map<Seq<u8>, AccountV>, ErrV> {
    let k = encode_utf8(caller);
    if !m.dom().contains(k) {
        Err(ErrV::AccountNotFound(k))
    } else {
        let a = m[k];
        match current {
            None => Ok(m.insert(k, AccountV { password_hash: Some(new_digest), ..a })),
            Some(cd) => match a.password_hash {
                Some(h) => if cd == h {
                    Ok(m.insert(k, AccountV { password_hash: Some(new_digest), ..a }))
                } else {
                    Err(ErrV::Unauthorized)
                },
                None => Err(ErrV::Unauthorized),
            },
        }
    }
}

/// Balance transition: a withdrawal of `amount` from the caller's own
/// account, rejected when it would underflow.
pub open spec fn update_balance_spec(
    m: Map<Seq<u8>, AccountV>,
    caller: Seq<char>,
    amount: u128,
) -> Result<Map<Seq<u8>, AccountV>, ErrV> {
    let k = encode_utf8(caller);
    if !m.dom().contains(k) {
        Err(ErrV::AccountNotFound(k))
    } else if amount > m[k].balance {
        Err(ErrV::InsufficientFunds)
    } else {
        Ok(m.insert(k, AccountV { balance: (m[k].balance - amount) as u128, ..m[k] }))
    }
}

/// Balance query: the recorded balance of a registered address, and an
/// error — never a fabricated zero — for an unregistered one.
pub open spec fn get_balance_spec(m: Map<Seq<u8>, AccountV>, address: Seq<char>) -> Result<
    u128,
    ErrV,
> {
    let k = encode_utf8(address);
    if m.dom().contains(k) {
        Ok(m[k].balance)
    } else {
        Err(ErrV::AccountNotFound(k))
    }
}

/// The acknowledgement of a successful registration: the action name and
/// the registered address.
pub open spec fn init_wallet_ack(resp: Response, sender: Seq<char>) -> bool {
    &&& resp.attributes@.len() == 2
    &&& resp.attributes@[0].key@ == "action"@
    &&& resp.attributes@[0].value@ == "init_wallet"@
    &&& resp.attributes@[1].key@ == "address"@
    &&& resp.attributes@[1].value@ == sender
}

/// What a finished registration call guarantees, over the abstract account
/// maps before and after it.
pub open spec fn init_wallet_post(
    before: Map<Seq<u8>, AccountV>,
    after: Map<Seq<u8>, AccountV>,
    sender: Seq<char>,
    address: Seq<char>,
    digest: Option<Seq<u8>>,
    r: Result<Response, ContractError>,
) -> bool {
    match r {
        Ok(resp) => (init_wallet_spec(before, sender, address, digest) matches Ok(m2) && m2
            == after) && init_wallet_ack(resp, sender),
        Err(e) => after == before && (if e is Std {
            // a wrapped storage error arises only where the transition
            // itself had no reason to fail
            init_wallet_spec(before, sender, address, digest) is Ok
        } else {
            (init_wallet_spec(before, sender, address, digest) matches Err(ev) && ev == e@)
        }),
    }
}

/// What a finished password call guarantees.
pub open spec fn set_password_post(
    before: Map<Seq<u8>, AccountV>,
    after: Map<Seq<u8>, AccountV>,
    sender: Seq<char>,
    current: Option<Seq<u8>>,
    new_digest: Seq<u8>,
    r: Result<Response, ContractError>,
) -> bool {
    match r {
        Ok(resp) => (set_password_spec(before, sender, current, new_digest) matches Ok(m2) && m2
            == after) && resp.attributes@.len() == 0,
        Err(e) => after == before && (if e is Std {
            set_password_spec(before, sender, current, new_digest) is Ok
        } else {
            (set_password_spec(before, sender, current, new_digest) matches Err(ev) && ev == e@)
        }),
    }
}

/// Instantiation: always succeeds and does nothing.
pub fn instantiate(_msg: &InstantiateMsg) -> (r: Result<Response, ContractError>)
    ensures
        (r matches Ok(resp) && resp.attributes@.len() == 0),
{
    Ok(Response { attributes: Vec::new() })
}

/// Registers a wallet for `address` on behalf of `sender`: rejected unless
/// the caller registers its own address, and unless the address is free.
pub fn execute_init_wallet(
    store: &mut AccountStore,
    sender: &String,
    address: &String,
    password: &Option<String>,
) -> (r: Result<Response, ContractError>)
    requires
        old(store).wf(),
    ensures
        final(store).wf(),
        init_wallet_post(
            old(store).accounts(),
            final(store).accounts(),
            sender@,
            address@,
            pw_digest(*password),
            r,
        ),
{
    if !sender.eq(address) {
        return Err(ContractError::Unauthorized);
    }
    let target_key = slice_to_vec(address.as_str().as_bytes());
    match load_account(store, &target_key) {
        Ok(_) => Err(ContractError::AccountAlreadyExists),
        Err(_) => {
            let hash = match password {
                Some(p) => Some(hash_password(p.as_str())),
                None => None,
            };
            let account = Account { address: target_key, balance: 0u128, password_hash: hash };
            let address_len: usize = account.address.len();
            proof {
                // a vector's length fits in usize, so the record is well formed
                assert(account@.address.len() == address_len);
                assert(account@ =~= AccountV {
                    address: encode_utf8(address@),
                    balance: 0u128,
                    password_hash: pw_digest(*password),
                });
            }
            match store_account(store, &account) {
                Ok(()) => {
                    let mut attributes: Vec<Attribute> = Vec::new();
                    attributes.push(
                        Attribute { key: "action".to_owned(), value: "init_wallet".to_owned() },
                    );
                    attributes.push(
                        Attribute { key: "address".to_owned(), value: sender.clone() },
                    );
                    Ok(Response { attributes })
                },
                Err(e) => Err(e),
            }
        },
    }
}

/// Sets or rotates the caller's password; the store key is the caller's own
/// identity, so no other account can be touched.
pub fn execute_set_password(
    store: &mut AccountStore,
    sender: &String,
    current_password: &Option<String>,
    new_password: &String,
) -> (r: Result<Response, ContractError>)
    requires
        old(store).wf(),
    ensures
        final(store).wf(),
        set_password_post(
            old(store).accounts(),
            final(store).accounts(),
            sender@,
            pw_digest(*current_password),
            digest_of(encode_utf8(new_password@)),
            r,
        ),
{
    let key = slice_to_vec(sender.as_str().as_bytes());
    let account = match load_account(store, &key) {
        Ok(a) => a,
        Err(e) => {
            return Err(e);
        },
    };
    let authorized: bool = match (current_password, &account.password_hash) {
        (None, _) => true,
        (Some(cp), Some(h)) => {
            let d = hash_password(cp.as_str());
            bytes_eq(&d, h)
        },
        (Some(_), None) => false,
    };
    if !authorized {
        return Err(ContractError::Unauthorized);
    }
    let new_hash = hash_password(new_password.as_str());
    let updated = Account {
        address: account.address,
        balance: account.balance,
        password_hash: Some(new_hash),
    };
    proof {
        assert(updated@ =~= AccountV {
            password_hash: Some(new_hash@),
            ..old(store).accounts()[key@]
        });
    }
    match store_account(store, &updated) {
        Ok(()) => Ok(Response { attributes: Vec::new() }),
        Err(e) => Err(e),
    }
}

/// Withdraws `amount` from the caller's own balance: rejected with
/// `InsufficientFunds` when the balance would underflow, and otherwise
/// decremented by exactly `amount`.
pub fn update_balance(store: &mut AccountStore, sender: &String, amount: u128) -> (r: Result<
    (),
    ContractError,
>)
    requires
        old(store).wf(),
    ensures
        final(store).wf(),
        (match r {
            Ok(()) => (update_balance_spec(old(store).accounts(), sender@, amount) matches Ok(m2)
                && m2 == final(store).accounts()),
            Err(e) => final(store).accounts() == old(store).accounts() && (if e is Std {
                update_balance_spec(old(store).accounts(), sender@, amount) is Ok
            } else {
                (update_balance_spec(old(store).accounts(), sender@, amount) matches Err(ev)
                    && ev == e@)
            }),
        }),
{
    let key = slice_to_vec(sender.as_str().as_bytes());
    let account = match load_account(store, &key) {
        Ok(a) => a,
        Err(e) => {
            return Err(e);
        },
    };
    if amount > account.balance {
        return Err(ContractError::InsufficientFunds);
    }
    let updated = Account {
        address: account.address,
        balance: account.balance - amount,
        password_hash: account.password_hash,
    };
    proof {
        assert(updated@ =~= AccountV {
            balance: (old(store).accounts()[key@].balance - amount) as u128,
            ..old(store).accounts()[key@]
        });
    }
    match store_account(store, &updated) {
        Ok(()) => Ok(()),
        Err(e) => Err(e),
    }
}

/// Queries the balance recorded for `address`; an unregistered address is
/// an error, never a silent zero.
pub fn get_balance(store: &AccountStore, address: &String) -> (r: Result<
    AccountResponse,
    ContractError,
>)
    requires
        store.wf(),
    ensures
        (match r {
            Ok(resp) => (get_balance_spec(store.accounts(), address@) matches Ok(b) && b
                == resp.balance) && resp.address@ == address@,
            Err(e) => (get_balance_spec(store.accounts(), address@) matches Err(ev) && ev == e@),
        }),
{
    let key = slice_to_vec(address.as_str().as_bytes());
    match load_account(store, &key) {
        Ok(a) => Ok(AccountResponse { address: address.clone(), balance: a.balance }),
        Err(e) => Err(e),
    }
}

/// Dispatches a mutating request on behalf of `sender`.
pub fn execute(store: &mut AccountStore, sender: &String, msg: &ExecuteMsg) -> (r: Result<
    Response,
    ContractError,
>)
    requires
        old(store).wf(),
    ensures
        final(store).wf(),
        (match *msg {
            ExecuteMsg::InitWallet { address, password } => init_wallet_post(
                old(store).accounts(),
                final(store).accounts(),
                sender@,
                address@,
                pw_digest(password),
                r,
            ),
            ExecuteMsg::SetPassword { current_password, new_password } => set_password_post(
                old(store).accounts(),
                final(store).accounts(),
                sender@,
                pw_digest(current_password),
                digest_of(encode_utf8(new_password@)),
                r,
            ),
        }),
{
    match msg {
        ExecuteMsg::InitWallet { address, password } => {
            execute_init_wallet(store, sender, address, password)
        },
        ExecuteMsg::SetPassword { current_password, new_password } => {
            execute_set_password(store, sender, current_password, new_password)
        },
    }
}

/// Dispatches a read-only request.
pub fn query(store: &AccountStore, msg: &QueryMsg) -> (r: Result<AccountResponse, ContractError>)
    requires
        store.wf(),
    ensures
        (match *msg {
            QueryMsg::GetBalance { address } => match r {
                Ok(resp) => (get_balance_spec(store.accounts(), address@) matches Ok(b) && b
                    == resp.balance) && resp.address@ == address@,
                Err(e) => (get_balance_spec(store.accounts(), address@) matches Err(ev) && ev
                    == e@),
            },
        }),
{
    match msg {
        QueryMsg::GetBalance { address } => get_balance(store, address),
    }
}

} // verus!
