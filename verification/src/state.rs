//! The account store: the `Account` record, its binary codec, and the
//! persistent mapping from address bytes to stored records.

use vstd::prelude::*;
use vstd::bytes::*;
use vstd::slice::*;

use crate::contract::ContractError;
use secret_toolkit::serialization::Bincode2;
use secret_toolkit::storage::{Keymap, KeymapBuilder, WithoutIter};

verus! {

/// Length in bytes of a stored password digest.
pub const DIGEST_LEN: usize = 32;

/// The sole persisted entity: one record per registered address. The
/// `address` is the raw byte form of a host-validated address; `balance` is
/// the locally tracked ledger value; `password_hash`, when present, is the
/// digest of the most recently accepted password.
#[derive(Clone, Debug, PartialEq, Eq)]
pub struct Account {
    pub address: Vec<u8>,
    pub balance: u128,
    pub password_hash: Option<Vec<u8>>,
}

/// Abstract value of an `Account`: the same record over mathematical
/// sequences.
#[verifier::ext_equal]
pub struct AccountV {
    pub address: Seq<u8>,
    pub balance: u128,
    pub password_hash: Option<Seq<u8>>,
}

impl AccountV {
    /// Well-formedness: the address fits the codec's length prefix (which
    /// any value held in memory does), and a stored password hash is always
    /// a full digest.
    pub open spec fn wf(self) -> bool {
        &&& self.address.len() <= u64::MAX
        &&& match self.password_hash {
            Some(h) => h.len() == DIGEST_LEN,
            None => true,
        }
    }
}

impl View for Account {
    type V = AccountV;

    open spec fn view(&self) -> AccountV {
        AccountV {
            address: self.address@,
            balance: self.balance,
            password_hash: match self.password_hash {
                Some(h) => Some(h@),
                None => None,
            },
        }
    }
}

/// The compact binary layout of a record: an 8-byte little-endian length
/// prefix, the address bytes, the balance as 16 little-endian bytes, then a
/// tag byte (0 = no password) optionally followed by the 32-byte digest.
pub open spec fn encode_spec(a: AccountV) -> Seq<u8> {
    spec_u64_to_le_bytes(a.address.len() as u64) + a.address + spec_u128_to_le_bytes(a.balance)
        + match a.password_hash {
        None => seq![0u8],
        Some(h) => seq![1u8] + h,
    }
}

/// Total parse of a byte string back into a record: `None` on any corrupt
/// input (truncated, wrong tag, or trailing bytes).
pub open spec fn decode_spec(b: Seq<u8>) -> Option<AccountV> {
    if b.len() < 25 {
        None
    } else {
        let l = spec_u64_from_le_bytes(b.subrange(0, 8)) as int;
        if b.len() < l + 25 {
            None
        } else {
            let a = AccountV {
                address: b.subrange(8, 8 + l),
                balance: spec_u128_from_le_bytes(b.subrange(8 + l, 8 + l + 16)),
                password_hash: None,
            };
            if b[l + 24] == 0u8 && b.len() == l + 25 {
                Some(a)
            } else if b[l + 24] == 1u8 && b.len() == l + 57 {
                Some(AccountV { password_hash: Some(b.subrange(l + 25, l + 57)), ..a })
            } else {
                None
            }
        }
    }
}

/// Serialization round trip: decoding an encoded well-formed record gives
/// back the identical record.
pub proof fn lemma_account_codec_round_trip(a: AccountV)
    requires
        a.wf(),
    ensures
        decode_spec(encode_spec(a)) == Some(a),
{
    lemma_auto_spec_u64_to_from_le_bytes();
    lemma_auto_spec_u128_to_from_le_bytes();
    let b = encode_spec(a);
    let l = a.address.len() as int;
    assert(b.subrange(0, 8) =~= spec_u64_to_le_bytes(a.address.len() as u64));
    assert(b.subrange(8, 8 + l) =~= a.address);
    assert(b.subrange(8 + l, 8 + l + 16) =~= spec_u128_to_le_bytes(a.balance));
    match a.password_hash {
        None => {
            assert(b.len() == l + 25);
            assert(b[l + 24] == 0u8);
            assert(decode_spec(b) matches Some(d) && d =~= a);
        },
        Some(h) => {
            assert(b.len() == l + 57);
            assert(b[l + 24] == 1u8);
            assert(b.subrange(l + 25, l + 57) =~= h);
            assert(decode_spec(b) matches Some(d) && d =~= a);
        },
    }
}

/// Appends every byte of `src` to `dst`.
fn append_bytes(dst: &mut Vec<u8>, src: &[u8])
    ensures
        final(dst)@ == old(dst)@ + src@,
{
    let mut i: usize = 0;
    while i < src.len()
        invariant
            i <= src@.len(),
            dst@ == old(dst)@ + src@.subrange(0, i as int),
        decreases src@.len() - i,
    {
        dst.push(src[i]);
        i = i + 1;
        assert(old(dst)@ + src@.subrange(0, i - 1 as int) + seq![src@[i - 1]] =~= old(dst)@
            + src@.subrange(0, i as int));
    }
    assert(src@.subrange(0, src@.len() as int) =~= src@);
}

/// Serializes a record into its binary layout.
pub fn encode_account(a: &Account) -> (r: Vec<u8>)
    requires
        a@.wf(),
    ensures
        r@ == encode_spec(a@),
{
    let mut out: Vec<u8> = Vec::new();
    let lb = u64_to_le_bytes(a.address.len() as u64);
    append_bytes(&mut out, lb.as_slice());
    append_bytes(&mut out, a.address.as_slice());
    let bb = u128_to_le_bytes(a.balance);
    append_bytes(&mut out, bb.as_slice());
    match &a.password_hash {
        None => {
            out.push(0u8);
            assert(out@ =~= encode_spec(a@));
        },
        Some(h) => {
            out.push(1u8);
            append_bytes(&mut out, h.as_slice());
            assert(out@ =~= encode_spec(a@));
        },
    }
    out
}

/// Parses a byte string into a record; a corrupt input is reported as a
/// wrapped storage error, distinct from the not-found condition.
pub fn decode_account(b: &Vec<u8>) -> (r: Result<Account, ContractError>)
    ensures
        match r {
            Ok(a) => decode_spec(b@) == Some(a@) && a@.wf(),
            Err(e) => decode_spec(b@) is None && e is Std,
        },
{
    let n = b.len();
    if n < 25 {
        return Err(ContractError::Std("account record is truncated".to_owned()));
    }
    let sl = b.as_slice();
    let l64 = u64_from_le_bytes(slice_subrange(sl, 0, 8));
    if ((n - 25) as u64) < l64 {
        return Err(ContractError::Std("account record is truncated".to_owned()));
    }
    let l = l64 as usize;
    let address = slice_to_vec(slice_subrange(sl, 8, 8 + l));
    let balance = u128_from_le_bytes(slice_subrange(sl, 8 + l, 8 + l + 16));
    let tag = sl[8 + l + 16];
    if tag == 0u8 && n - l == 25 {
        let a = Account { address, balance, password_hash: None };
        assert(decode_spec(b@) == Some(a@));
        Ok(a)
    } else if tag == 1u8 && n - l == 57 {
        let hash = slice_to_vec(slice_subrange(sl, l + 25, l + 57));
        let a = Account { address, balance, password_hash: Some(hash) };
        assert(decode_spec(b@) == Some(a@));
        Ok(a)
    } else {
        assert(decode_spec(b@) is None);
        Err(ContractError::Std("account record is corrupt".to_owned()))
    }
}

/// Handle on the host's transactional key/value namespace. The verified code
/// sees it only through `kv_view` and the trusted accessors below.
#[verifier::external_body]
pub struct HostKv {
    storage: secret_cosmwasm_std::MemoryStorage,
}

/// The logical contents of the keyed collection named "accounts" inside a
/// `HostKv`: which keys are present and which bytes each one holds.
pub uninterp spec fn kv_view(kv: HostKv) -> Map<Seq<u8>, Seq<u8>>;

impl HostKv {
    /// Relies on `secret_cosmwasm_std::MemoryStorage::default`: a freshly
    /// constructed in-memory store holds no entries, so a `Keymap` over it
    /// finds nothing.
    #[verifier::external_body]
    fn new() -> (r: HostKv)
        ensures
            (kv_view(r) == Map::<Seq<u8>, Seq<u8>>::empty()),
    {
        HostKv { storage: secret_cosmwasm_std::MemoryStorage::default() }
    }

    /// Relies on `secret_toolkit::storage::Keymap::get`: returns the bytes
    /// stored under the key, or `None` when the key is absent.
    #[verifier::external_body]
    fn get(&self, key: &Vec<u8>) -> (r: Option<Vec<u8>>)
        ensures
            match r {
                Some(v) => kv_view(*self).dom().contains(key@) && kv_view(*self)[key@] == v@,
                None => !kv_view(*self).dom().contains(key@),
            },
    {
        let map: Keymap<Vec<u8>, Vec<u8>, Bincode2, WithoutIter> = KeymapBuilder::new(
            b"accounts",
        ).without_iter().build();
        map.get(&self.storage, key)
    }

    /// Relies on `secret_toolkit::storage::Keymap::insert`: on success the
    /// collection maps the key to the value and every other key is
    /// untouched; on an error nothing was written.
    #[verifier::external_body]
    fn set(&mut self, key: &Vec<u8>, value: &Vec<u8>) -> (r: Result<(), String>)
        ensures
            r is Ok ==> kv_view(*final(self)) == kv_view(*old(self)).insert(key@, value@),
            r is Err ==> kv_view(*final(self)) == kv_view(*old(self)),
    {
        let map: Keymap<Vec<u8>, Vec<u8>, Bincode2, WithoutIter> = KeymapBuilder::new(
            b"accounts",
        ).without_iter().build();
        map.insert(&mut self.storage, key, value).map_err(|e| e.to_string())
    }

    /// Relies on `secret_toolkit::storage::Keymap::remove`: on success the
    /// key is absent from the collection and every other key is untouched;
    /// on an error nothing was written.
    #[verifier::external_body]
    fn del(&mut self, key: &Vec<u8>) -> (r: Result<(), String>)
        ensures
            r is Ok ==> kv_view(*final(self)) == kv_view(*old(self)).remove(key@),
            r is Err ==> kv_view(*final(self)) == kv_view(*old(self)),
    {
        let map: Keymap<Vec<u8>, Vec<u8>, Bincode2, WithoutIter> = KeymapBuilder::new(
            b"accounts",
        ).without_iter().build();
        map.remove(&mut self.storage, key).map_err(|e| e.to_string())
    }
}

/// The durable mapping from address bytes to account records, backed by the
/// host key/value store. Every stored value is the encoding of a
/// well-formed record filed under its own address.
pub struct AccountStore {
    kv: HostKv,
}

impl AccountStore {
    /// The raw bytes the backing collection holds.
    pub closed spec fn raw(self) -> Map<Seq<u8>, Seq<u8>> {
        kv_view(self.kv)
    }

    /// Store invariant: every stored byte string decodes to a well-formed
    /// record whose address is the key it is filed under.
    pub closed spec fn wf(self) -> bool {
        forall|k: Seq<u8>| #[trigger]
            self.raw().dom().contains(k) ==> {
                &&& decode_spec(self.raw()[k]) is Some
                &&& decode_spec(self.raw()[k]).unwrap().wf()
                &&& decode_spec(self.raw()[k]).unwrap().address == k
            }
    }

    /// The abstract contents: each registered address and its record.
    pub closed spec fn accounts(self) -> Map<Seq<u8>, AccountV> {
        Map::new(
            |k: Seq<u8>| self.raw().dom().contains(k),
            |k: Seq<u8>| decode_spec(self.raw()[k]).unwrap(),
        )
    }

    /// A fresh store holds no accounts.
    pub fn new() -> (r: AccountStore)
        ensures
            r.wf(),
            r.accounts() == Map::<Seq<u8>, AccountV>::empty(),
    {
        let r = AccountStore { kv: HostKv::new() };
        proof {
            assert(r.accounts() =~= Map::<Seq<u8>, AccountV>::empty());
        }
        r
    }
}

/// Saves a record under the given key, which must be the record's own
/// address: the store is keyed by identity. Upserts: any prior record under
/// that key is replaced.
pub fn save(store: &mut AccountStore, key: &Vec<u8>, value: &Account) -> (r: Result<
    (),
    ContractError,
>)
    requires
        old(store).wf(),
        value@.wf(),
        key@ == value@.address,
    ensures
        final(store).wf(),
        r is Ok ==> final(store).accounts() == old(store).accounts().insert(
            value@.address,
            value@,
        ),
        r matches Err(e) ==> final(store).accounts() == old(store).accounts() && e is Std,
{
    let bytes = encode_account(value);
    let res = store.kv.set(key, &bytes);
    proof {
        lemma_account_codec_round_trip(value@);
        if res is Ok {
            assert forall|k: Seq<u8>| #[trigger] store.raw().dom().contains(k) implies {
                &&& decode_spec(store.raw()[k]) is Some
                &&& decode_spec(store.raw()[k]).unwrap().wf()
                &&& decode_spec(store.raw()[k]).unwrap().address == k
            } by {
                if k != value@.address {
                    assert(old(store).raw().dom().contains(k));
                }
            }
            assert(store.accounts() =~= old(store).accounts().insert(value@.address, value@));
        } else {
            assert(store.accounts() =~= old(store).accounts());
        }
    }
    match res {
        Ok(()) => Ok(()),
        Err(m) => Err(ContractError::Std(m)),
    }
}

/// Loads the record stored under the given key, or reports that no account
/// is registered there. A well-formed store never yields a corrupt record.
pub fn load(store: &AccountStore, key: &Vec<u8>) -> (r: Result<Account, ContractError>)
    requires
        store.wf(),
    ensures
        match r {
            Ok(a) => store.accounts().dom().contains(key@) && a@ == store.accounts()[key@]
                && a@.wf() && a@.address == key@,
            Err(e) => !store.accounts().dom().contains(key@) && (e matches
                ContractError::AccountNotFound(ad) && ad@ == key@),
        },
{
    match store.kv.get(key) {
        Some(bytes) => match decode_account(&bytes) {
            Ok(a) => Ok(a),
            Err(_) => vstd::pervasive::unreached(),
        },
        None => Err(ContractError::AccountNotFound(slice_to_vec(key.as_slice()))),
    }
}

/// Removes any record stored under the given key.
pub fn remove(store: &mut AccountStore, key: &Vec<u8>) -> (r: Result<(), ContractError>)
    requires
        old(store).wf(),
    ensures
        final(store).wf(),
        r is Ok ==> final(store).accounts() == old(store).accounts().remove(key@),
        r matches Err(e) ==> final(store).accounts() == old(store).accounts() && e is Std,
{
    let res = store.kv.del(key);
    proof {
        if res is Ok {
            assert forall|k: Seq<u8>| #[trigger] store.raw().dom().contains(k) implies {
                &&& decode_spec(store.raw()[k]) is Some
                &&& decode_spec(store.raw()[k]).unwrap().wf()
                &&& decode_spec(store.raw()[k]).unwrap().address == k
            } by {
                assert(old(store).raw().dom().contains(k));
            }
            assert(store.accounts() =~= old(store).accounts().remove(key@));
        } else {
            assert(store.accounts() =~= old(store).accounts());
        }
    }
    match res {
        Ok(()) => Ok(()),
        Err(m) => Err(ContractError::Std(m)),
    }
}

/// Files an account under its own address.
pub fn store_account(store: &mut AccountStore, account: &Account) -> (r: Result<
    (),
    ContractError,
>)
    requires
        old(store).wf(),
        account@.wf(),
    ensures
        final(store).wf(),
        r is Ok ==> final(store).accounts() == old(store).accounts().insert(
            account@.address,
            account@,
        ),
        r matches Err(e) ==> final(store).accounts() == old(store).accounts() && e is Std,
{
    save(store, &account.address, account)
}

/// Looks an account up by its address.
pub fn load_account(store: &AccountStore, address: &Vec<u8>) -> (r: Result<Account, ContractError>)
    requires
        store.wf(),
    ensures
        match r {
            Ok(a) => store.accounts().dom().contains(address@) && a@ == store.accounts()[address@]
                && a@.wf() && a@.address == address@,
            Err(e) => !store.accounts().dom().contains(address@) && (e matches
                ContractError::AccountNotFound(ad) && ad@ == address@),
        },
{
    load(store, address)
}

} // verus!
