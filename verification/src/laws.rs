//! The service's laws: properties that relate several operations, proved
//! once for all inputs over the same transition specifications that the
//! executable operations are verified against.

use vstd::prelude::*;
use vstd::utf8::encode_utf8;

use crate::contract::{
    get_balance_spec, init_wallet_spec, set_password_spec, update_balance_spec, ErrV,
};
use crate::state::AccountV;

verus! {

/// Registering a free address twice, by its own holder: the first call
/// succeeds and the second fails with `AccountAlreadyExists`.
pub proof fn law_init_wallet_twice(
    m: Map<Seq<u8>, AccountV>,
    a: Seq<char>,
    d1: Option<Seq<u8>>,
    d2: Option<Seq<u8>>,
)
    requires
        !m.dom().contains(encode_utf8(a)),
    ensures
        (init_wallet_spec(m, a, a, d1) matches Ok(m1) && (init_wallet_spec(m1, a, a, d2) matches
            Err(e) && e == ErrV::AccountAlreadyExists)),
{
}

/// Registration on behalf of someone else always fails `Unauthorized`; the
/// executable contract then guarantees that storage is left unchanged.
pub proof fn law_init_wallet_unauthorized(
    m: Map<Seq<u8>, AccountV>,
    caller: Seq<char>,
    target: Seq<char>,
    d: Option<Seq<u8>>,
)
    requires
        caller != target,
    ensures
        (init_wallet_spec(m, caller, target, d) matches Err(e) && e == ErrV::Unauthorized),
{
}

/// A passwordless registration reads back balance 0; a first-time password
/// set (no current password) succeeds and stores the new digest; and an
/// attempt with a non-matching current digest is rejected `Unauthorized`,
/// leaving the stored digest what it was.
pub proof fn law_fresh_wallet_password_flow(
    m: Map<Seq<u8>, AccountV>,
    a: Seq<char>,
    dx: Seq<u8>,
    dw: Seq<u8>,
    dy: Seq<u8>,
)
    requires
        !m.dom().contains(encode_utf8(a)),
        dw != dx,
    ensures
        (init_wallet_spec(m, a, a, None) matches Ok(m1) && {
            &&& (get_balance_spec(m1, a) matches Ok(b) && b == 0u128)
            &&& (set_password_spec(m1, a, None, dx) matches Ok(m2) && {
                &&& m2[encode_utf8(a)].password_hash == Some(dx)
                &&& (set_password_spec(m2, a, Some(dw), dy) matches Err(e) && e
                    == ErrV::Unauthorized)
            })
        }),
{
}

/// Rotating a password with the matching current digest succeeds and stores
/// the new digest; the superseded digest no longer authorizes a rotation.
pub proof fn law_password_rotation(
    m: Map<Seq<u8>, AccountV>,
    a: Seq<char>,
    dx: Seq<u8>,
    dy: Seq<u8>,
    dz: Seq<u8>,
)
    requires
        m.dom().contains(encode_utf8(a)),
        m[encode_utf8(a)].password_hash == Some(dx),
        dx != dy,
    ensures
        (set_password_spec(m, a, Some(dx), dy) matches Ok(m2) && {
            &&& m2[encode_utf8(a)].password_hash == Some(dy)
            &&& (set_password_spec(m2, a, Some(dx), dz) matches Err(e) && e == ErrV::Unauthorized)
        }),
{
}

/// A withdrawal larger than the balance fails `InsufficientFunds` (the
/// executable contract then leaves storage unchanged); one within the
/// balance decrements it by exactly the amount.
pub proof fn law_update_balance(m: Map<Seq<u8>, AccountV>, a: Seq<char>, amount: u128)
    requires
        m.dom().contains(encode_utf8(a)),
    ensures
        amount > m[encode_utf8(a)].balance ==> (update_balance_spec(m, a, amount) matches Err(e)
            && e == ErrV::InsufficientFunds),
        amount <= m[encode_utf8(a)].balance ==> (update_balance_spec(m, a, amount) matches Ok(m2)
            && m2[encode_utf8(a)].balance == m[encode_utf8(a)].balance - amount),
{
}

/// Querying the balance of an unregistered address reports exactly
/// `AccountNotFound` for that address — never a fabricated zero.
pub proof fn law_get_balance_missing(m: Map<Seq<u8>, AccountV>, a: Seq<char>)
    requires
        !m.dom().contains(encode_utf8(a)),
    ensures
        (get_balance_spec(m, a) matches Err(e) && e == ErrV::AccountNotFound(encode_utf8(a))),
{
}

} // verus!
