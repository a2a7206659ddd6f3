//! Request and response shapes of the service, at schema level. The copies
//! that carry wire-format derives live with the host glue, outside the
//! verified library.

use vstd::prelude::*;

verus! {

/// Instantiation carries no configuration: the service starts empty.
#[derive(Clone, Debug, PartialEq, Eq)]
pub struct InstantiateMsg {}

/// A mutating request. `InitWallet` registers a wallet for `address`
/// (self-registration only) with an optional initial password;
/// `SetPassword` sets or rotates the caller's password.
#[derive(Clone, Debug, PartialEq, Eq)]
pub enum ExecuteMsg {
    InitWallet { address: String, password: Option<String> },
    SetPassword { current_password: Option<String>, new_password: String },
}

/// A read-only request: look up the balance recorded for `address`.
#[derive(Clone, Debug, PartialEq, Eq)]
pub enum QueryMsg {
    GetBalance { address: String },
}

/// Answer to `QueryMsg::GetBalance`: the queried address and its balance.
#[derive(Clone, Debug, PartialEq)]
pub struct AccountResponse {
    pub address: String,
    pub balance: u128,
}

} // verus!
