//! Token movements that contract operations ask the host to perform.
use vstd::prelude::*;

verus! {

/// One movement of `amount` units of the asset `token` from `from` to `to`.
///
/// Accounts, contracts and assets are identified by integers.
#[derive(Clone, Copy, Debug, PartialEq, Eq, Structural)]
pub struct Transfer {
    pub token: u64,
    pub from: u64,
    pub to: u64,
    pub amount: i128,
}

/// Builds a transfer action.
pub fn transfer(token: u64, from: u64, to: u64, amount: i128) -> (t: Transfer)
    ensures
        t == (Transfer { token, from, to, amount }),
{
    Transfer { token, from, to, amount }
}

} // verus!
