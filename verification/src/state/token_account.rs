use vstd::prelude::*;
use crate::address::Address;
use crate::error::ErrorCodes;

verus! {

/// A holding of one asset: what the transitions read of a token account.
#[derive(Clone, Copy, Debug, PartialEq, Eq)]
pub struct TokenAccount {
    /// The account's own address.
    pub key: Address,
    /// The asset in which the balance is denominated.
    pub mint: Address,
    /// Who may spend from the account.
    pub owner: Address,
    /// The balance.
    pub amount: u64,
}

/// Whether `amount` can move from a balance of `from` to a balance of `to`.
pub open spec fn can_transfer(from: u64, to: u64, amount: u64) -> bool {
    amount <= from && to + amount <= u64::MAX
}

/// Moves `amount` from the balance `from` to the balance `to` and returns
/// the two new balances, or fails where `from` is too small or `to` would
/// pass the largest balance.
pub fn transfer(from: u64, to: u64, amount: u64) -> (moved: Result<(u64, u64), ErrorCodes>)
    ensures
        can_transfer(from, to, amount) ==> moved == Ok::<(u64, u64), ErrorCodes>(((from - amount) as u64, (to + amount) as u64)),
        !can_transfer(from, to, amount) ==> moved == Err::<(u64, u64), ErrorCodes>(ErrorCodes::TransferFailed),
{
    if amount > from {
        return Err(ErrorCodes::TransferFailed);
    }
    match to.checked_add(amount) {
        Some(credited) => Ok((from - amount, credited)),
        None => Err(ErrorCodes::TransferFailed),
    }
}

} // verus!
