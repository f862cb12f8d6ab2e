//! Plain values that stand for the ledger objects the contracts talk about:
//! accounts, and the token movements a contract asks its host to carry out.
use vstd::prelude::*;

verus! {

/// An account on the ledger. Accounts are only ever compared for identity,
/// so an account is represented by a number that names it.
pub type Address = u64;

/// One side of a token movement.
#[derive(Clone, Copy, Debug, PartialEq, Eq, Structural)]
pub enum Party {
    /// The contract's own account.
    Contract,
    /// Any other account.
    Account(Address),
}

/// How the host is asked to move the tokens.
#[derive(Clone, Copy, Debug, PartialEq, Eq, Structural)]
pub enum TransferMode {
    /// A plain transfer signed by `from`; the call fails the request if it fails.
    Transfer,
    /// A transfer out of the allowance `from` gave the contract, spent by the
    /// contract; the call fails the request if it fails.
    TransferFrom,
    /// A transfer made only when `token` names a token contract that holds a
    /// balance for the contract; if that transfer then fails, the request fails
    /// with the contract's `TransferFailed` error.
    IfTokenContract,
}

/// A token movement that a contract call asks its host to make.
#[derive(Clone, Copy, Debug, PartialEq, Eq, Structural)]
pub struct TokenTransfer {
    pub token: Address,
    pub from: Party,
    pub to: Party,
    pub amount: i128,
    pub mode: TransferMode,
}

/// Whether `x` occurs in `v`.
pub fn contains_address(v: &Vec<Address>, x: Address) -> (r: bool)
    ensures
        r == v@.contains(x),
{
    let mut i: usize = 0;
    while i < v.len()
        invariant
            0 <= i <= v.len(),
            forall|j: int| 0 <= j < i ==> v@[j] != x,
        decreases v.len() - i,
    {
        if v[i] == x {
            return true;
        }
        i = i + 1;
    }
    false
}

/// A copy of `v`, element for element.
pub fn copy_addresses(v: &Vec<Address>) -> (r: Vec<Address>)
    ensures
        r@ == v@,
{
    let mut r: Vec<Address> = Vec::new();
    let mut i: usize = 0;
    while i < v.len()
        invariant
            0 <= i <= v.len(),
            r@ == v@.subrange(0, i as int),
        decreases v.len() - i,
    {
        r.push(v[i]);
        i = i + 1;
    }
    assert(r@ =~= v@);
    r
}

} // verus!
