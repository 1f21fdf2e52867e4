use crate::address::Pubkey;
use crate::error::BountyError;
use vstd::prelude::*;

verus! {

/// A custodial account of the settlement asset, as the ledger accounts for it.
#[derive(Clone, Copy, Debug, PartialEq, Eq)]
pub struct TokenAccount {
    /// Where the account is stored.
    pub key: Pubkey,
    /// The asset that the account holds.
    pub mint: Pubkey,
    /// The identity that may move the balance.
    pub owner: Pubkey,
    /// The balance, in minor units.
    pub amount: u64,
}

/// An order to move `amount` from one custodial account to another, signed
/// for by `authority`.
#[derive(Clone, Copy, Debug, PartialEq, Eq)]
pub struct Transfer {
    pub from: Pubkey,
    pub to: Pubkey,
    pub authority: Pubkey,
    pub amount: u64,
}

/// An order to close an emptied custodial account and hand what it was
/// stored for to `destination`, signed for by `authority`.
#[derive(Clone, Copy, Debug, PartialEq, Eq)]
pub struct CloseAccount {
    pub account: Pubkey,
    pub destination: Pubkey,
    pub authority: Pubkey,
}

/// The two accounts of a transfer after it, and the order that moves the
/// amount.
pub ghost struct Moved {
    pub from: TokenAccount,
    pub to: TokenAccount,
    pub order: Transfer,
}

/// What a transfer does: debit and credit in one step, or neither.
///
/// The accounts must be two accounts of one asset, the authority must own
/// the paying account, the paying account must hold the amount, and the
/// receiving account must have room for it.
pub open spec fn transfer_outcome(
    from: TokenAccount,
    to: TokenAccount,
    authority: Pubkey,
    amount: nat,
) -> Result<Moved, BountyError> {
    if from.key == to.key || from.mint != to.mint {
        Err(BountyError::AccountMismatch)
    } else if authority != from.owner {
        Err(BountyError::Unauthorized)
    } else if from.amount < amount {
        Err(BountyError::InsufficientFunds)
    } else if to.amount + amount > u64::MAX {
        Err(BountyError::Overflow)
    } else {
        Ok(
            Moved {
                from: TokenAccount { amount: (from.amount - amount) as u64, ..from },
                to: TokenAccount { amount: (to.amount + amount) as u64, ..to },
                order: Transfer { from: from.key, to: to.key, authority, amount: amount as u64 },
            },
        )
    }
}

/// A transfer neither makes nor loses value: what the two accounts hold
/// together stays the same.
pub proof fn lemma_transfer_conserves(
    from: TokenAccount,
    to: TokenAccount,
    authority: Pubkey,
    amount: nat,
)
    requires
        transfer_outcome(from, to, authority, amount) is Ok,
    ensures
        ({
            let moved = transfer_outcome(from, to, authority, amount)->Ok_0;
            &&& moved.from.amount + moved.to.amount == from.amount + to.amount
            &&& moved.from.amount == from.amount - amount
            &&& moved.to.amount == to.amount + amount
        }),
{
}

/// Moves `amount` from one account to the other, or changes neither.
pub fn transfer(
    from: &mut TokenAccount,
    to: &mut TokenAccount,
    authority: &Pubkey,
    amount: u64,
) -> (r: Result<Transfer, BountyError>)
    ensures
        match transfer_outcome(*old(from), *old(to), *authority, amount as nat) {
            Ok(moved) => {
                &&& r == Ok::<Transfer, BountyError>(moved.order)
                &&& *final(from) == moved.from
                &&& *final(to) == moved.to
            },
            Err(e) => {
                &&& r == Err::<Transfer, BountyError>(e)
                &&& *final(from) == *old(from)
                &&& *final(to) == *old(to)
            },
        },
{
    if from.key == to.key || from.mint != to.mint {
        return Err(BountyError::AccountMismatch);
    }
    if *authority != from.owner {
        return Err(BountyError::Unauthorized);
    }
    if from.amount < amount {
        return Err(BountyError::InsufficientFunds);
    }
    if amount > u64::MAX - to.amount {
        return Err(BountyError::Overflow);
    }
    from.amount = from.amount - amount;
    to.amount = to.amount + amount;
    Ok(Transfer { from: from.key, to: to.key, authority: *authority, amount })
}

} // verus!
