//! The custody token's side: the events it announces, and what a burn
//! costs an allowance.

use crate::az_airdrop::errors::PSP22Error;
use crate::primitives::{AccountId, Balance};
use std::string::String;
use vstd::prelude::*;

verus! {

/// Announces that tokens moved; a missing sender is a mint, a missing
/// receiver a burn.
#[derive(Debug, PartialEq, Eq)]
pub struct Transfer {
    pub from: Option<AccountId>,
    pub to: Option<AccountId>,
    pub value: Balance,
}

/// Announces that `spender` may withdraw up to `value` tokens of `owner`.
#[derive(Debug, PartialEq, Eq)]
pub struct Approval {
    pub owner: AccountId,
    pub spender: AccountId,
    pub value: Balance,
}

/// The event for a movement of `amount` tokens.
pub fn _emit_transfer_event(from: Option<AccountId>, to: Option<AccountId>, amount: Balance) -> (event:
    Transfer)
    ensures
        event == (Transfer { from, to, value: amount }),
{
    Transfer { from, to, value: amount }
}

/// The event for an allowance of `amount` tokens.
pub fn _emit_approval_event(owner: AccountId, spender: AccountId, amount: Balance) -> (event:
    Approval)
    ensures
        event == (Approval { owner, spender, value: amount }),
{
    Approval { owner, spender, value: amount }
}

/// What a burn asks of the token's ledger: first, where someone else's
/// tokens are burnt, the allowance that is left to the caller; then the
/// burn itself.
#[derive(Debug, PartialEq, Eq)]
pub struct Burn {
    pub approval: Option<Approval>,
    pub account: AccountId,
    pub amount: Balance,
}

/// What a new token asks of its ledger: the whole supply, minted to its
/// creator.
#[derive(Debug, PartialEq, Eq)]
pub struct Mint {
    pub to: AccountId,
    pub amount: Balance,
}

/// A capped token: its supply limit and its description.
#[derive(Debug, PartialEq, Eq)]
pub struct Button {
    pub cap: Balance,
    pub name: Option<String>,
    pub symbol: Option<String>,
    pub decimals: u8,
}

impl Button {
    /// A token with a positive cap, together with the mint of the whole cap
    /// to `caller`.
    pub fn new(
        caller: AccountId,
        cap: Balance,
        name: Option<String>,
        symbol: Option<String>,
        decimal: u8,
    ) -> (r: (Button, Mint))
        requires
            cap > 0,
        ensures
            r.0 == (Button { cap, name, symbol, decimals: decimal }),
            r.1 == (Mint { to: caller, amount: cap }),
    {
        (Button { cap, name, symbol, decimals: decimal }, Mint { to: caller, amount: cap })
    }

    /// What burning `amount` tokens of `account` asks for when `caller`
    /// holds an allowance of `allowance` over them. Burning one's own tokens
    /// touches no allowance; burning another's needs an allowance that
    /// covers the amount and uses it up by that amount.
    pub fn burn(caller: AccountId, account: AccountId, amount: Balance, allowance: Balance) -> (r:
        Result<Burn, PSP22Error>)
        ensures
            caller != account && allowance < amount ==> r matches Err(
                PSP22Error::InsufficientAllowance,
            ),
            caller != account && allowance >= amount ==> r == Ok::<Burn, PSP22Error>(
                Burn {
                    approval: Some(
                        Approval {
                            owner: account,
                            spender: caller,
                            value: (allowance - amount) as u128,
                        },
                    ),
                    account,
                    amount,
                },
            ),
            caller == account ==> r == Ok::<Burn, PSP22Error>(
                Burn { approval: None, account, amount },
            ),
    {
        if caller != account {
            if allowance < amount {
                return Err(PSP22Error::InsufficientAllowance);
            }
            return Ok(
                Burn {
                    approval: Some(_emit_approval_event(account, caller, allowance - amount)),
                    account,
                    amount,
                },
            );
        }
        Ok(Burn { approval: None, account, amount })
    }
}

} // verus!
