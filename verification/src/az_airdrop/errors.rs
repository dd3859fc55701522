//! What the vesting ledger answers when it declines a call.

use crate::host::describe_env_error;
use std::string::String;
use vstd::prelude::*;

verus! {

/// A refusal by the custody token's ledger.
#[derive(Debug, PartialEq, Eq)]
pub enum PSP22Error {
    /// A restriction of the token's own.
    Custom(String),
    /// The holder's balance does not cover the amount.
    InsufficientBalance,
    /// The spender's allowance does not cover the amount.
    InsufficientAllowance,
    /// The recipient is the zero address.
    ZeroRecipientAddress,
    /// The sender is the zero address.
    ZeroSenderAddress,
    /// The recipient declined a safe transfer.
    SafeTransferCheckFailed(String),
}

/// Why the ledger declined a call.
#[derive(Debug, PartialEq, Eq)]
pub enum AzAirdropError {
    /// A call between contracts could not be dispatched.
    ContractCall(ink::LangError),
    /// The host environment failed; the text is its description.
    InkEnvError(String),
    /// Nothing is recorded under the name in the text.
    NotFound(String),
    /// The custody token declined a transfer.
    PSP22Error(PSP22Error),
    /// The caller lacks the role that the call needs.
    Unauthorised,
    /// The call is well-formed but a rule forbids it; the text says which.
    UnprocessableEntity(String),
}

/// The grounds on which a call is declined, with texts as mathematical
/// sequences: what contracts say an error reports.
pub enum Refusal {
    /// The caller lacks the role that the call needs.
    Unauthorised,
    /// Nothing is recorded under the given name.
    NotFound(Seq<char>),
    /// A rule forbids the call; the text says which.
    Unprocessable(Seq<char>),
    /// The custody token declined a transfer.
    Token(PSP22Error),
}

impl AzAirdropError {
    /// This error reports exactly the refusal `why`.
    pub open spec fn reports(self, why: Refusal) -> bool {
        match why {
            Refusal::Unauthorised => self matches AzAirdropError::Unauthorised,
            Refusal::NotFound(what) => self.is_not_found(what),
            Refusal::Unprocessable(msg) => self.is_unprocessable(msg),
            Refusal::Token(e) => self == AzAirdropError::PSP22Error(e),
        }
    }

    /// This is the rule violation described by exactly the text `msg`.
    pub open spec fn is_unprocessable(self, msg: Seq<char>) -> bool {
        self matches AzAirdropError::UnprocessableEntity(s) && s@ == msg
    }

    /// This is the report that nothing is recorded under the name `what`.
    pub open spec fn is_not_found(self, what: Seq<char>) -> bool {
        self matches AzAirdropError::NotFound(s) && s@ == what
    }

    /// The rule violation described by `msg`.
    pub fn unprocessable(msg: &str) -> (e: AzAirdropError)
        ensures
            e.is_unprocessable(msg@),
    {
        AzAirdropError::UnprocessableEntity(msg.to_string())
    }

    /// The report that nothing is recorded under the name `what`.
    pub fn not_found(what: &str) -> (e: AzAirdropError)
        ensures
            e.is_not_found(what@),
    {
        AzAirdropError::NotFound(what.to_string())
    }
}

/// A failure of the host environment, reported with the host's own
/// description of it.
impl From<ink::env::Error> for AzAirdropError {
    fn from(e: ink::env::Error) -> (r: AzAirdropError) {
        AzAirdropError::InkEnvError(describe_env_error(&e))
    }
}

/// Nothing is stated of this conversion beyond its type: the text is the
/// host's.
impl vstd::std_specs::convert::FromSpecImpl<ink::env::Error> for AzAirdropError {
    open spec fn obeys_from_spec() -> bool {
        false
    }

    open spec fn from_spec(e: ink::env::Error) -> AzAirdropError {
        arbitrary()
    }
}

/// A call between contracts that could not be dispatched.
impl From<ink::LangError> for AzAirdropError {
    fn from(e: ink::LangError) -> (r: AzAirdropError) {
        AzAirdropError::ContractCall(e)
    }
}

impl vstd::std_specs::convert::FromSpecImpl<ink::LangError> for AzAirdropError {
    open spec fn obeys_from_spec() -> bool {
        true
    }

    open spec fn from_spec(e: ink::LangError) -> AzAirdropError {
        AzAirdropError::ContractCall(e)
    }
}

/// A refusal by the custody token.
impl From<PSP22Error> for AzAirdropError {
    fn from(e: PSP22Error) -> (r: AzAirdropError) {
        AzAirdropError::PSP22Error(e)
    }
}

impl vstd::std_specs::convert::FromSpecImpl<PSP22Error> for AzAirdropError {
    open spec fn obeys_from_spec() -> bool {
        true
    }

    open spec fn from_spec(e: PSP22Error) -> AzAirdropError {
        AzAirdropError::PSP22Error(e)
    }
}

} // verus!
