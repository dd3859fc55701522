//! What the sale answers when it declines a call.

use crate::az_airdrop::errors::Refusal;
use crate::host::describe_env_error;
use std::string::String;
use vstd::prelude::*;

verus! {

/// Why the sale declined a call.
#[derive(Debug, PartialEq, Eq)]
pub enum AzTokenSaleToAirdropError {
    /// A call between contracts could not be dispatched.
    ContractCall(ink::LangError),
    /// The host environment failed; the text is its description.
    InkEnvError(String),
    /// Nothing is recorded under the name in the text.
    NotFound(String),
    /// The caller lacks the role that the call needs.
    Unauthorised,
    /// The call is well-formed but a rule forbids it; the text says which.
    UnprocessableEntity(String),
}

impl AzTokenSaleToAirdropError {
    /// This is the rule violation described by exactly the text `msg`.
    pub open spec fn is_unprocessable(self, msg: Seq<char>) -> bool {
        self matches AzTokenSaleToAirdropError::UnprocessableEntity(s) && s@ == msg
    }

    /// This error reports exactly the refusal `why`. The sale never reports
    /// a refusal by a token.
    pub open spec fn reports(self, why: Refusal) -> bool {
        match why {
            Refusal::Unauthorised => self matches AzTokenSaleToAirdropError::Unauthorised,
            Refusal::NotFound(what) => self matches AzTokenSaleToAirdropError::NotFound(s) && s@
                == what,
            Refusal::Unprocessable(msg) => self.is_unprocessable(msg),
            Refusal::Token(_) => false,
        }
    }

    /// The rule violation described by `msg`.
    pub fn unprocessable(msg: &str) -> (e: AzTokenSaleToAirdropError)
        ensures
            e.is_unprocessable(msg@),
    {
        AzTokenSaleToAirdropError::UnprocessableEntity(msg.to_string())
    }
}

/// A failure of the host environment, reported with the host's own
/// description of it.
impl From<ink::env::Error> for AzTokenSaleToAirdropError {
    fn from(e: ink::env::Error) -> (r: AzTokenSaleToAirdropError) {
        AzTokenSaleToAirdropError::InkEnvError(describe_env_error(&e))
    }
}

/// Nothing is stated of this conversion beyond its type: the text is the
/// host's.
impl vstd::std_specs::convert::FromSpecImpl<ink::env::Error> for AzTokenSaleToAirdropError {
    open spec fn obeys_from_spec() -> bool {
        false
    }

    open spec fn from_spec(e: ink::env::Error) -> AzTokenSaleToAirdropError {
        arbitrary()
    }
}

/// A call between contracts that could not be dispatched.
impl From<ink::LangError> for AzTokenSaleToAirdropError {
    fn from(e: ink::LangError) -> (r: AzTokenSaleToAirdropError) {
        AzTokenSaleToAirdropError::ContractCall(e)
    }
}

impl vstd::std_specs::convert::FromSpecImpl<ink::LangError> for AzTokenSaleToAirdropError {
    open spec fn obeys_from_spec() -> bool {
        true
    }

    open spec fn from_spec(e: ink::LangError) -> AzTokenSaleToAirdropError {
        AzTokenSaleToAirdropError::ContractCall(e)
    }
}

} // verus!
