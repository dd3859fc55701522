//! What the library takes from the contract host: its two error types, and
//! the text that describes a failure of the environment.

use std::string::String;
use vstd::prelude::*;

verus! {

/// The host's error for a call whose input could not be read.
#[verifier::external_type_specification]
#[verifier::external_body]
pub struct ExLangError(ink::LangError);

/// The host environment's error for a failed call into it.
#[verifier::external_type_specification]
#[verifier::external_body]
pub struct ExInkEnvError(ink::env::Error);

/// Calls `format!` with the `Debug` impl of `ink::env::Error`; nothing is
/// claimed of the text it returns.
#[verifier::external_body]
pub(crate) fn describe_env_error(e: &ink::env::Error) -> String {
    format!("{e:?}")
}

} // verus!
