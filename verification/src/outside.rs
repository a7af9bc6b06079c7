//! The types of other crates that pass through this library. None of them is opened:
//! a value of such a type is handed on as it came.

use vstd::prelude::*;
use serde_json::Error as JsonError;

verus! {

#[verifier::external_type_specification]
#[verifier::external_body]
pub struct ExIoError(std::io::Error);

#[verifier::external_type_specification]
#[verifier::external_body]
pub struct ExJsonError(JsonError);

} // verus!
