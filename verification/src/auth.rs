//! The authorization header sent to the completion endpoint: the word
//! `Bearer`, a space, and the API key.

use vstd::prelude::*;
use vstd::string::StringExecFns;

verus! {

/// Build the bearer authorization header value for `api_key`.
pub fn bearer_header_value(api_key: &str) -> (value: String)
    ensures
        value@ == "Bearer "@ + api_key@,
{
    let mut value = "Bearer ".to_owned();
    value.append(api_key);
    value
}

} // verus!
