//! The fixed parts of the service's interface: where it is, how the client
//! names itself, and which credential it may send.

use crate::failure::{Call, Failure};
use vstd::prelude::*;
use vstd::string::*;
use vstd::utf8::encode_utf8;

verus! {

/// The host of the service, with its scheme.
pub const HOST: &'static str = "https://simplabs.mite.yo.lk";

/// The signature with which the client names itself on every request.
pub const USER_AGENT: &'static str =
    "User-Agent: mite.app/v1.1 (https://github.com/yolk); mite-rs/0.0.1";

/// The environment variable that holds the API key.
pub const KEY_VARIABLE: &'static str = "MITE_API_KEY";

/// The header in which the API key is sent.
pub const KEY_HEADER: &'static str = "X-MiteApiKey";

/// The address of `call`: the host, then the call's path.
pub open spec fn url_of(call: Call) -> Seq<char> {
    HOST@ + call.path_spec()
}

/// The address of `call`: the host, then the call's path.
pub fn url(call: Call) -> (url: String)
    ensures
        url@ == url_of(call),
{
    let mut url = String::from_str(HOST);
    url.append(call.path());
    url
}

/// Whether a header's value may hold the byte: anything but the control
/// characters, of which the tab alone is let through.
pub open spec fn header_byte(byte: u8) -> bool {
    (byte >= 32 && byte != 127) || byte == 9
}

/// Whether all of `bytes` may stand in a header's value.
pub open spec fn header_safe(bytes: Seq<u8>) -> bool {
    forall|i: int| 0 <= i < bytes.len() ==> header_byte(#[trigger] bytes[i])
}

/// The key to send, given what the environment holds under the key's
/// variable: the value itself where there is one that a header can carry.
pub open spec fn credential_of(value: Option<Seq<char>>) -> Result<Seq<char>, Failure> {
    match value {
        Some(key) => if header_safe(encode_utf8(key)) {
            Ok(key)
        } else {
            Err(Failure::Startup)
        },
        None => Err(Failure::Startup),
    }
}

/// A key, or the failure to have one, by its view.
pub open spec fn credential_view(outcome: Result<String, Failure>) -> Result<Seq<char>, Failure> {
    match outcome {
        Ok(key) => Ok(key@),
        Err(failure) => Err(failure),
    }
}

/// An optional value of the environment, by its view.
pub open spec fn value_view(value: Option<String>) -> Option<Seq<char>> {
    match value {
        Some(text) => Some(text@),
        None => None,
    }
}

/// Whether all of `bytes` may stand in a header's value.
pub fn is_header_safe(bytes: &[u8]) -> (safe: bool)
    ensures
        safe == header_safe(bytes@),
{
    let mut i: usize = 0;
    while i < bytes.len()
        invariant
            i <= bytes.len(),
            forall|j: int| 0 <= j < i ==> header_byte(#[trigger] bytes@[j]),
        decreases bytes.len() - i,
    {
        let byte: u8 = bytes[i];
        if !((byte >= 32 && byte != 127) || byte == 9) {
            return false;
        }
        i = i + 1;
    }
    true
}

/// Checks the API key before anything is sent.
///
/// A run cannot start without a key, nor with one that no header can
/// carry: both are startup failures. Any other key is handed back as it
/// is.
pub fn credential(value: Option<String>) -> (outcome: Result<String, Failure>)
    ensures
        credential_view(outcome) == credential_of(value_view(value)),
{
    match value {
        Some(key) => {
            if is_header_safe(key.as_str().as_bytes()) {
                Ok(key)
            } else {
                Err(Failure::Startup)
            }
        },
        None => Err(Failure::Startup),
    }
}

} // verus!
