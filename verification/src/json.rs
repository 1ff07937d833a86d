//! JSON text of the requests that cross the host boundary.
use vstd::pervasive::unreached;
use vstd::prelude::*;
use vstd::string::{StrSliceExecFns, StringExecFns};
use vstd::utf8::encode_utf8;

verus! {

/// The error of `serde_json`, carried through unread.
#[verifier::external_type_specification]
#[verifier::external_body]
pub struct ExJsonError(serde_json::Error);

/// The JSON string literal that `serde_json` writes for a text: the text
/// between double quotes, with the characters escaped that JSON does not take
/// as they are.
pub uninterp spec fn json_string_literal(text: Seq<char>) -> Seq<char>;

/// `serde_json::to_string` on a string slice. Its result is fixed by the
/// text alone, and it is always `Ok`: `to_string` fails only where the value's
/// own `Serialize` impl fails or a map has a key that is not a string, and a
/// string slice is written byte by byte into a `Vec<u8>`, which takes every
/// write.
#[verifier::external_body]
fn quote_json_string(text: &str) -> (literal: Result<String, serde_json::Error>)
    ensures
        literal is Ok,
        literal matches Ok(quoted) ==> quoted@ == json_string_literal(text@),
{
    serde_json::to_string(text)
}

/// The JSON string literal of `text`.
pub fn json_string(text: &str) -> (literal: String)
    ensures
        literal@ == json_string_literal(text@),
{
    match quote_json_string(text) {
        Ok(quoted) => quoted,
        Err(_) => unreached(),
    }
}

/// The request of the admin registration as JSON text: an object with the
/// one field `admin_did`, whose value is the given string literal.
pub open spec fn add_admin_request_text(admin_did_literal: Seq<char>) -> Seq<char> {
    "{\"admin_did\":"@ + admin_did_literal + "}"@
}

/// Frames the string literal of an admin's DID as the request object and
/// returns the bytes of that text.
pub fn frame_add_admin_request(admin_did_literal: &str) -> (request: Vec<u8>)
    ensures
        request@ == encode_utf8(add_admin_request_text(admin_did_literal@)),
{
    let mut text = String::from_str("{\"admin_did\":");
    text.append(admin_did_literal);
    text.append("}");
    text.as_str().as_bytes_vec()
}

} // verus!
