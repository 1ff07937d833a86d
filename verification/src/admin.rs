//! Admin registration: the request is handed to the host capability that
//! persists a JSON document, and the host's response is returned as it is.
use crate::bridge::{invoke, invoke_outcome};
use crate::error::BridgeError;
use crate::json::{add_admin_request_text, frame_add_admin_request, json_string, json_string_literal};
use crate::reply::HostReply;
use vstd::prelude::*;
use vstd::utf8::{encode_utf8, valid_utf8};

verus! {

/// The request to register an admin, named by its DID.
#[derive(Debug, Clone, PartialEq, Eq)]
pub struct AddAdminReq {
    pub admin_did: String,
}

/// The bytes that cross the boundary for the admin with the given DID: the
/// UTF-8 encoding of the JSON object `{"admin_did": ...}`.
pub open spec fn add_admin_request_bytes(admin_did: Seq<char>) -> Seq<u8> {
    encode_utf8(add_admin_request_text(json_string_literal(admin_did)))
}

/// Encodes the request as the bytes of its JSON text.
pub fn encode_add_admin_request(input_data: &AddAdminReq) -> (request: Vec<u8>)
    ensures
        request@ == add_admin_request_bytes(input_data.admin_did@),
        valid_utf8(request@),
{
    broadcast use vstd::utf8::encode_utf8_valid_utf8;

    let literal = json_string(input_data.admin_did.as_str());
    frame_add_admin_request(literal.as_str())
}

/// One round trip through the host capability that persists a JSON document:
/// encodes `input_data`, hands the bytes to `host` once, and checks what came
/// back.
pub fn call_write_to_file<H: FnOnce(Vec<u8>) -> HostReply>(input_data: &AddAdminReq, host: H) -> (outcome:
    Result<String, BridgeError>)
    requires
        forall|request: Vec<u8>| call_requires(host, (request,)),
    ensures
        invoke_outcome(add_admin_request_bytes(input_data.admin_did@), host, outcome),
{
    let input_bytes = encode_add_admin_request(input_data);
    invoke(input_bytes, host)
}

/// Registers an admin: the outcome of the round trip, handed on unchanged.
pub fn add_admin<H: FnOnce(Vec<u8>) -> HostReply>(inp: AddAdminReq, host: H) -> (outcome: Result<
    String,
    BridgeError,
>)
    requires
        forall|request: Vec<u8>| call_requires(host, (request,)),
    ensures
        invoke_outcome(add_admin_request_bytes(inp.admin_did@), host, outcome),
{
    match call_write_to_file(&inp, host) {
        Ok(resp) => Ok(resp),
        Err(e) => Err(e),
    }
}

} // verus!
