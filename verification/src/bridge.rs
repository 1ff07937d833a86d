//! One round trip across the host boundary: the encoded request goes to a
//! capability of the host, and what comes back is checked and decoded.
//!
//! The capability is a function from the request bytes to a [`HostReply`].
//! The contracts speak of it through its own contract only, so they hold of
//! every host.
use crate::error::{outcome_view, BridgeError};
use crate::reply::{decode_response, response_outcome, HostReply};
use vstd::prelude::*;
use vstd::utf8::{decode_utf8, decode_utf8_encode_utf8, encode_utf8, valid_utf8};

verus! {

/// What one round trip with `request` through `host` may come to: the host
/// was handed exactly these bytes, and the outcome is what its reply comes
/// to.
pub open spec fn invoke_outcome<H: FnOnce(Vec<u8>) -> HostReply>(
    request: Seq<u8>,
    host: H,
    outcome: Result<String, BridgeError>,
) -> bool {
    exists|sent: Vec<u8>, reply: HostReply|
        {
            &&& sent@ == request
            &&& #[trigger] call_ensures(host, (sent,), reply)
            &&& outcome_view(outcome) == response_outcome(reply.status, reply.buffer_bytes())
        }
}

/// Hands `request` to `host` once and checks what came back: the status code
/// first, then the presence of a buffer, then the encoding of its bytes.
pub fn invoke<H: FnOnce(Vec<u8>) -> HostReply>(request: Vec<u8>, host: H) -> (outcome: Result<
    String,
    BridgeError,
>)
    requires
        call_requires(host, (request,)),
    ensures
        invoke_outcome(request@, host, outcome),
{
    let reply = host(request);
    decode_response(reply)
}

/// A host that answers every request with the given status code.
pub open spec fn host_returns_status<H: FnOnce(Vec<u8>) -> HostReply>(host: H, status: i32) -> bool {
    forall|request: Vec<u8>, reply: HostReply| #[trigger]
        call_ensures(host, (request,), reply) ==> reply.status == status
}

/// A host that answers every request with status zero and the given buffer;
/// `None` stands for a null output pointer.
pub open spec fn host_returns_buffer<H: FnOnce(Vec<u8>) -> HostReply>(
    host: H,
    buffer: Option<Seq<u8>>,
) -> bool {
    forall|request: Vec<u8>, reply: HostReply| #[trigger]
        call_ensures(host, (request,), reply) ==> reply.status == 0 && reply.buffer_bytes()
            == buffer
}

/// A host whose reply is fixed by the bytes of the request.
pub open spec fn deterministic_host<H: FnOnce(Vec<u8>) -> HostReply>(host: H) -> bool {
    forall|first_request: Vec<u8>, first: HostReply, second_request: Vec<u8>, second: HostReply|
        {
            &&& first_request@ == second_request@
            &&& #[trigger] call_ensures(host, (first_request,), first)
            &&& #[trigger] call_ensures(host, (second_request,), second)
        } ==> first.status == second.status && first.buffer_bytes() == second.buffer_bytes()
}

/// Where the host declares success and hands back valid UTF-8, the round
/// trip returns exactly that text: its bytes are the buffer's bytes.
pub proof fn lemma_valid_response_is_returned<H: FnOnce(Vec<u8>) -> HostReply>(
    request: Seq<u8>,
    host: H,
    bytes: Seq<u8>,
    outcome: Result<String, BridgeError>,
)
    requires
        host_returns_buffer(host, Some(bytes)),
        valid_utf8(bytes),
        invoke_outcome(request, host, outcome),
    ensures
        outcome matches Ok(text) && text@ == decode_utf8(bytes) && encode_utf8(text@) == bytes,
{
    decode_utf8_encode_utf8(bytes);
}

/// Where the host returns a non-zero status code, the round trip fails with
/// that code, whatever the output slots hold.
pub proof fn lemma_failed_status_is_reported<H: FnOnce(Vec<u8>) -> HostReply>(
    request: Seq<u8>,
    host: H,
    status: i32,
    outcome: Result<String, BridgeError>,
)
    requires
        host_returns_status(host, status),
        status != 0,
        invoke_outcome(request, host, outcome),
    ensures
        outcome == Err::<String, BridgeError>(BridgeError::HostCallFailed(status)),
{
}

/// Where the host declares success and leaves the output pointer null, the
/// round trip fails with an empty response.
pub proof fn lemma_null_response_is_reported<H: FnOnce(Vec<u8>) -> HostReply>(
    request: Seq<u8>,
    host: H,
    outcome: Result<String, BridgeError>,
)
    requires
        host_returns_buffer(host, None),
        invoke_outcome(request, host, outcome),
    ensures
        outcome == Err::<String, BridgeError>(BridgeError::EmptyHostResponse),
{
}

/// Where the host declares success and hands back bytes that are not valid
/// UTF-8, the round trip fails with an encoding failure.
pub proof fn lemma_invalid_encoding_is_reported<H: FnOnce(Vec<u8>) -> HostReply>(
    request: Seq<u8>,
    host: H,
    bytes: Seq<u8>,
    outcome: Result<String, BridgeError>,
)
    requires
        host_returns_buffer(host, Some(bytes)),
        !valid_utf8(bytes),
        invoke_outcome(request, host, outcome),
    ensures
        outcome == Err::<String, BridgeError>(BridgeError::InvalidResponseEncoding),
{
}

/// Two round trips with the same request through a deterministic host come
/// to the same outcome: nothing is carried over from one call to the next.
pub proof fn lemma_invoke_is_repeatable<H: FnOnce(Vec<u8>) -> HostReply>(
    request: Seq<u8>,
    host: H,
    first: Result<String, BridgeError>,
    second: Result<String, BridgeError>,
)
    requires
        deterministic_host(host),
        invoke_outcome(request, host, first),
        invoke_outcome(request, host, second),
    ensures
        outcome_view(first) == outcome_view(second),
{
}

} // verus!
