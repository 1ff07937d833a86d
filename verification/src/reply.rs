//! What the host hands back from one boundary call, and what it comes to.
use crate::error::{outcome_view, BridgeError, BridgeErrorView};
use vstd::prelude::*;
use vstd::string::{StringExecFns, StringSliceAdditionalSpecFns};
use vstd::utf8::{decode_utf8, encode_utf8, valid_utf8};

verus! {

/// The error of `core::str::from_utf8`, carried through unread.
#[verifier::external_type_specification]
#[verifier::external_body]
pub struct ExUtf8Error(core::str::Utf8Error);

/// `core::str::from_utf8` accepts exactly the byte sequences that are valid
/// UTF-8, and the text it returns has the given bytes as its encoding.
pub assume_specification[ core::str::from_utf8 ](v: &[u8]) -> (r: Result<
    &str,
    core::str::Utf8Error,
>)
    ensures
        r is Ok <==> valid_utf8(v@),
        r matches Ok(text) ==> text.spec_bytes() == v@,
;

/// One return of the host from a boundary call: the status code, and an owned
/// copy of the bytes that the output slots describe. `buffer` is `None` where
/// the output pointer is null. Where `status` is not zero the output slots
/// are undefined, and `buffer` is not looked at.
#[derive(Debug, Clone, PartialEq, Eq)]
pub struct HostReply {
    pub status: i32,
    pub buffer: Option<Vec<u8>>,
}

impl HostReply {
    /// The bytes of the response buffer, if there is one.
    pub open spec fn buffer_bytes(&self) -> Option<Seq<u8>> {
        match self.buffer {
            Some(bytes) => Some(bytes@),
            None => None,
        }
    }
}

/// What a return of the host comes to: a non-zero status is a failure that
/// carries the code, whatever the buffer holds; status zero without a buffer
/// is an empty response; bytes that are not UTF-8 are an encoding failure;
/// any other bytes are returned as the text they encode.
pub open spec fn response_outcome(status: i32, buffer: Option<Seq<u8>>) -> Result<
    Seq<char>,
    BridgeErrorView,
> {
    if status != 0 {
        Err(BridgeErrorView::HostCallFailed(status))
    } else {
        match buffer {
            None => Err(BridgeErrorView::EmptyHostResponse),
            Some(bytes) => if valid_utf8(bytes) {
                Ok(decode_utf8(bytes))
            } else {
                Err(BridgeErrorView::InvalidResponseEncoding)
            },
        }
    }
}

/// Checks what the host returned, in this order: the status code, the
/// presence of a buffer, the encoding of its bytes. The text of a success is
/// an owned copy whose UTF-8 encoding is the buffer, byte for byte.
pub fn decode_response(reply: HostReply) -> (outcome: Result<String, BridgeError>)
    ensures
        outcome_view(outcome) == response_outcome(reply.status, reply.buffer_bytes()),
        outcome matches Ok(text) ==> reply.status == 0 && reply.buffer_bytes() == Some(
            encode_utf8(text@),
        ),
        reply.status != 0 ==> outcome == Err::<String, BridgeError>(
            BridgeError::HostCallFailed(reply.status),
        ),
        reply.status == 0 && reply.buffer is None ==> outcome == Err::<String, BridgeError>(
            BridgeError::EmptyHostResponse,
        ),
        reply.status == 0 && reply.buffer is Some && !valid_utf8(reply.buffer->0@) ==> outcome
            == Err::<String, BridgeError>(BridgeError::InvalidResponseEncoding),
        reply.status == 0 && reply.buffer is Some && valid_utf8(reply.buffer->0@) ==> outcome is Ok,
{
    if reply.status != 0 {
        return Err(BridgeError::HostCallFailed(reply.status));
    }
    match reply.buffer {
        None => Err(BridgeError::EmptyHostResponse),
        Some(bytes) => match core::str::from_utf8(bytes.as_slice()) {
            Ok(text) => {
                proof {
                    vstd::utf8::encode_utf8_decode_utf8(text@);
                }
                Ok(String::from_str(text))
            },
            Err(_) => Err(BridgeError::InvalidResponseEncoding),
        },
    }
}

} // verus!
