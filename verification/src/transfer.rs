//! Transfer of sample fungible tokens: only a caller whose name is on the
//! allow-list reaches the host's transfer capability.
use crate::error::BridgeError;
use vstd::prelude::*;
use vstd::string::StringSliceAdditionalSpecFns;
use vstd::utf8::encode_utf8_decode_utf8;

verus! {

/// The names that may ask for a transfer.
pub const WHITELIST: [&'static str; 2] = ["rubix1", "rubix2"];

/// The request to transfer sample tokens: who asks, and the descriptor of the
/// transfer, which is handed to the host as it is.
#[derive(Debug, Clone, PartialEq, Eq)]
pub struct TransferSampleFTReq<T> {
    pub name: String,
    pub ft_info: T,
}

/// True where `name` is on the allow-list: it equals one of the listed names
/// character for character, so case counts.
pub open spec fn is_whitelisted(name: Seq<char>) -> bool {
    name == "rubix1"@ || name == "rubix2"@
}

/// The allow-list spelled out: a listed name has the six characters of
/// `rubix1` or of `rubix2`, in lower case, and nothing before or after them.
pub proof fn lemma_whitelist_is_exact(name: Seq<char>)
    ensures
        is_whitelisted(name) <==> (name == seq!['r', 'u', 'b', 'i', 'x', '1'] || name
            == seq!['r', 'u', 'b', 'i', 'x', '2']),
{
    reveal_strlit("rubix1");
    reveal_strlit("rubix2");
    assert("rubix1"@ =~= seq!['r', 'u', 'b', 'i', 'x', '1']);
    assert("rubix2"@ =~= seq!['r', 'u', 'b', 'i', 'x', '2']);
}

/// Tells whether two texts are the same, character for character.
pub fn same_text(left: &str, right: &str) -> (same: bool)
    ensures
        same == (left@ == right@),
{
    let left_bytes = left.as_bytes();
    let right_bytes = right.as_bytes();
    proof {
        encode_utf8_decode_utf8(left@);
        encode_utf8_decode_utf8(right@);
    }
    if left_bytes.len() != right_bytes.len() {
        return false;
    }
    let mut at: usize = 0;
    while at < left_bytes.len()
        invariant
            at <= left_bytes.len(),
            left_bytes.len() == right_bytes.len(),
            left_bytes@ == left.spec_bytes(),
            right_bytes@ == right.spec_bytes(),
            forall|i: int| 0 <= i < at ==> left_bytes@[i] == right_bytes@[i],
        decreases left_bytes.len() - at,
    {
        if left_bytes[at] != right_bytes[at] {
            return false;
        }
        at += 1;
    }
    assert(left_bytes@ =~= right_bytes@);
    true
}

/// Tells whether `name` is one of `names`.
pub fn contains_name(names: &[&str], name: &str) -> (found: bool)
    ensures
        found == exists|i: int| 0 <= i < names@.len() && (#[trigger] names@[i])@ == name@,
{
    let mut at: usize = 0;
    while at < names.len()
        invariant
            at <= names.len(),
            forall|i: int| 0 <= i < at ==> (#[trigger] names@[i])@ != name@,
        decreases names.len() - at,
    {
        if same_text(names[at], name) {
            return true;
        }
        at += 1;
    }
    false
}

/// The check before the call: `Ok` for a name on the allow-list, and for any
/// other name the rejection that carries it.
pub fn authorize(name: String) -> (verdict: Result<(), BridgeError>)
    ensures
        is_whitelisted(name@) ==> verdict is Ok,
        !is_whitelisted(name@) ==> verdict == Err::<(), BridgeError>(
            BridgeError::PolicyRejected(name),
        ),
{
    let names = WHITELIST;
    if contains_name(names.as_slice(), name.as_str()) {
        Ok(())
    } else {
        Err(BridgeError::PolicyRejected(name))
    }
}

/// What a transfer for `request` through `transfer` may come to. For a
/// caller on the allow-list it is what `transfer` returns for the descriptor
/// as it came; for any other caller it is the rejection that names the
/// caller.
pub open spec fn transfer_outcome<T, R, H: FnOnce(T) -> R>(
    request: TransferSampleFTReq<T>,
    transfer: H,
    outcome: Result<R, BridgeError>,
) -> bool {
    if is_whitelisted(request.name@) {
        outcome matches Ok(resp) && call_ensures(transfer, (request.ft_info,), resp)
    } else {
        outcome == Err::<R, BridgeError>(BridgeError::PolicyRejected(request.name))
    }
}

/// Transfers sample tokens for a caller on the allow-list: `transfer` is
/// called once, with the descriptor as it came, and what it returns is handed
/// back unchanged. For any other caller the outcome is the rejection that
/// names the caller, and `transfer` is not called: it need not even accept
/// the descriptor then.
pub fn transfer_sample_ft<T, R, H: FnOnce(T) -> R>(
    transfer_sample_ft_req: TransferSampleFTReq<T>,
    transfer: H,
) -> (outcome: Result<R, BridgeError>)
    requires
        is_whitelisted(transfer_sample_ft_req.name@) ==> call_requires(
            transfer,
            (transfer_sample_ft_req.ft_info,),
        ),
    ensures
        transfer_outcome(transfer_sample_ft_req, transfer, outcome),
        outcome is Ok <==> is_whitelisted(transfer_sample_ft_req.name@),
{
    let input_name = transfer_sample_ft_req.name;
    match authorize(input_name) {
        Err(e) => Err(e),
        Ok(_) => {
            let ft_transfer_info = transfer_sample_ft_req.ft_info;
            Ok(transfer(ft_transfer_info))
        },
    }
}

/// Two transfers for the same request through a capability whose result is
/// fixed by the descriptor come to the same outcome.
pub proof fn lemma_transfer_is_repeatable<T, R, H: FnOnce(T) -> R>(
    request: TransferSampleFTReq<T>,
    transfer: H,
    first: Result<R, BridgeError>,
    second: Result<R, BridgeError>,
)
    requires
        forall|one: R, other: R|
            #[trigger] call_ensures(transfer, (request.ft_info,), one) && #[trigger] call_ensures(
                transfer,
                (request.ft_info,),
                other,
            ) ==> one == other,
        transfer_outcome(request, transfer, first),
        transfer_outcome(request, transfer, second),
    ensures
        first == second,
{
}

} // verus!
