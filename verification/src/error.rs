//! The ways in which a round trip through the host can fail.
use crate::decimal::{decimal_string, decimal_text};
use vstd::prelude::*;
use vstd::string::StringExecFns;

verus! {

/// Why a call of a contract entry point failed. Every failure is final:
/// nothing is retried, and no partial result is handed out with it.
#[derive(Debug, Clone, PartialEq, Eq)]
pub enum BridgeError {
    /// The host returned this non-zero status code.
    HostCallFailed(i32),
    /// The host returned status zero and a null response buffer.
    EmptyHostResponse,
    /// The host's response bytes are not valid UTF-8.
    InvalidResponseEncoding,
    /// The caller gave this name, which is not on the allow-list.
    PolicyRejected(String),
}

/// A failure as a mathematical value: the rejected name is a sequence of
/// characters.
pub enum BridgeErrorView {
    HostCallFailed(i32),
    EmptyHostResponse,
    InvalidResponseEncoding,
    PolicyRejected(Seq<char>),
}

impl View for BridgeError {
    type V = BridgeErrorView;

    open spec fn view(&self) -> BridgeErrorView {
        match self {
            BridgeError::HostCallFailed(code) => BridgeErrorView::HostCallFailed(*code),
            BridgeError::EmptyHostResponse => BridgeErrorView::EmptyHostResponse,
            BridgeError::InvalidResponseEncoding => BridgeErrorView::InvalidResponseEncoding,
            BridgeError::PolicyRejected(name) => BridgeErrorView::PolicyRejected(name@),
        }
    }
}

impl BridgeErrorView {
    /// The message that tells the external caller what went wrong.
    pub open spec fn message(self) -> Seq<char> {
        match self {
            BridgeErrorView::HostCallFailed(code) => "Host function returned error code "@
                + decimal_text(code as int),
            BridgeErrorView::EmptyHostResponse => "Response pointer is null"@,
            BridgeErrorView::InvalidResponseEncoding => "Invalid UTF-8 response"@,
            BridgeErrorView::PolicyRejected(name) => "name "@ + name
                + " is not allowed to transfer sample FTs"@,
        }
    }

    /// True where both failures are of the same kind, whatever code or name
    /// they carry.
    pub open spec fn same_kind(self, other: BridgeErrorView) -> bool {
        match self {
            BridgeErrorView::HostCallFailed(_) => other is HostCallFailed,
            BridgeErrorView::EmptyHostResponse => other is EmptyHostResponse,
            BridgeErrorView::InvalidResponseEncoding => other is InvalidResponseEncoding,
            BridgeErrorView::PolicyRejected(_) => other is PolicyRejected,
        }
    }
}

/// Every message begins with a character of its kind's own.
proof fn lemma_first_character(error: BridgeErrorView)
    ensures
        error.message().len() > 0,
        error.message()[0] == match error {
            BridgeErrorView::HostCallFailed(_) => 'H',
            BridgeErrorView::EmptyHostResponse => 'R',
            BridgeErrorView::InvalidResponseEncoding => 'I',
            BridgeErrorView::PolicyRejected(_) => 'n',
        },
{
    reveal_strlit("Host function returned error code ");
    reveal_strlit("Response pointer is null");
    reveal_strlit("Invalid UTF-8 response");
    reveal_strlit("name ");
}

/// The message identifies which condition occurred: two failures with the
/// same message are of the same kind.
pub proof fn lemma_message_tells_the_kind(left: BridgeErrorView, right: BridgeErrorView)
    requires
        left.message() == right.message(),
    ensures
        left.same_kind(right),
{
    lemma_first_character(left);
    lemma_first_character(right);
}

/// What a call of an entry point comes to, as a mathematical value.
pub open spec fn outcome_view(outcome: Result<String, BridgeError>) -> Result<
    Seq<char>,
    BridgeErrorView,
> {
    match outcome {
        Ok(text) => Ok(text@),
        Err(error) => Err(error@),
    }
}

impl BridgeError {
    /// The message for the external caller: which of the four conditions
    /// occurred, with the status code or the rejected name in it.
    pub fn message(&self) -> (text: String)
        ensures
            text@ == self@.message(),
    {
        match self {
            BridgeError::HostCallFailed(code) => {
                let mut text = String::from_str("Host function returned error code ");
                text.append(decimal_string(*code).as_str());
                text
            },
            BridgeError::EmptyHostResponse => String::from_str("Response pointer is null"),
            BridgeError::InvalidResponseEncoding => String::from_str("Invalid UTF-8 response"),
            BridgeError::PolicyRejected(name) => {
                let mut text = String::from_str("name ");
                text.append(name.as_str());
                text.append(" is not allowed to transfer sample FTs");
                text
            },
        }
    }
}

} // verus!
