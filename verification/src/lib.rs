//! Contract-side adapters for a Rubix host.
//!
//! A contract entry point encodes its request, hands the bytes to a
//! capability of the host, and turns what the host hands back into a text or
//! a classified failure. The host is a parameter of every entry point, so the
//! contracts hold of any host, the real one and a stub alike.
//!
//! - [`admin`]: registration of an admin through the capability that
//!   persists a JSON document.
//! - [`transfer`]: transfer of sample tokens, behind an allow-list.
//! - [`bridge`]: the round trip that the entry points share, and what holds
//!   of it.
//! - [`reply`]: what the host returns, and what it comes to.
//! - [`json`]: the JSON text of a request.
//! - [`error`]: the failures and their messages.
//! - [`decimal`]: the decimal text of a status code.
pub mod admin;
pub mod bridge;
pub mod decimal;
pub mod error;
pub mod json;
pub mod reply;
pub mod transfer;

pub use admin::{add_admin, call_write_to_file, AddAdminReq};
pub use bridge::invoke;
pub use error::BridgeError;
pub use reply::{decode_response, HostReply};
pub use transfer::{transfer_sample_ft, TransferSampleFTReq, WHITELIST};
