//! Interpreting the version oracle's answer.
//!
//! The transport delivers a status code and a short body of at most
//! [`TARGET_VERSION_MAX_LENGTH`] bytes. A non-success status is a rejection
//! carrying that status; a body that is not valid UTF-8 is a malformed
//! version; otherwise the decoded text, normalized, is the target version.

use vstd::prelude::*;
use vstd::utf8::decode_utf8;
use vstd::utf8::valid_utf8;

use crate::errors::UpdateError;
use crate::version::FirmwareVersion;
use crate::version::normalized;

verus! {

/// The oracle's answer is a short text token, never a stream: at most this
/// many bytes of it are read.
pub const TARGET_VERSION_MAX_LENGTH: usize = 64;

/// True for the HTTP success range.
pub open spec fn is_success_status(status: u16) -> bool {
    200 <= status < 300
}

/// Relies on `core::str::from_utf8`: it succeeds exactly on valid UTF-8
/// input, and the returned slice holds exactly the characters those bytes
/// encode.
#[verifier::external_body]
fn bytes_as_utf8(bytes: &[u8]) -> (r: Option<&str>)
    ensures
        r is Some <==> valid_utf8(bytes@),
        r matches Some(s) ==> s@ == decode_utf8(bytes@),
{
    core::str::from_utf8(bytes).ok()
}

/// Turns the oracle's status and body into the published target version:
/// rejection on a non-success status, a malformed-version error on bytes
/// that are not UTF-8, and otherwise the decoded token with one trailing
/// line terminator stripped.
pub fn parse_oracle_response(status: u16, body: &[u8]) -> (r: Result<
    FirmwareVersion,
    UpdateError,
>)
    ensures
        !is_success_status(status) ==> (r matches Err(e) && e == UpdateError::OracleRejected(
            status,
        )),
        is_success_status(status) && !valid_utf8(body@) ==> (r matches Err(e) && e
            == UpdateError::MalformedVersion),
        is_success_status(status) && valid_utf8(body@) ==> (r matches Ok(v) && v@ == normalized(
            decode_utf8(body@),
        )),
{
    if status < 200 || status >= 300 {
        return Err(UpdateError::OracleRejected(status));
    }
    match bytes_as_utf8(body) {
        Some(text) => Ok(FirmwareVersion::from_raw(text)),
        None => Err(UpdateError::MalformedVersion),
    }
}

} // verus!
