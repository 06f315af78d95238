//! One check-and-apply cycle.
//!
//! The orchestrator interprets the version oracle's answer, compares the
//! published target version with the running one, and — only when they
//! differ — drives the image transfer into an update transaction. The
//! transport's raw results (the oracle's reply, the stream's chunks) come in
//! as plain values; the decisions over them are made and proved here.

use vstd::prelude::*;
use vstd::string::StringExecFns;
use vstd::utf8::decode_utf8;
use vstd::utf8::valid_utf8;

use crate::errors::UpdateError;
use crate::install::chunk_views;
use crate::install::install_image;
use crate::install::stream_failed;
use crate::install::streamed_image;
use crate::install::streamed_total;
use crate::install::transfer_verified;
use crate::oracle::is_success_status;
use crate::oracle::parse_oracle_response;
use crate::storage::StorageBank;
use crate::version::FirmwareVersion;
use crate::version::normalized;

verus! {

/// The outcome of one check cycle, consumed by the caller to decide whether
/// a restart is warranted.
#[derive(Clone, Copy, Debug, PartialEq, Eq, Structural)]
pub enum UpdateDecision {
    /// The published version equals the running one; nothing was touched.
    NoUpdateNeeded,
    /// A new image was committed; the device should restart into it.
    UpdateApplied,
    /// The cycle failed; the running image is untouched and the caller may
    /// retry on a later cycle.
    UpdateFailed(UpdateError),
}

impl UpdateDecision {
    /// A restart is warranted exactly after a successful update.
    pub fn restart_required(&self) -> (r: bool)
        ensures
            r == (*self is UpdateApplied),
    {
        match self {
            UpdateDecision::UpdateApplied => true,
            _ => false,
        }
    }
}

/// What the transport produced when the version oracle was queried.
pub enum OracleReply {
    /// An HTTP response arrived, with its status and the body bytes read.
    Response { status: u16, body: Vec<u8> },
    /// The transport failed before any response arrived.
    Unreachable,
}

/// How a cycle should proceed after the version check.
pub enum CyclePlan {
    /// The published target version equals the running version.
    UpToDate,
    /// A newer image should be downloaded for this target version.
    Download(FirmwareVersion),
    /// The cycle is abandoned with this error; nothing is downloaded.
    Abandon(UpdateError),
}

/// What the oracle's reply means: either the normalized target version, or
/// the error the cycle must report.
pub open spec fn oracle_verdict(reply: OracleReply) -> Result<Seq<char>, UpdateError> {
    match reply {
        OracleReply::Unreachable => Err(UpdateError::OracleUnreachable),
        OracleReply::Response { status, body } => {
            if !is_success_status(status) {
                Err(UpdateError::OracleRejected(status))
            } else if !valid_utf8(body@) {
                Err(UpdateError::MalformedVersion)
            } else {
                Ok(normalized(decode_utf8(body@)))
            }
        },
    }
}

/// True when the oracle published a readable target version that differs
/// from the running one, so an update should be attempted.
pub open spec fn update_wanted(current: Seq<char>, reply: OracleReply) -> bool {
    oracle_verdict(reply) matches Ok(t) && t != normalized(current)
}

/// Decides how one cycle proceeds: abandon on any oracle error, do nothing
/// when the normalized versions are equal, and otherwise download the
/// published target version.
pub fn plan_cycle(current_version: &str, reply: &OracleReply) -> (plan: CyclePlan)
    ensures
        oracle_verdict(*reply) matches Err(e) ==> (plan matches CyclePlan::Abandon(a) && a == e),
        oracle_verdict(*reply) matches Ok(t) && t == normalized(current_version@) ==> plan
            is UpToDate,
        update_wanted(current_version@, *reply) ==> (oracle_verdict(*reply) matches Ok(t) && plan
            matches CyclePlan::Download(v) && v@ == t),
{
    match reply {
        OracleReply::Unreachable => CyclePlan::Abandon(UpdateError::OracleUnreachable),
        OracleReply::Response { status, body } => {
            match parse_oracle_response(*status, body.as_slice()) {
                Err(e) => CyclePlan::Abandon(e),
                Ok(target) => {
                    let current = FirmwareVersion::from_raw(current_version);
                    if current.same_as(&target) {
                        CyclePlan::UpToDate
                    } else {
                        CyclePlan::Download(target)
                    }
                },
            }
        },
    }
}

/// The device-specific URL the target version is fetched from.
pub fn oracle_url(device_id: &str) -> (url: String)
    ensures
        url@ == "https://storage.googleapis.com/devices/"@ + device_id@ + "/target"@,
{
    let mut url = String::from_str("https://storage.googleapis.com/devices/");
    url.append(device_id);
    url.append("/target");
    url
}

/// The URL the image for `target` is downloaded from.
pub fn firmware_image_url(target: &FirmwareVersion) -> (url: String)
    ensures
        url@ == "https://storage.googleapis.com/devices/images/"@ + target@ + "/image.bin"@,
{
    let mut url = String::from_str("https://storage.googleapis.com/devices/images/");
    url.append(target.as_str());
    url.append("/image.bin");
    url
}

/// One whole check-and-apply cycle over the storage bank.
///
/// The oracle's reply and the image stream's results are taken as plain
/// values. On an oracle error or when the versions already agree, the bank
/// is untouched. Otherwise the transfer pipeline runs: the active image
/// changes exactly when the byte count passes the completeness gate, and a
/// restart is warranted exactly then. At most one update transaction is
/// opened per invocation, and none is left open.
pub fn do_update_if_available(
    current_version: &str,
    reply: &OracleReply,
    declared_content_length: Option<u64>,
    chunks: &Vec<Vec<u8>>,
    clean_end: bool,
    bank: &mut StorageBank,
) -> (decision: UpdateDecision)
    requires
        update_wanted(current_version@, *reply) ==> streamed_total(
            chunk_views(chunks@),
            declared_content_length,
        ) <= u64::MAX,
    ensures
        decision is NoUpdateNeeded <==> (oracle_verdict(*reply) matches Ok(t) && t == normalized(
            current_version@,
        )),
        decision is NoUpdateNeeded ==> *final(bank) == *old(bank),
        oracle_verdict(*reply) matches Err(e) ==> (decision == UpdateDecision::UpdateFailed(e)
            && *final(bank) == *old(bank)),
        update_wanted(current_version@, *reply) && old(bank).transaction_open() ==> (decision
            == UpdateDecision::UpdateFailed(UpdateError::TransactionUnavailable) && *final(bank)
            == *old(bank)),
        !old(bank).transaction_open() ==> !final(bank).transaction_open(),
        update_wanted(current_version@, *reply) && !old(bank).transaction_open() && stream_failed(
            chunk_views(chunks@),
            declared_content_length,
            clean_end,
        ) ==> (decision == UpdateDecision::UpdateFailed(UpdateError::TransferIO) && final(bank).active() == old(bank).active()),
        update_wanted(current_version@, *reply) && !old(bank).transaction_open() && !stream_failed(
            chunk_views(chunks@),
            declared_content_length,
            clean_end,
        ) && transfer_verified(chunk_views(chunks@), declared_content_length) ==> (decision
            is UpdateApplied && final(bank).active() == streamed_image(
            chunk_views(chunks@),
            declared_content_length,
        )),
        update_wanted(current_version@, *reply) && !old(bank).transaction_open() && !stream_failed(
            chunk_views(chunks@),
            declared_content_length,
            clean_end,
        ) && !transfer_verified(chunk_views(chunks@), declared_content_length) ==> (decision
            == UpdateDecision::UpdateFailed(UpdateError::VerificationFailed) && final(bank).active() == old(bank).active()),
        decision is UpdateApplied ==> (update_wanted(current_version@, *reply) && !old(bank).transaction_open() && transfer_verified(chunk_views(chunks@), declared_content_length)),
{
    match plan_cycle(current_version, reply) {
        CyclePlan::UpToDate => UpdateDecision::NoUpdateNeeded,
        CyclePlan::Abandon(e) => UpdateDecision::UpdateFailed(e),
        CyclePlan::Download(_) => {
            match install_image(bank, declared_content_length, chunks, clean_end) {
                Ok(()) => UpdateDecision::UpdateApplied,
                Err(e) => UpdateDecision::UpdateFailed(e),
            }
        },
    }
}

} // verus!
