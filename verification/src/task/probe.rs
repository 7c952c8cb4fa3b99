//! Probe interpretation: the metadata request against the task's URL is
//! performed by the surrounding application; this module decides, from the
//! raw header values it observed, whether the download can proceed, how
//! long the resource is, and whether byte ranges may be used.

use vstd::prelude::*;

use crate::decimal::{parse_decimal, spec_parse_decimal};
use crate::task::controller::{DownloadError, Phase};

verus! {

/// What the metadata request observed: either a transport-level failure,
/// or a response with the raw values of the length and range-capability
/// headers (absent where the header was absent) and the URL the response
/// was finally served from (absent where no redirect was observed).
pub enum ProbeOutcome {
    Failure { message: String, inner_message: String },
    Response {
        content_length: Option<String>,
        accept_ranges: Option<String>,
        effective_url: Option<String>,
    },
}

/// The usable content length a probe outcome establishes: the value of a
/// present, well-formed, positive length header. A transport failure, an
/// absent or malformed length header, and a zero length all yield `None` —
/// partitioning cannot proceed without a known positive length.
pub open spec fn probe_length(p: ProbeOutcome) -> Option<usize> {
    match p {
        ProbeOutcome::Failure { .. } => None,
        ProbeOutcome::Response { content_length, .. } => match content_length {
            None => None,
            Some(s) => match spec_parse_decimal(s@) {
                None => None,
                Some(v) => if v >= 1 {
                    Some(v)
                } else {
                    None
                },
            },
        },
    }
}

/// Whether a probe outcome advertises byte-range support: the
/// range-capability header is present and equals `bytes` exactly. An
/// absent or mismatched header defaults to unsupported.
pub open spec fn probe_use_range(p: ProbeOutcome) -> bool {
    match p {
        ProbeOutcome::Failure { .. } => false,
        ProbeOutcome::Response { accept_ranges, .. } => match accept_ranges {
            None => false,
            Some(s) => s@ == "bytes"@,
        },
    }
}

/// Whether `s` equals the range-capability unit `bytes`.
pub fn is_bytes_unit(s: &String) -> (r: bool)
    ensures
        r == (s@ == "bytes"@),
{
    let unit = String::from_str("bytes");
    *s == unit
}

/// Decide what a probe outcome means for the task.
///
/// Returns the content length and range-support flag exactly when the
/// probe reached the server and announced a well-formed positive length;
/// every other outcome is an `Init`-phase error: a transport failure keeps
/// its own messages, and an absent, malformed or zero length header is
/// reported as an unusable length.
pub fn interpret_probe(p: ProbeOutcome) -> (r: Result<(usize, bool), DownloadError>)
    ensures
        match r {
            Ok((length, use_range)) => probe_length(p) == Some(length) && use_range
                == probe_use_range(p) && length >= 1,
            Err(e) => probe_length(p) is None && e.phase == Phase::Init && match p {
                ProbeOutcome::Failure { message, inner_message } => e.message@ == message@
                    && e.inner_message@ == inner_message@,
                ProbeOutcome::Response { content_length, .. } => e.message@
                    == "missing, malformed or zero length header"@ && match content_length {
                    Some(s) => e.inner_message@ == s@,
                    None => e.inner_message@ == Seq::<char>::empty(),
                },
            },
        },
{
    match p {
        ProbeOutcome::Failure { message, inner_message } => Err(
            DownloadError { phase: Phase::Init, message, inner_message },
        ),
        ProbeOutcome::Response { content_length, accept_ranges, .. } => {
            let length_error = DownloadError {
                phase: Phase::Init,
                message: String::from_str("missing, malformed or zero length header"),
                inner_message: match &content_length {
                    Some(s) => s.clone(),
                    None => String::new(),
                },
            };
            match content_length {
                None => Err(length_error),
                Some(s) => match parse_decimal(s.as_str()) {
                    None => Err(length_error),
                    Some(length) => {
                        if length == 0 {
                            Err(length_error)
                        } else {
                            let use_range = match &accept_ranges {
                                None => false,
                                Some(u) => is_bytes_unit(u),
                            };
                            Ok((length, use_range))
                        }
                    },
                },
            }
        },
    }
}

} // verus!
