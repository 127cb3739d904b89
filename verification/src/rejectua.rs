//! The rejection of a legacy client by its user agent. Old versions of
//! the sync client for iOS crash on the headers of a normal response; they
//! get a minimal response instead, and the handler is never reached.

use crate::error::SERVICE_UNAVAILABLE;
use crate::metrics::{MetricSample, Metrics};
use crate::pattern::{capture, regex_capture};
use crate::text::{decimal_u32, parse_u32};
use vstd::prelude::*;

verus! {

/// The signature of the sync client for iOS, for example
/// `Firefox-iOS-Sync/18.0b1 (iPhone; iPhone OS 13.2.2) (Fennec (synctesting))`.
/// The group `major` is the major version of the application.
pub const IOS_UA_PATTERN: &'static str = r"(?x)
^
Firefox-iOS-Sync/
(?P<major>[0-9]+)\.[.0-9]+    # <appVersion-major>.<appVersion-minor-etc>
b.*                           # b<buildNumber>
\s\(.+                        #  (<deviceModel>
;\siPhone\sOS                 # ; iPhone OS
\s.+\)                        #  <systemVersion>)
\s\(.*\)                      #  (<displayName>)
$
";

/// The first major version that is not rejected.
pub const SAFE_MAJOR: u32 = 20;

/// The counter of rejections.
pub const REJECT_LABEL: &'static str = "error.rejectua";

/// The body of the response to a rejected client.
pub const REJECT_BODY: &'static str = "0";

/// A client that states the major version `major` is rejected: the
/// version is a number from 1 to 19. A client that states none, or one
/// that is no number, is not.
pub open spec fn rejects(major: Option<Seq<char>>) -> bool {
    match major {
        Some(text) => match decimal_u32(text) {
            Some(n) => 0 < n < SAFE_MAJOR,
            None => false,
        },
        None => false,
    }
}

/// Whether a client that states the major version `major` is rejected.
pub fn rejects_major(major: Option<&str>) -> (r: bool)
    ensures
        r == rejects(
            match major {
                Some(m) => Some(m@),
                None => None,
            },
        ),
{
    let number = match major {
        Some(text) => parse_u32(text),
        None => None,
    };
    let major: u32 = match number {
        Some(n) => n,
        None => SAFE_MAJOR,
    };
    0 < major && major < SAFE_MAJOR
}

/// Whether the client with the user agent `ua` gets the minimal response:
/// it bears the signature of the sync client for iOS, in a version from
/// 1 to 19. Builds for development state the version 0 and pass.
pub fn should_reject(ua: &str) -> (r: bool)
    ensures
        r == rejects(regex_capture(IOS_UA_PATTERN@, "major"@, ua@)),
{
    match capture(IOS_UA_PATTERN, "major", ua) {
        Some(major) => rejects_major(Some(major.as_str())),
        None => rejects_major(None),
    }
}

/// What becomes of a request after its user agent was looked at.
#[derive(Debug)]
pub enum UaVerdict {
    /// The request goes on to the handler.
    Pass,
    /// The request is answered at once, with this status and this body,
    /// and the rejection is counted.
    Reject { status: u16, body: &'static str, metric: Option<MetricSample> },
}

/// `verdict` is the verdict on a client whose user agent states the major
/// version `major`, if it states one: a rejected client is answered with
/// the status of an unavailable service and the fixed body, and the
/// rejection is counted once; any other client passes, and nothing is
/// counted.
pub open spec fn is_verdict_on(
    verdict: UaVerdict,
    major: Option<Seq<char>>,
    metrics: Metrics,
) -> bool {
    match verdict {
        UaVerdict::Pass => !rejects(major),
        UaVerdict::Reject { status, body, metric } => {
            &&& rejects(major)
            &&& status == SERVICE_UNAVAILABLE
            &&& body@ == REJECT_BODY@
            &&& metrics.counts(metric, REJECT_LABEL@, 1, None)
        },
    }
}

/// The major version that the signature finds in a user agent, if the
/// request states one and it bears the signature.
pub open spec fn signature_major(user_agent: Option<&str>) -> Option<Seq<char>> {
    match user_agent {
        Some(ua) => regex_capture(IOS_UA_PATTERN@, "major"@, ua@),
        None => None,
    }
}

/// Decides on a request of which the major version was read from its
/// user agent, or none where the user agent does not bear the signature.
pub fn verdict_for_major(major: Option<&str>, metrics: &Metrics) -> (verdict: UaVerdict)
    ensures
        is_verdict_on(
            verdict,
            match major {
                Some(m) => Some(m@),
                None => None,
            },
            *metrics,
        ),
{
    if rejects_major(major) {
        UaVerdict::Reject {
            status: SERVICE_UNAVAILABLE,
            body: REJECT_BODY,
            metric: metrics.incr(REJECT_LABEL),
        }
    } else {
        UaVerdict::Pass
    }
}

/// Decides on a request by its user agent, where it states one that is
/// valid text. A rejected client gets a fixed response that discloses
/// nothing, and the rejection is counted once.
pub fn reject_user_agent(user_agent: Option<&str>, metrics: &Metrics) -> (verdict: UaVerdict)
    ensures
        is_verdict_on(verdict, signature_major(user_agent), *metrics),
{
    let major = match user_agent {
        Some(ua) => capture(IOS_UA_PATTERN, "major", ua),
        None => None,
    };
    match &major {
        Some(text) => verdict_for_major(Some(text.as_str()), metrics),
        None => verdict_for_major(None, metrics),
    }
}

} // verus!
