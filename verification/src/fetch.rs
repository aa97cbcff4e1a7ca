//! What a request came to, as the caller that made it reports it, and the
//! line that tells of a failure.

use vstd::prelude::*;

verus! {

/// What came of one GET request. The library makes no request itself: its
/// caller does, and hands over one of these.
#[derive(Debug)]
pub enum Fetched {
    /// No answer came; `detail` is the transport's own message.
    RequestFailed { detail: String },
    /// An answer came, but its body could not be read.
    BodyFailed { detail: String },
    /// The body of the answer.
    Body { text: String },
}

/// The two services that are asked.
#[derive(Debug, Clone, Copy, PartialEq, Eq, Structural)]
pub enum Service {
    Geocoder,
    Weather,
}

/// The three points at which asking a service can fail.
#[derive(Debug, Clone, Copy, PartialEq, Eq, Structural)]
pub enum Failure {
    /// The request was not answered.
    Request,
    /// The answer's body could not be read.
    Body,
    /// The body is not a JSON document.
    Decode,
}

/// How the line that tells of a failure begins. Each point of failure of a
/// service has a beginning of its own.
pub open spec fn diagnostic_prefix(service: Service, failure: Failure) -> Seq<char> {
    match failure {
        Failure::Request => "[Err] Failed to get a response: "@,
        Failure::Body => match service {
            Service::Geocoder => "[Err] Request content failed to load: "@,
            Service::Weather => "Request content failed to load: "@,
        },
        Failure::Decode => match service {
            Service::Geocoder => "[Err] Failed to parse request content: "@,
            Service::Weather => "Failed to parse request content: "@,
        },
    }
}

/// The line that tells of a failure: its beginning, then the detail that the
/// failing part gave.
pub fn diagnostic(service: Service, failure: Failure, detail: &str) -> (line: String)
    ensures
        line@ == diagnostic_prefix(service, failure) + detail@,
{
    let prefix: &str = match failure {
        Failure::Request => "[Err] Failed to get a response: ",
        Failure::Body => match service {
            Service::Geocoder => "[Err] Request content failed to load: ",
            Service::Weather => "Request content failed to load: ",
        },
        Failure::Decode => match service {
            Service::Geocoder => "[Err] Failed to parse request content: ",
            Service::Weather => "Failed to parse request content: ",
        },
    };
    String::from_str(prefix).concat(detail)
}

/// The lines of two different points of failure of one service differ,
/// whatever the details: each begins in its own way.
pub proof fn diagnostics_tell_failures_apart(
    service: Service,
    one: Failure,
    other: Failure,
    detail: Seq<char>,
    other_detail: Seq<char>,
)
    requires
        one != other,
    ensures
        diagnostic_prefix(service, one) + detail != diagnostic_prefix(service, other)
            + other_detail,
{
    reveal_strlit("[Err] Failed to get a response: ");
    reveal_strlit("[Err] Request content failed to load: ");
    reveal_strlit("Request content failed to load: ");
    reveal_strlit("[Err] Failed to parse request content: ");
    reveal_strlit("Failed to parse request content: ");
    let left = diagnostic_prefix(service, one) + detail;
    let right = diagnostic_prefix(service, other) + other_detail;
    match service {
        Service::Geocoder => {
            // After "[Err] " the lines go on with "Failed to g", "R" and "Failed to p".
            if one == Failure::Body || other == Failure::Body {
                assert(left[6] != right[6]);
            } else {
                assert(left[16] != right[16]);
            }
        },
        Service::Weather => {
            assert(left[0] != right[0]);
        },
    }
}

} // verus!
