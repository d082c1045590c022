//! What went wrong in a request to GitHub. Only known classes are named, never what the
//! GitHub CLI printed.

use crate::reviewers;
use crate::text;
use vstd::prelude::*;

verus! {

/// The pattern of an HTTP status in a message.
pub const HTTP_STATUS: &'static str = r"(?i)\bHTTP\s+([1-5][0-9]{2})\b";

/// The classes of failures.
#[derive(Clone, Copy, Debug, PartialEq, Eq, Structural)]
pub enum FailureKind {
    Authentication,
    RateLimit,
    Access,
    Server,
    Dns,
    HandshakeTimeout,
    Certificate,
    Timeout,
    Tls,
    Connection,
    Unclassified,
}

impl FailureKind {
    /// The name of the group that a class belongs to.
    pub open spec fn category_text(self) -> Seq<char> {
        match self {
            FailureKind::Authentication => "authentication"@,
            FailureKind::RateLimit => "rate_limit"@,
            FailureKind::Access => "access"@,
            FailureKind::Server => "github_server"@,
            FailureKind::Dns => "dns"@,
            FailureKind::HandshakeTimeout => "timeout"@,
            FailureKind::Certificate => "tls"@,
            FailureKind::Timeout => "timeout"@,
            FailureKind::Tls => "tls"@,
            FailureKind::Connection => "connection"@,
            FailureKind::Unclassified => "unclassified"@,
        }
    }

    /// The name of a class.
    pub open spec fn reason_text(self) -> Seq<char> {
        match self {
            FailureKind::Authentication => "authentication_failed"@,
            FailureKind::RateLimit => "rate_limited"@,
            FailureKind::Access => "access_denied"@,
            FailureKind::Server => "server_error"@,
            FailureKind::Dns => "dns_resolution_failed"@,
            FailureKind::HandshakeTimeout => "tls_handshake_timeout"@,
            FailureKind::Certificate => "certificate_verification_failed"@,
            FailureKind::Timeout => "request_timeout"@,
            FailureKind::Tls => "tls_failure"@,
            FailureKind::Connection => "connection_interrupted"@,
            FailureKind::Unclassified => "unclassified"@,
        }
    }

    /// What the user is told.
    pub open spec fn message_text(self) -> Seq<char> {
        match self {
            FailureKind::Authentication => "GitHub authentication failed. Run gh auth login --hostname github.com."@,
            FailureKind::RateLimit => "GitHub rate limit reached; polling will back off."@,
            FailureKind::Access => {
                "GitHub access denied or repository unavailable; check repository permissions and organization SSO."@
            },
            FailureKind::Server => "GitHub reported a server error; polling will retry automatically."@,
            FailureKind::Dns => "GitHub hostname could not be resolved; check network connectivity."@,
            FailureKind::HandshakeTimeout => "GitHub secure connection timed out; try again shortly."@,
            FailureKind::Certificate => {
                "GitHub certificate verification failed; check certificate and network settings."@
            },
            FailureKind::Timeout => "GitHub request timed out; check connectivity."@,
            FailureKind::Tls => "GitHub secure connection failed; try again or check network settings."@,
            FailureKind::Connection => "GitHub connection was interrupted; polling will retry automatically."@,
            FailureKind::Unclassified => "GitHub request failed; check network connectivity and gh access."@,
        }
    }

    /// The name of the group that a class belongs to.
    pub fn category(self) -> (r: &'static str)
        ensures
            r@ == self.category_text(),
    {
        match self {
            FailureKind::Authentication => "authentication",
            FailureKind::RateLimit => "rate_limit",
            FailureKind::Access => "access",
            FailureKind::Server => "github_server",
            FailureKind::Dns => "dns",
            FailureKind::HandshakeTimeout => "timeout",
            FailureKind::Certificate => "tls",
            FailureKind::Timeout => "timeout",
            FailureKind::Tls => "tls",
            FailureKind::Connection => "connection",
            FailureKind::Unclassified => "unclassified",
        }
    }

    /// The name of a class.
    pub fn reason(self) -> (r: &'static str)
        ensures
            r@ == self.reason_text(),
    {
        match self {
            FailureKind::Authentication => "authentication_failed",
            FailureKind::RateLimit => "rate_limited",
            FailureKind::Access => "access_denied",
            FailureKind::Server => "server_error",
            FailureKind::Dns => "dns_resolution_failed",
            FailureKind::HandshakeTimeout => "tls_handshake_timeout",
            FailureKind::Certificate => "certificate_verification_failed",
            FailureKind::Timeout => "request_timeout",
            FailureKind::Tls => "tls_failure",
            FailureKind::Connection => "connection_interrupted",
            FailureKind::Unclassified => "unclassified",
        }
    }

    /// What the user is told.
    pub fn message(self) -> (r: &'static str)
        ensures
            r@ == self.message_text(),
    {
        match self {
            FailureKind::Authentication => "GitHub authentication failed. Run gh auth login --hostname github.com.",
            FailureKind::RateLimit => "GitHub rate limit reached; polling will back off.",
            FailureKind::Access => {
                "GitHub access denied or repository unavailable; check repository permissions and organization SSO."
            },
            FailureKind::Server => "GitHub reported a server error; polling will retry automatically.",
            FailureKind::Dns => "GitHub hostname could not be resolved; check network connectivity.",
            FailureKind::HandshakeTimeout => "GitHub secure connection timed out; try again shortly.",
            FailureKind::Certificate => {
                "GitHub certificate verification failed; check certificate and network settings."
            },
            FailureKind::Timeout => "GitHub request timed out; check connectivity.",
            FailureKind::Tls => "GitHub secure connection failed; try again or check network settings.",
            FailureKind::Connection => "GitHub connection was interrupted; polling will retry automatically.",
            FailureKind::Unclassified => "GitHub request failed; check network connectivity and gh access.",
        }
    }
}

/// A failure of a request.
pub struct RequestFailure {
    pub kind: FailureKind,
    pub category: &'static str,
    pub reason: &'static str,
    pub http_status: Option<u16>,
    pub message: &'static str,
}

impl RequestFailure {
    /// Whether a failure is of a class, with a status, and says what belongs to the class.
    pub open spec fn is(&self, kind: FailureKind, http_status: Option<u16>) -> bool {
        &&& self.kind == kind
        &&& self.http_status == http_status
        &&& self.category@ == kind.category_text()
        &&& self.reason@ == kind.reason_text()
        &&& self.message@ == kind.message_text()
    }
}

/// The class of a failure, from the status and what was printed, in lower case.
pub open spec fn kind_of(status: Option<u16>, lower: Seq<char>) -> FailureKind {
    if status == Some(401u16) || text::occurs(lower, "bad credentials"@) || text::occurs(lower, "gh auth login"@)
        || text::occurs(lower, "authentication"@) {
        FailureKind::Authentication
    } else if status == Some(429u16) || text::occurs(lower, "rate limit"@) {
        FailureKind::RateLimit
    } else if status == Some(403u16) || status == Some(404u16) {
        FailureKind::Access
    } else if status is Some && status->0 >= 500 {
        FailureKind::Server
    } else if text::occurs(lower, "could not resolve"@) || text::occurs(lower, "no such host"@) || text::occurs(
        lower,
        "lookup "@,
    ) {
        FailureKind::Dns
    } else if text::occurs(lower, "tls handshake timeout"@) || text::occurs(lower, "tls handshake timed out"@) {
        FailureKind::HandshakeTimeout
    } else if text::occurs(lower, "x509"@) || text::occurs(lower, "certificate"@) {
        FailureKind::Certificate
    } else if text::occurs(lower, "timeout"@) || text::occurs(lower, "timed out"@) || text::occurs(
        lower,
        "deadline exceeded"@,
    ) {
        FailureKind::Timeout
    } else if text::occurs(lower, "tls"@) {
        FailureKind::Tls
    } else if text::occurs(lower, "connection reset"@) || text::occurs(lower, "connection refused"@) || text::occurs(
        lower,
        "network is unreachable"@,
    ) || text::occurs(lower, "unexpected eof"@) || text::occurs(lower, "broken pipe"@) {
        FailureKind::Connection
    } else {
        FailureKind::Unclassified
    }
}

/// The class of a failure, from the status and what was printed, in lower case.
pub fn classify(status: Option<u16>, lower: &str) -> (r: RequestFailure)
    ensures
        r.is(kind_of(status, lower@), status),
{
    let code: u16 = match status {
        Some(code) => code,
        None => 0,
    };
    let kind = if code == 401 || text::contains(lower, "bad credentials") || text::contains(lower, "gh auth login")
        || text::contains(lower, "authentication") {
        FailureKind::Authentication
    } else if code == 429 || text::contains(lower, "rate limit") {
        FailureKind::RateLimit
    } else if code == 403 || code == 404 {
        FailureKind::Access
    } else if code >= 500 {
        FailureKind::Server
    } else if text::contains(lower, "could not resolve") || text::contains(lower, "no such host") || text::contains(
        lower,
        "lookup ",
    ) {
        FailureKind::Dns
    } else if text::contains(lower, "tls handshake timeout") || text::contains(lower, "tls handshake timed out") {
        FailureKind::HandshakeTimeout
    } else if text::contains(lower, "x509") || text::contains(lower, "certificate") {
        FailureKind::Certificate
    } else if text::contains(lower, "timeout") || text::contains(lower, "timed out") || text::contains(
        lower,
        "deadline exceeded",
    ) {
        FailureKind::Timeout
    } else if text::contains(lower, "tls") {
        FailureKind::Tls
    } else if text::contains(lower, "connection reset") || text::contains(lower, "connection refused") || text::contains(
        lower,
        "network is unreachable",
    ) || text::contains(lower, "unexpected eof") || text::contains(lower, "broken pipe") {
        FailureKind::Connection
    } else {
        FailureKind::Unclassified
    };
    RequestFailure {
        kind,
        category: kind.category(),
        reason: kind.reason(),
        http_status: status,
        message: kind.message(),
    }
}

/// The status that digits write.
pub open spec fn status_number(digits: Option<Seq<char>>) -> Option<u16> {
    match digits {
        Some(digits) => match text::number_of(digits) {
            Some(n) => if n <= u16::MAX {
                Some(n as u16)
            } else {
                None
            },
            None => None,
        },
        None => None,
    }
}

/// The status that digits write.
pub fn parse_status(digits: &Option<String>) -> (r: Option<u16>)
    ensures
        r == status_number(digits.deep_view()),
{
    match digits {
        Some(digits) => match text::parse_u64(digits) {
            Some(n) => if n <= u16::MAX as u64 {
                Some(n as u16)
            } else {
                None
            },
            None => None,
        },
        None => None,
    }
}

/// The status that a message names.
pub open spec fn named_status(message: Seq<char>) -> Option<u16> {
    status_number(reviewers::first_group(HTTP_STATUS@, message))
}

/// The class of a failure by what was printed.
pub open spec fn failure_of(printed: Seq<char>) -> FailureKind {
    kind_of(named_status(printed), text::unicode_lowercase(printed))
}

/// The class of a failure by what the GitHub CLI printed.
pub fn classify_failure(stderr: &str) -> (r: RequestFailure)
    ensures
        r.is(failure_of(stderr@), named_status(stderr@)),
{
    classify(parse_status(&reviewers::capture(HTTP_STATUS, stderr)), &text::lowercase(stderr))
}

/// Whether a message, in small letters, speaks of a limit on requests.
pub open spec fn names_limit(message: Seq<char>) -> bool {
    let small = text::ascii_lowercase(message);
    text::occurs(small, "rate limit"@) || text::occurs(small, "abuse detection"@)
}

/// Whether a message speaks of a limit on requests.
pub fn is_rate_limit(message: &str) -> (r: bool)
    ensures
        r == names_limit(message@),
{
    let small = text::to_ascii_lowercase(message);
    text::contains(&small, "rate limit") || text::contains(&small, "abuse detection")
}

} // verus!
