use vstd::prelude::*;
use vstd::string::*;
use ureq::ErrorKind;

verus! {

/// Seconds a liveness probe may take before it counts as failed.
pub const PROBE_TIMEOUT_SECS: u64 = 10;

/// How a probe failed below HTTP.
#[derive(Clone, Copy, Debug, PartialEq, Eq, Structural)]
pub enum TransportKind {
    /// The host name did not resolve.
    Dns,
    /// No connection could be opened.
    ConnectionFailed,
    /// The connection broke while in use.
    Io,
    /// Any other transport fault.
    Other,
}

/// Why a request failed below HTTP, one variant for each kind the HTTP client
/// reports.
#[derive(Clone, Copy, Debug, PartialEq, Eq, Structural)]
pub enum ProbeFault {
    InvalidUrl,
    UnknownScheme,
    Dns,
    InsecureRequestHttpsOnly,
    ConnectionFailed,
    TooManyRedirects,
    BadStatus,
    BadHeader,
    Io,
    InvalidProxyUrl,
    ProxyConnect,
    ProxyUnauthorized,
    /// An HTTP error status reported as a transport fault.
    Http,
}

/// What a liveness probe observed.
#[derive(Clone, Debug, PartialEq, Eq)]
pub enum ProbeOutcome {
    /// An HTTP response came back with this status code, success or error.
    Responded(u16),
    /// The request failed below HTTP; the text describes the fault.
    TransportFailed(ProbeFault, String),
}

/// A failure of an HTTP request below HTTP, as the client reports it.
#[verifier::external_type_specification]
#[verifier::external_body]
pub struct ExTransport(ureq::Transport);

/// Relies on `ureq::head(..).timeout(..).call()` and `Response::status`: `Ok`
/// carries the response, `Error::Status` an error status code with its
/// response; both give the code. `Error::Transport` is a failure below HTTP.
/// The outcome depends on the network, so nothing is promised of it.
#[verifier::external_body]
fn send_head(address: &str, timeout_secs: u64) -> (r: Result<u16, ureq::Transport>) {
    match ureq::head(address).timeout(std::time::Duration::from_secs(timeout_secs)).call() {
        Ok(resp) => Ok(resp.status()),
        Err(ureq::Error::Status(code, _)) => Ok(code),
        Err(ureq::Error::Transport(e)) => Err(e),
    }
}

/// Relies on `ureq::Transport::kind`: which kind of fault it was, one variant
/// for each `ureq::ErrorKind`. Nothing is promised of which one.
#[verifier::external_body]
fn transport_fault(e: &ureq::Transport) -> (r: ProbeFault) {
    match e.kind() {
        ErrorKind::InvalidUrl => ProbeFault::InvalidUrl,
        ErrorKind::UnknownScheme => ProbeFault::UnknownScheme,
        ErrorKind::Dns => ProbeFault::Dns,
        ErrorKind::InsecureRequestHttpsOnly => ProbeFault::InsecureRequestHttpsOnly,
        ErrorKind::ConnectionFailed => ProbeFault::ConnectionFailed,
        ErrorKind::TooManyRedirects => ProbeFault::TooManyRedirects,
        ErrorKind::BadStatus => ProbeFault::BadStatus,
        ErrorKind::BadHeader => ProbeFault::BadHeader,
        ErrorKind::Io => ProbeFault::Io,
        ErrorKind::InvalidProxyUrl => ProbeFault::InvalidProxyUrl,
        ErrorKind::ProxyConnect => ProbeFault::ProxyConnect,
        ErrorKind::ProxyUnauthorized => ProbeFault::ProxyUnauthorized,
        ErrorKind::HTTP => ProbeFault::Http,
    }
}

/// Relies on `Display` for `ureq::Transport`: a description of the fault.
/// Nothing is promised of the text.
#[verifier::external_body]
fn transport_text(e: &ureq::Transport) -> (r: String) {
    e.to_string()
}

/// Probes `address` with a HEAD request that may take up to `timeout_secs`:
/// any response gives its status code; a transport failure gives its kind and
/// description.
pub fn send_probe(address: &str, timeout_secs: u64) -> (r: ProbeOutcome) {
    match send_head(address, timeout_secs) {
        Ok(code) => ProbeOutcome::Responded(code),
        Err(e) => ProbeOutcome::TransportFailed(transport_fault(&e), transport_text(&e)),
    }
}

/// The class of a transport fault that the reason shown to the user names:
/// an unknown host, a refused connection, a broken connection, or anything else.
pub open spec fn fault_class(f: ProbeFault) -> TransportKind {
    match f {
        ProbeFault::Dns => TransportKind::Dns,
        ProbeFault::ConnectionFailed => TransportKind::ConnectionFailed,
        ProbeFault::Io => TransportKind::Io,
        _ => TransportKind::Other,
    }
}

/// Classifies a transport fault.
pub fn classify_fault(f: ProbeFault) -> (r: TransportKind)
    ensures
        r == fault_class(f),
{
    match f {
        ProbeFault::Dns => TransportKind::Dns,
        ProbeFault::ConnectionFailed => TransportKind::ConnectionFailed,
        ProbeFault::Io => TransportKind::Io,
        _ => TransportKind::Other,
    }
}

/// The human-readable reason given for each kind of transport failure.
pub open spec fn reason_text(k: TransportKind) -> Seq<char> {
    match k {
        TransportKind::Dns => "Server not found — check the address"@,
        TransportKind::ConnectionFailed => "Could not connect to server"@,
        TransportKind::Io => "Connection error"@,
        TransportKind::Other => "Server unreachable"@,
    }
}

/// The reason for a transport failure.
pub fn reason(k: TransportKind) -> (r: &'static str)
    ensures
        r@ == reason_text(k),
{
    match k {
        TransportKind::Dns => "Server not found — check the address",
        TransportKind::ConnectionFailed => "Could not connect to server",
        TransportKind::Io => "Connection error",
        TransportKind::Other => "Server unreachable",
    }
}

/// The message shown for a failed probe: the reason, then the detail in parentheses.
pub open spec fn failure_message(k: TransportKind, detail: Seq<char>) -> Seq<char> {
    reason_text(k) + " ("@ + detail + ")"@
}

/// Builds the message shown for a failed probe.
pub fn describe_failure(k: TransportKind, detail: &str) -> (r: String)
    ensures
        r@ == failure_message(k, detail@),
{
    String::from_str(reason(k)).concat(" (").concat(detail).concat(")")
}

} // verus!
