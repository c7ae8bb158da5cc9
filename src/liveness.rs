use vstd::prelude::*;

use crate::command::{Invocation, InvocationView};

verus! {

/// The seconds a reachability request may take before it counts as failed.
pub const DEFAULT_TIMEOUT_SECS: u64 = 10;

/// What came of the network request against a stream's url.
#[derive(Debug, Clone, Copy, PartialEq, Eq, Structural)]
pub enum Reachability {
    /// A response arrived with this status code.
    Response(u16),
    /// No response: the connection failed or the request timed out.
    NetworkError,
}

/// What came of running the content-probe tool on a stream's url.
#[derive(Debug, Clone, Copy, PartialEq, Eq, Structural)]
pub enum ProbeRun {
    /// The tool ran and ended; `code` is its exit code, absent when it was
    /// ended by a signal.
    Exited { code: Option<i32> },
    /// The tool could not be started at all.
    Unavailable,
}

/// Whether a stream is live at the moment it was checked.
#[derive(Debug, Clone, Copy, PartialEq, Eq, Structural)]
pub enum LivenessResult {
    Online,
    Offline,
}

/// The verdict on one stream, with what went wrong along the way.
#[derive(Debug, Clone, Copy, PartialEq, Eq, Structural)]
pub struct LivenessReport {
    pub result: LivenessResult,
    /// The reachability request got no response.
    pub network_error: bool,
    /// The content-probe tool could not be started.
    pub probe_tool_unavailable: bool,
}

/// A network request to make: the url and how long to wait for it.
#[derive(Debug, Clone)]
pub struct ReachRequest {
    pub url: String,
    pub timeout_secs: u64,
}

/// The reachability check passes on a response with status exactly 200;
/// other success codes and redirects do not count.
pub open spec fn reach_ok(r: Reachability) -> bool {
    r == Reachability::Response(200)
}

/// The content probe passes when the tool ran and exited with status zero.
pub open spec fn probe_ok(p: ProbeRun) -> bool {
    p == ProbeRun::Exited { code: Some(0) }
}

/// A stream is live when both checks pass.
pub open spec fn live(r: Reachability, p: ProbeRun) -> bool {
    reach_ok(r) && probe_ok(p)
}

/// Decides liveness from the outcomes of the two checks on one url.
pub struct LivenessProbe {
    pub timeout_secs: u64,
}

impl LivenessProbe {
    /// A probe whose network request waits at most the default time.
    pub fn new() -> (r: LivenessProbe)
        ensures
            r.timeout_secs == DEFAULT_TIMEOUT_SECS,
    {
        LivenessProbe { timeout_secs: DEFAULT_TIMEOUT_SECS }
    }

    /// A probe whose network request waits at most `timeout_secs` seconds.
    pub fn with_timeout(timeout_secs: u64) -> (r: LivenessProbe)
        requires
            timeout_secs > 0,
        ensures
            r.timeout_secs == timeout_secs,
    {
        LivenessProbe { timeout_secs }
    }

    /// The network request to make against `url`: a GET with this probe's
    /// timeout.
    pub fn reach_request(&self, url: &str) -> (r: ReachRequest)
        ensures
            r.url@ == url@,
            r.timeout_secs == self.timeout_secs,
    {
        ReachRequest { url: String::from_str(url), timeout_secs: self.timeout_secs }
    }

    /// The content-probe tool run against `url`: `youtube-dl -j <url>`,
    /// which asks for the stream's description as JSON.
    pub fn probe_invocation(&self, url: &str) -> (r: Invocation)
        ensures
            r@ == (InvocationView { program: "youtube-dl"@, args: seq!["-j"@, url@] }),
    {
        let mut args: Vec<String> = Vec::new();
        args.push(String::from_str("-j"));
        args.push(String::from_str(url));
        let r = Invocation { program: String::from_str("youtube-dl"), args };
        assert(r@.args =~= seq!["-j"@, url@]);
        r
    }

    /// Combines the two checks: `Online` exactly when the response had
    /// status 200 and the tool exited with status zero; every other
    /// combination, failures to connect or to start the tool included, is
    /// `Offline`. The failures are kept beside the verdict.
    pub fn check(&self, reach: Reachability, probe: ProbeRun) -> (r: LivenessReport)
        ensures
            r.result == (if live(reach, probe) {
                LivenessResult::Online
            } else {
                LivenessResult::Offline
            }),
            r.network_error == (reach is NetworkError),
            r.probe_tool_unavailable == (probe is Unavailable),
    {
        let reached = match reach {
            Reachability::Response(status) => status == 200,
            Reachability::NetworkError => false,
        };
        let probed = match probe {
            ProbeRun::Exited { code: Some(c) } => c == 0,
            _ => false,
        };
        LivenessReport {
            result: if reached && probed {
                LivenessResult::Online
            } else {
                LivenessResult::Offline
            },
            network_error: reach == Reachability::NetworkError,
            probe_tool_unavailable: probe == ProbeRun::Unavailable,
        }
    }
}

impl LivenessResult {
    /// The word shown for this verdict.
    pub fn word(&self) -> (r: String)
        ensures
            r@ == (match self {
                LivenessResult::Online => "Online"@,
                LivenessResult::Offline => "Offline"@,
            }),
    {
        match self {
            LivenessResult::Online => String::from_str("Online"),
            LivenessResult::Offline => String::from_str("Offline"),
        }
    }
}

} // verus!
