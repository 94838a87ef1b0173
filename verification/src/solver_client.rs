//! Decisions and messages of the client of the standalone solver server.

use vstd::prelude::*;
use crate::types::{SolverState, SolverStatus};

verus! {

/// The solver server's address.
pub open spec fn solver_base_url() -> Seq<char> {
    "http://127.0.0.1:7432"@
}

/// Seconds the client waits for the solver to report healthy.
pub const HEALTH_POLL_TIMEOUT_S: u64 = 30;

/// Seconds a solve request may take before it times out.
pub const SOLVE_TIMEOUT_S: u64 = 600;

/// Why a request to the solver server failed.
#[derive(Clone, Debug)]
pub enum SolverError {
    /// Nothing listens at the solver's address.
    NotReachable,
    /// The solve ran longer than this many seconds.
    Timeout(u64),
    /// The request could not be sent.
    RequestFailed(String),
    /// The solver answered with an HTTP error status.
    SolverFailed { status: u16, body: String },
    /// The answer could not be parsed.
    ParseError(String),
    /// The HTTP client could not be built.
    ClientError(String),
}

/// The decimal digits of `n`, most significant first, without leading zeros
/// (`"0"` for zero).
pub open spec fn decimal(n: nat) -> Seq<char>
    decreases n,
{
    if n < 10 {
        seq![digit(n)]
    } else {
        decimal(n / 10).push(digit(n % 10))
    }
}

/// The character of a decimal digit.
pub open spec fn digit(d: nat) -> char {
    if d == 0 {
        '0'
    } else if d == 1 {
        '1'
    } else if d == 2 {
        '2'
    } else if d == 3 {
        '3'
    } else if d == 4 {
        '4'
    } else if d == 5 {
        '5'
    } else if d == 6 {
        '6'
    } else if d == 7 {
        '7'
    } else if d == 8 {
        '8'
    } else {
        '9'
    }
}

fn digit_char(d: u64) -> (c: char)
    requires
        d < 10,
    ensures
        c == digit(d as nat),
{
    if d == 0 {
        '0'
    } else if d == 1 {
        '1'
    } else if d == 2 {
        '2'
    } else if d == 3 {
        '3'
    } else if d == 4 {
        '4'
    } else if d == 5 {
        '5'
    } else if d == 6 {
        '6'
    } else if d == 7 {
        '7'
    } else if d == 8 {
        '8'
    } else {
        '9'
    }
}

/// Append the decimal digits of `n` to `s`.
pub fn push_decimal(s: &mut String, n: u64)
    ensures
        final(s)@ == old(s)@ + decimal(n as nat),
    decreases n,
{
    if n >= 10 {
        push_decimal(s, n / 10);
    }
    s.push(digit_char(n % 10));
    proof {
        if n < 10 {
            assert(n % 10 == n);
        }
    }
}

/// The message shown for a failed request.
pub open spec fn error_text(e: SolverError) -> Seq<char> {
    match e {
        SolverError::NotReachable => "Cannot reach solver at "@ + solver_base_url()
            + ". Start it: docker compose up solver"@,
        SolverError::Timeout(secs) => "Solve timed out after "@ + decimal(secs as nat) + "s"@,
        SolverError::RequestFailed(msg) => "Request failed: "@ + msg@,
        SolverError::SolverFailed { status, body } => "Solver returned HTTP "@ + decimal(
            status as nat,
        ) + ": "@ + body@,
        SolverError::ParseError(msg) => "Failed to parse solver response: "@ + msg@,
        SolverError::ClientError(msg) => "HTTP client error: "@ + msg@,
    }
}

impl SolverError {
    /// The message shown for this error.
    pub fn message(&self) -> (r: String)
        ensures
            r@ == error_text(*self),
    {
        match self {
            SolverError::NotReachable => {
                let mut s = String::from_str("Cannot reach solver at ");
                s.append("http://127.0.0.1:7432");
                s.append(". Start it: docker compose up solver");
                s
            },
            SolverError::Timeout(secs) => {
                let mut s = String::from_str("Solve timed out after ");
                push_decimal(&mut s, *secs);
                s.append("s");
                s
            },
            SolverError::RequestFailed(msg) => {
                let mut s = String::from_str("Request failed: ");
                s.append(msg.as_str());
                s
            },
            SolverError::SolverFailed { status, body } => {
                let mut s = String::from_str("Solver returned HTTP ");
                push_decimal(&mut s, *status as u64);
                s.append(": ");
                s.append(body.as_str());
                s
            },
            SolverError::ParseError(msg) => {
                let mut s = String::from_str("Failed to parse solver response: ");
                s.append(msg.as_str());
                s
            },
            SolverError::ClientError(msg) => {
                let mut s = String::from_str("HTTP client error: ");
                s.append(msg.as_str());
                s
            },
        }
    }
}

/// The error of a solve request that could not be completed: a timeout after
/// the solve limit, else an unreachable server where the connection failed,
/// else a failed request with the transport's description.
pub fn send_failure(is_timeout: bool, is_connect: bool, detail: String) -> (r: SolverError)
    ensures
        is_timeout ==> r == SolverError::Timeout(SOLVE_TIMEOUT_S),
        !is_timeout && is_connect ==> r == SolverError::NotReachable,
        !is_timeout && !is_connect ==> (r matches SolverError::RequestFailed(m) && m@ == detail@),
{
    if is_timeout {
        SolverError::Timeout(SOLVE_TIMEOUT_S)
    } else if is_connect {
        SolverError::NotReachable
    } else {
        SolverError::RequestFailed(detail)
    }
}

/// Whether an HTTP status is a success (2xx).
pub open spec fn is_success_status(status: u16) -> bool {
    200 <= status <= 299
}

/// Whether a solve answer's status is a success, so that its body is the
/// result.
pub fn status_is_success(status: u16) -> (r: bool)
    ensures
        r == is_success_status(status),
{
    200 <= status && status <= 299
}

/// A solve answer is a result exactly when its status is in the 2xx class;
/// every informational, redirect, client-error and server-error status
/// (1xx, 3xx, 4xx, 5xx) is a failure.
pub proof fn lemma_success_statuses(status: u16)
    ensures
        is_success_status(status) <==> status / 100 == 2,
        400 <= status <= 599 ==> !is_success_status(status),
        100 <= status <= 199 || 300 <= status <= 399 ==> !is_success_status(status),
{
}

/// The error of a solve answered with a status that is not a success.
pub fn status_failure(status: u16, body: String) -> (r: SolverError)
    requires
        !is_success_status(status),
    ensures
        r matches SolverError::SolverFailed { status: s, body: b } && s == status && b@ == body@,
{
    SolverError::SolverFailed { status, body }
}

/// Outcome of one health check of the solver server.
#[derive(Clone, Copy, Debug, PartialEq, Eq, Structural)]
pub enum HealthCheck {
    /// The server answered with a success status.
    Healthy,
    /// The server answered, but not with a success status.
    Unhealthy,
    /// The request failed.
    Failed,
}

/// What the start-up poll does after a health check.
#[derive(Clone, Debug)]
pub enum PollStep {
    /// Stop with this status.
    Done(SolverStatus),
    /// Wait and check again.
    Retry,
}

/// The status reported when the solver became ready.
pub open spec fn is_ready_status(s: SolverStatus) -> bool {
    s.state == SolverState::Ready && s.message@ == "Solver ready"@ && s.gpu_name is None
}

/// The status reported when the solver did not become ready in time.
pub open spec fn is_timeout_status(s: SolverStatus) -> bool {
    s.state == SolverState::Error && s.message@ == "Solver did not become ready within "@
        + decimal(HEALTH_POLL_TIMEOUT_S as nat) + "s. Run: docker compose up solver"@
        && s.gpu_name is None
}

/// The status reported before the solver has answered.
pub fn status_not_ready() -> (r: SolverStatus)
    ensures
        r.state == SolverState::Initialising,
        r.message@ == "Solver not yet ready. Waiting for startup..."@,
        r.gpu_name is None,
{
    SolverStatus {
        state: SolverState::Initialising,
        message: String::from_str("Solver not yet ready. Waiting for startup..."),
        gpu_name: None,
    }
}

/// Decide the start-up poll's next step: ready on a healthy answer; else give
/// up once the deadline has passed; else check again.
pub fn poll_step(check: HealthCheck, deadline_passed: bool) -> (r: PollStep)
    ensures
        check == HealthCheck::Healthy ==> (r matches PollStep::Done(s) && is_ready_status(s)),
        check != HealthCheck::Healthy && deadline_passed ==> (r matches PollStep::Done(s)
            && is_timeout_status(s)),
        check != HealthCheck::Healthy && !deadline_passed ==> r is Retry,
{
    match check {
        HealthCheck::Healthy => PollStep::Done(
            SolverStatus {
                state: SolverState::Ready,
                message: String::from_str("Solver ready"),
                gpu_name: None,
            },
        ),
        _ => {
            if deadline_passed {
                let mut message = String::from_str("Solver did not become ready within ");
                push_decimal(&mut message, HEALTH_POLL_TIMEOUT_S);
                message.append("s. Run: docker compose up solver");
                PollStep::Done(SolverStatus { state: SolverState::Error, message, gpu_name: None })
            } else {
                PollStep::Retry
            }
        },
    }
}

} // verus!
