//! When a download is tried again, and after how long.

use crate::decimal::{decimal, write_decimal};
use crate::error::ValidationError;
use crate::text::{concat4, string_of};
use vstd::prelude::*;

verus! {

/// How downloads are made.
#[derive(Clone, Debug, PartialEq, Eq)]
pub struct HttpClientConfig {
    /// How long one request may take, in seconds.
    pub timeout_seconds: u64,
    /// How many times a failed download is tried again.
    pub retry_attempts: u32,
    /// The delay before the first retry, in milliseconds.
    pub retry_delay_ms: u64,
    /// The longest delay before a retry, in milliseconds.
    pub max_retry_delay_ms: u64,
    /// What the client calls itself.
    pub user_agent: String,
}

impl Default for HttpClientConfig {
    fn default() -> (c: HttpClientConfig)
        ensures
            c.timeout_seconds == 30,
            c.retry_attempts == 3,
            c.retry_delay_ms == 1000,
            c.max_retry_delay_ms == 30000,
            c.user_agent@ == "validate-xml/0.2.0"@,
    {
        HttpClientConfig {
            timeout_seconds: 30,
            retry_attempts: 3,
            retry_delay_ms: 1000,
            max_retry_delay_ms: 30000,
            user_agent: "validate-xml/0.2.0".to_owned(),
        }
    }
}

/// Two to the power of `n`.
pub open spec fn pow2(n: nat) -> nat
    decreases n,
{
    if n == 0 {
        1
    } else {
        2 * pow2((n - 1) as nat)
    }
}

/// The delay before the retry that follows the failed attempt `attempt`
/// (counted from zero): the base delay doubled with every attempt, and never
/// more than the cap.
pub open spec fn backoff(base: nat, cap: nat, attempt: nat) -> nat {
    if base * pow2(attempt) <= cap {
        base * pow2(attempt)
    } else {
        cap
    }
}

/// The powers of two grow.
pub proof fn lemma_pow2_grows(a: nat, b: nat)
    requires
        a <= b,
    ensures
        1 <= pow2(a) <= pow2(b),
    decreases b,
{
    if b > 0 {
        if a < b {
            lemma_pow2_grows(a, (b - 1) as nat);
        } else {
            lemma_pow2_grows((a - 1) as nat, (b - 1) as nat);
        }
    }
}

/// Whether a status code reports success: 200 to 299.
pub open spec fn is_success(status: u16) -> bool {
    200 <= status < 300
}

/// Whether a status code reports a failure of the server: 500 to 599.
pub open spec fn is_server_error(status: u16) -> bool {
    500 <= status < 600
}

/// Whether it may help to try again after `error`: the request ran out of
/// time, or never got as far as a response.
pub open spec fn retryable(error: ValidationError) -> bool {
    match error {
        ValidationError::Http(failure) => failure.is_timeout || failure.is_connect
            || failure.is_request,
        ValidationError::Timeout { .. } => true,
        _ => false,
    }
}

/// The error for a response with a status that is no success: the location,
/// the status, and `HTTP`, the status and what the status is called, or
/// `Unknown` for a status without a name.
pub open spec fn status_error(error: ValidationError, url: Seq<char>, status: u16, reason: Option<Seq<char>>) -> bool {
    error matches ValidationError::HttpStatus { url: u, status: s, message } && u@ == url && s
        == status && message@ == "HTTP "@ + decimal(status as nat) + ": "@ + (match reason {
        Some(r) => r,
        None => "Unknown"@,
    })
}

/// What came of one attempt to download.
#[derive(Debug, PartialEq, Eq)]
pub enum FetchReply {
    /// A response arrived, with this status; `reason` is what the status is
    /// called, if it has a name.
    Response { status: u16, reason: Option<String> },
    /// No response arrived.
    Failed(ValidationError),
}

/// What is to be done after an attempt.
#[derive(Debug, PartialEq, Eq)]
pub enum FetchDecision {
    /// The response is good: its body is the download.
    Accept,
    /// Wait `after_ms` milliseconds, then make the attempt `attempt`.
    Retry { after_ms: u64, attempt: u32 },
    /// The download failed.
    GiveUp(ValidationError),
}

impl HttpClientConfig {
    /// The delay before the retry that follows the failed attempt `attempt`.
    pub fn retry_delay(&self, attempt: u32) -> (ms: u64)
        ensures
            ms == backoff(self.retry_delay_ms as nat, self.max_retry_delay_ms as nat, attempt as nat),
    {
        let base = self.retry_delay_ms;
        let cap = self.max_retry_delay_ms;
        if base == 0 {
            assert(0 * pow2(attempt as nat) == 0) by (nonlinear_arith);
            return 0;
        }
        let mut delay: u64 = base;
        let mut i: u32 = 0;
        assert(base * pow2(0) == base) by (nonlinear_arith)
            requires
                pow2(0) == 1,
        ;
        while i < attempt
            invariant
                i <= attempt,
                base >= 1,
                base == self.retry_delay_ms,
                cap == self.max_retry_delay_ms,
                delay == base * pow2(i as nat),
            decreases attempt - i,
        {
            if delay > cap / 2 {
                // Doubling once more passes the cap, and so does every attempt after.
                proof {
                    lemma_pow2_grows((i + 1) as nat, attempt as nat);
                    assert(base * pow2((i + 1) as nat) > cap) by (nonlinear_arith)
                        requires
                            base * pow2(i as nat) > cap / 2,
                            pow2((i + 1) as nat) == 2 * pow2(i as nat),
                    ;
                    assert(base * pow2(attempt as nat) >= base * pow2((i + 1) as nat))
                        by (nonlinear_arith)
                        requires
                            pow2((i + 1) as nat) <= pow2(attempt as nat),
                    ;
                }
                return cap;
            }
            assert(base * pow2((i + 1) as nat) == 2 * (base * pow2(i as nat)))
                by (nonlinear_arith)
                requires
                    pow2((i + 1) as nat) == 2 * pow2(i as nat),
            ;
            delay = delay * 2;
            i = i + 1;
        }
        if delay <= cap {
            delay
        } else {
            cap
        }
    }

    /// Whether it may help to try again after `error`.
    pub fn is_retryable_error(&self, error: &ValidationError) -> (b: bool)
        ensures
            b == retryable(*error),
    {
        match error {
            ValidationError::Http(failure) => failure.is_timeout || failure.is_connect
                || failure.is_request,
            ValidationError::Timeout { .. } => true,
            _ => false,
        }
    }

    /// What follows the attempt `attempt` to download `url`, given what
    /// came of it.
    pub open spec fn decision(
        &self,
        url: Seq<char>,
        attempt: u32,
        reply: FetchReply,
        d: FetchDecision,
    ) -> bool {
        let again = FetchDecision::Retry {
            after_ms: backoff(
                self.retry_delay_ms as nat,
                self.max_retry_delay_ms as nat,
                attempt as nat,
            ) as u64,
            attempt: (attempt + 1) as u32,
        };
        match reply {
            FetchReply::Response { status, reason } => if is_success(status) {
                d is Accept
            } else if is_server_error(status) && attempt < self.retry_attempts {
                d == again
            } else {
                d matches FetchDecision::GiveUp(e) && status_error(
                    e,
                    url,
                    status,
                    match reason {
                        Some(r) => Some(r@),
                        None => None,
                    },
                )
            },
            FetchReply::Failed(error) => if attempt < self.retry_attempts && retryable(error) {
                d == again
            } else {
                d == FetchDecision::GiveUp(error)
            },
        }
    }

    /// Decides what follows the attempt `attempt` (counted from zero) to
    /// download `url`, given what came of it.
    ///
    /// A response with a status from 200 to 299 is accepted. Any other
    /// status is the error `HttpStatus`; it ends the download at once unless
    /// it is a failure of the server. After a failure of the server, and
    /// after an attempt that ran out of time or got no response, the
    /// download is tried again as long as fewer retries were made than the
    /// configuration allows, after the delay that `retry_delay` gives. Any
    /// other failure ends the download.
    pub fn decide(&self, url: &str, attempt: u32, reply: FetchReply) -> (d: FetchDecision)
        ensures
            self.decision(url@, attempt, reply, d),
            d matches FetchDecision::Retry { attempt: next, .. } ==> next == attempt + 1 && next
                <= self.retry_attempts,
    {
        match reply {
            FetchReply::Response { status, reason } => {
                if 200 <= status && status < 300 {
                    FetchDecision::Accept
                } else if 500 <= status && status < 600 && attempt < self.retry_attempts {
                    FetchDecision::Retry { after_ms: self.retry_delay(attempt), attempt: attempt + 1 }
                } else {
                    let code = string_of(&write_decimal(status as u128));
                    let message = match &reason {
                        Some(r) => concat4("HTTP ", code.as_str(), ": ", r.as_str()),
                        None => concat4("HTTP ", code.as_str(), ": ", "Unknown"),
                    };
                    FetchDecision::GiveUp(
                        ValidationError::HttpStatus { url: url.to_owned(), status, message },
                    )
                }
            },
            FetchReply::Failed(error) => {
                if attempt < self.retry_attempts && self.is_retryable_error(&error) {
                    FetchDecision::Retry { after_ms: self.retry_delay(attempt), attempt: attempt + 1 }
                } else {
                    FetchDecision::GiveUp(error)
                }
            },
        }
    }
}

/// How far a download has come.
#[derive(Clone, Copy, Debug, PartialEq, Eq, Structural)]
pub struct DownloadProgress {
    /// How many bytes have arrived.
    pub downloaded: u64,
    /// How many bytes the response announced, if it did.
    pub total: Option<u64>,
}

impl DownloadProgress {
    /// The progress before any byte arrived.
    pub fn begin(total: Option<u64>) -> (p: DownloadProgress)
        ensures
            p == (DownloadProgress { downloaded: 0, total }),
    {
        DownloadProgress { downloaded: 0, total }
    }

    /// The progress after a chunk of `len` bytes arrived; the count stops at
    /// the largest number it can hold.
    pub fn advance(self, len: usize) -> (p: DownloadProgress)
        ensures
            p.total == self.total,
            p.downloaded == if self.downloaded + len <= u64::MAX {
                (self.downloaded + len) as u64
            } else {
                u64::MAX
            },
    {
        DownloadProgress { downloaded: self.downloaded.saturating_add(len as u64), total: self.total }
    }
}

} // verus!
