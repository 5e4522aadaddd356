//! Verdict logic of the built-in dependency checks.
//!
//! The surrounding runtime performs each probe — a database round trip, a
//! cache read, an HTTP request: asynchronous I/O the library cannot do — and
//! reports the bare outcome: the measured duration on success, the failure
//! point and error text otherwise. The functions here turn that outcome into
//! the `CheckResult` the probe reports, with the exact diagnostic message,
//! so the classification operators rely on is fixed by contract.

use vstd::prelude::*;
use vstd::string::StringExecFns;

use crate::response::{CheckResult, CheckStatus};

verus! {

/// The decimal digit `d` as a character.
pub open spec fn digit_char(d: nat) -> char {
    if d == 0 {
        '0'
    } else if d == 1 {
        '1'
    } else if d == 2 {
        '2'
    } else if d == 3 {
        '3'
    } else if d == 4 {
        '4'
    } else if d == 5 {
        '5'
    } else if d == 6 {
        '6'
    } else if d == 7 {
        '7'
    } else if d == 8 {
        '8'
    } else {
        '9'
    }
}

/// The decimal numeral of `n`, most significant digit first.
pub open spec fn decimal(n: nat) -> Seq<char>
    decreases n,
{
    if n < 10 {
        seq![digit_char(n)]
    } else {
        decimal(n / 10).push(digit_char(n % 10))
    }
}

/// One decimal digit as text.
fn digit_str(d: u16) -> (s: &'static str)
    requires
        d < 10,
    ensures
        s@ == seq![digit_char(d as nat)],
{
    match d {
        0 => {
            proof {
                reveal_strlit("0");
                assert("0"@ =~= seq![digit_char(0)]);
            }
            "0"
        },
        1 => {
            proof {
                reveal_strlit("1");
                assert("1"@ =~= seq![digit_char(1)]);
            }
            "1"
        },
        2 => {
            proof {
                reveal_strlit("2");
                assert("2"@ =~= seq![digit_char(2)]);
            }
            "2"
        },
        3 => {
            proof {
                reveal_strlit("3");
                assert("3"@ =~= seq![digit_char(3)]);
            }
            "3"
        },
        4 => {
            proof {
                reveal_strlit("4");
                assert("4"@ =~= seq![digit_char(4)]);
            }
            "4"
        },
        5 => {
            proof {
                reveal_strlit("5");
                assert("5"@ =~= seq![digit_char(5)]);
            }
            "5"
        },
        6 => {
            proof {
                reveal_strlit("6");
                assert("6"@ =~= seq![digit_char(6)]);
            }
            "6"
        },
        7 => {
            proof {
                reveal_strlit("7");
                assert("7"@ =~= seq![digit_char(7)]);
            }
            "7"
        },
        8 => {
            proof {
                reveal_strlit("8");
                assert("8"@ =~= seq![digit_char(8)]);
            }
            "8"
        },
        _ => {
            proof {
                reveal_strlit("9");
                assert("9"@ =~= seq![digit_char(9)]);
            }
            "9"
        },
    }
}

/// The decimal numeral of `n` as a string.
pub fn u16_decimal(n: u16) -> (s: String)
    ensures
        s@ == decimal(n as nat),
    decreases n,
{
    if n < 10 {
        String::from_str(digit_str(n))
    } else {
        let prefix = u16_decimal(n / 10);
        let s = prefix.concat(digit_str(n % 10));
        proof {
            assert(s@ =~= decimal(n as nat));
        }
        s
    }
}

/// Verdict of a database round-trip probe: success passes with the measured
/// duration in milliseconds; a failure fails with the error text behind a
/// fixed prefix.
pub fn database_verdict(outcome: Result<u64, String>) -> (r: CheckResult)
    ensures
        match outcome {
            Ok(duration_ms) => {
                &&& r.status == CheckStatus::Healthy
                &&& r.message is None
                &&& r.duration_ms == Some(duration_ms)
            },
            Err(error) => {
                &&& r.status == CheckStatus::Unhealthy
                &&& r.message matches Some(m) && m@ == "Database connection failed: "@ + error@
                &&& r.duration_ms is None
            },
        },
{
    match outcome {
        Ok(duration_ms) => CheckResult::healthy().with_duration(duration_ms),
        Err(error) => CheckResult::unhealthy(
            String::from_str("Database connection failed: ").concat(error.as_str()),
        ),
    }
}

/// Where a cache probe can fail: opening the client, establishing the
/// connection, or the read operation itself.
#[derive(Clone, Copy, Debug, PartialEq, Eq, Structural)]
pub enum CacheFailure {
    /// The client could not be created from the cache's address.
    ClientCreation,
    /// The connection could not be established.
    Connection,
    /// The read operation itself failed.
    Operation,
}

/// The diagnostic prefix naming a cache probe's failure point; the three
/// points get three distinct prefixes so operators can localize the fault.
pub open spec fn cache_failure_prefix(failure: CacheFailure) -> Seq<char> {
    match failure {
        CacheFailure::ClientCreation => "Redis client creation failed: "@,
        CacheFailure::Connection => "Redis connection failed: "@,
        CacheFailure::Operation => "Redis check failed: "@,
    }
}

/// Verdict of a cache probe: success passes with the measured duration; a
/// failure fails with the error text behind the prefix naming its failure
/// point.
pub fn cache_verdict(outcome: Result<u64, (CacheFailure, String)>) -> (r: CheckResult)
    ensures
        match outcome {
            Ok(duration_ms) => {
                &&& r.status == CheckStatus::Healthy
                &&& r.message is None
                &&& r.duration_ms == Some(duration_ms)
            },
            Err((failure, error)) => {
                &&& r.status == CheckStatus::Unhealthy
                &&& r.message matches Some(m) && m@ == cache_failure_prefix(failure) + error@
                &&& r.duration_ms is None
            },
        },
{
    match outcome {
        Ok(duration_ms) => CheckResult::healthy().with_duration(duration_ms),
        Err((failure, error)) => match failure {
            CacheFailure::ClientCreation => CheckResult::unhealthy(
                String::from_str("Redis client creation failed: ").concat(error.as_str()),
            ),
            CacheFailure::Connection => CheckResult::unhealthy(
                String::from_str("Redis connection failed: ").concat(error.as_str()),
            ),
            CacheFailure::Operation => CheckResult::unhealthy(
                String::from_str("Redis check failed: ").concat(error.as_str()),
            ),
        },
    }
}

/// The message reporting an endpoint probe whose status code matched.
pub open spec fn endpoint_ok_message(observed: nat) -> Seq<char> {
    "HTTP "@ + decimal(observed) + " OK"@
}

/// The message reporting a status code mismatch, naming both codes.
pub open spec fn endpoint_mismatch_message(expected: nat, observed: nat) -> Seq<char> {
    "Expected status "@ + decimal(expected) + ", got "@ + decimal(observed)
}

/// Verdict of a remote-endpoint probe: a response whose status code matches
/// the expected one passes, naming the observed code, with the measured
/// duration; a mismatch fails naming both codes; a transport failure fails
/// with the transport error text.
pub fn endpoint_verdict(expected_status: u16, outcome: Result<(u16, u64), String>) -> (r:
    CheckResult)
    ensures
        match outcome {
            Ok((observed, duration_ms)) => {
                if observed == expected_status {
                    &&& r.status == CheckStatus::Healthy
                    &&& r.message matches Some(m) && m@ == endpoint_ok_message(observed as nat)
                    &&& r.duration_ms == Some(duration_ms)
                } else {
                    &&& r.status == CheckStatus::Unhealthy
                    &&& r.message matches Some(m) && m@ == endpoint_mismatch_message(
                        expected_status as nat,
                        observed as nat,
                    )
                    &&& r.duration_ms is None
                }
            },
            Err(error) => {
                &&& r.status == CheckStatus::Unhealthy
                &&& r.message matches Some(m) && m@ == "HTTP request failed: "@ + error@
                &&& r.duration_ms is None
            },
        },
{
    match outcome {
        Ok((observed, duration_ms)) => {
            if observed == expected_status {
                let numeral = u16_decimal(observed);
                let message = String::from_str("HTTP ").concat(numeral.as_str()).concat(" OK");
                proof {
                    assert(message@ =~= endpoint_ok_message(observed as nat));
                }
                CheckResult::healthy_with_message(message).with_duration(duration_ms)
            } else {
                let expected_numeral = u16_decimal(expected_status);
                let observed_numeral = u16_decimal(observed);
                let message = String::from_str("Expected status ")
                    .concat(expected_numeral.as_str())
                    .concat(", got ")
                    .concat(observed_numeral.as_str());
                proof {
                    assert(message@ =~= endpoint_mismatch_message(
                        expected_status as nat,
                        observed as nat,
                    ));
                }
                CheckResult::unhealthy(message)
            }
        },
        Err(error) => CheckResult::unhealthy(
            String::from_str("HTTP request failed: ").concat(error.as_str()),
        ),
    }
}

} // verus!
