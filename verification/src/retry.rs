//! The decisions of the loops that try an operation again: publishing with
//! retries and exponential back-off, and starting a test NATS server on a
//! random port.
use vstd::prelude::*;
use vstd::arithmetic::power2::{pow2, lemma_pow2_unfold, lemma_pow2_strictly_increases, lemma2_to64};

use crate::text::{decimal, u64_to_decimal};

verus! {

/// What to do after a failed attempt.
#[derive(Debug, Clone, Copy, PartialEq, Eq)]
pub enum AfterFailure {
    /// Wait this many seconds, then try again.
    RetryAfterSecs(u64),
    /// Give up and report the error of the failed attempt.
    Fail,
}

/// The state of a retried operation: how many attempts failed so far, out of
/// how many that may be made.
pub struct RetryPolicy {
    attempts: usize,
    retries: usize,
}

/// What a failed attempt leads to, when `attempts` attempts failed before it.
pub open spec fn spec_after_failure(attempts: nat, retries: nat) -> AfterFailure {
    if attempts + 1 < retries {
        AfterFailure::RetryAfterSecs(pow2(attempts) as u64)
    } else {
        AfterFailure::Fail
    }
}

/// How many attempts are made when every attempt fails.
pub open spec fn attempts_when_failing(attempts: nat, retries: nat) -> nat
    decreases retries - attempts,
{
    if attempts >= retries {
        0
    } else {
        1 + match spec_after_failure(attempts, retries) {
            AfterFailure::Fail => 0,
            AfterFailure::RetryAfterSecs(_) => attempts_when_failing(attempts + 1, retries),
        }
    }
}

/// How many seconds are waited in all when every attempt fails.
pub open spec fn wait_when_failing(attempts: nat, retries: nat) -> nat
    decreases retries - attempts,
{
    if attempts >= retries {
        0
    } else {
        match spec_after_failure(attempts, retries) {
            AfterFailure::Fail => 0,
            AfterFailure::RetryAfterSecs(s) => s as nat + wait_when_failing(attempts + 1, retries),
        }
    }
}

impl RetryPolicy {
    pub closed spec fn attempts(&self) -> nat {
        self.attempts as nat
    }

    pub closed spec fn retries(&self) -> nat {
        self.retries as nat
    }

    /// A policy for at most `retries` attempts.
    pub fn new(retries: usize) -> (p: Self)
        ensures
            p.attempts() == 0,
            p.retries() == retries,
    {
        RetryPolicy { attempts: 0, retries }
    }

    /// True while an attempt may be made.
    pub fn should_attempt(&self) -> (b: bool)
        ensures
            b == (self.attempts() < self.retries()),
    {
        self.attempts < self.retries
    }

    /// Records a failed attempt and says what to do: wait `2^k` seconds after
    /// the `k`-th failed attempt (counting from 0) and try again, unless it was
    /// the last attempt. The wait must fit in a `u64`: a retry is only made
    /// after fewer than 64 failed attempts.
    pub fn on_failure(&mut self) -> (a: AfterFailure)
        requires
            old(self).attempts() < old(self).retries(),
            old(self).attempts() + 1 < old(self).retries() ==> old(self).attempts() < 64,
        ensures
            a == spec_after_failure(old(self).attempts(), old(self).retries()),
            final(self).retries() == old(self).retries(),
            final(self).attempts() == match a {
                AfterFailure::RetryAfterSecs(_) => old(self).attempts() + 1,
                AfterFailure::Fail => old(self).attempts(),
            },
    {
        if self.attempts + 1 < self.retries {
            let secs = pow2_u64(self.attempts as u64);
            self.attempts = self.attempts + 1;
            AfterFailure::RetryAfterSecs(secs)
        } else {
            AfterFailure::Fail
        }
    }
}

/// `2^e`, for `e < 64`.
pub fn pow2_u64(e: u64) -> (r: u64)
    requires
        e < 64,
    ensures
        r == pow2(e as nat),
{
    proof {
        lemma2_to64();
    }
    let mut r: u64 = 1;
    let mut i: u64 = 0;
    while i < e
        invariant
            i <= e < 64,
            r == pow2(i as nat),
            pow2(64) == 0x10000000000000000nat,
        decreases e - i,
    {
        proof {
            lemma_pow2_unfold((i + 1) as nat);
            lemma_pow2_strictly_increases((i + 1) as nat, 64);
        }
        r = r * 2;
        i = i + 1;
    }
    r
}

/// With `retries` attempts allowed and every attempt failing, the operation
/// is attempted exactly `retries` times, and `2^(retries - 1) - 1` seconds are
/// waited in all: 1, 2, 4, ... seconds between attempts.
pub proof fn law_retry_schedule(retries: nat)
    requires
        1 <= retries <= 65,
    ensures
        attempts_when_failing(0, retries) == retries,
        wait_when_failing(0, retries) + 1 == pow2((retries - 1) as nat),
{
    lemma2_to64();
    lemma_schedule_from(0, retries);
}

proof fn lemma_schedule_from(attempts: nat, retries: nat)
    requires
        attempts < retries <= 65,
    ensures
        attempts_when_failing(attempts, retries) == retries - attempts,
        wait_when_failing(attempts, retries) + pow2(attempts) == pow2((retries - 1) as nat),
    decreases retries - attempts,
{
    lemma2_to64();
    if attempts + 1 < retries {
        lemma_schedule_from(attempts + 1, retries);
        lemma_pow2_unfold(attempts + 1);
        lemma_pow2_strictly_increases(attempts, 64);
    }
}

/// When no attempt is allowed, none is made.
pub proof fn law_no_retries()
    ensures
        attempts_when_failing(0, 0) == 0,
{
}

/// The error of a retried operation that was never attempted.
pub fn exceeded_max_retries_message() -> (m: String)
    ensures
        m@ == "Exceeded max retries"@,
{
    String::from_str("Exceeded max retries")
}

/// The number of times that starting a test NATS server is tried.
pub const MAX_SERVER_START_ATTEMPTS: u32 = 5;

/// The outcome of one try to start a test NATS server.
#[derive(Debug, Clone, Copy, PartialEq, Eq)]
pub enum StartOutcome {
    /// The server process could not be spawned.
    SpawnFailed,
    /// The server was spawned, but no client could connect to it in time.
    NotReachable,
    /// The server was spawned and a client connected to it.
    Ready,
}

/// What to do after a try to start a test NATS server.
#[derive(Debug, Clone, Copy, PartialEq, Eq)]
pub enum StartAction {
    /// Keep the server.
    Keep,
    /// Stop the spawned server, wait a second, and try again on another port.
    KillAndRetry,
    /// Wait a second and try again on another port.
    Retry,
    /// Stop the spawned server, wait a second, and report that no server
    /// could be started.
    KillAndGiveUp,
    /// Wait a second and report that no server could be started.
    GiveUp,
}

/// What a try that `attempts` tries preceded leads to.
pub open spec fn spec_start_action(attempts: nat, outcome: StartOutcome) -> StartAction {
    match outcome {
        StartOutcome::Ready => StartAction::Keep,
        StartOutcome::NotReachable => if attempts + 1 < MAX_SERVER_START_ATTEMPTS {
            StartAction::KillAndRetry
        } else {
            StartAction::KillAndGiveUp
        },
        StartOutcome::SpawnFailed => if attempts + 1 < MAX_SERVER_START_ATTEMPTS {
            StartAction::Retry
        } else {
            StartAction::GiveUp
        },
    }
}

/// Decides what to do after the try numbered `attempts` (from 0) to start a
/// test NATS server: a ready server is kept, and a failed try is followed by
/// a wait of a second and then another try, until five have been made; after
/// the fifth, the wait comes before the failure is reported.
pub fn server_start_action(attempts: u32, outcome: StartOutcome) -> (a: StartAction)
    requires
        attempts < MAX_SERVER_START_ATTEMPTS,
    ensures
        a == spec_start_action(attempts as nat, outcome),
{
    match outcome {
        StartOutcome::Ready => StartAction::Keep,
        StartOutcome::NotReachable => if attempts + 1 < MAX_SERVER_START_ATTEMPTS {
            StartAction::KillAndRetry
        } else {
            StartAction::KillAndGiveUp
        },
        StartOutcome::SpawnFailed => if attempts + 1 < MAX_SERVER_START_ATTEMPTS {
            StartAction::Retry
        } else {
            StartAction::GiveUp
        },
    }
}


/// Starting a test server is tried at most five times: a try is only
/// followed by another when fewer than five were made.
pub proof fn law_start_tries_bounded(attempts: nat, outcome: StartOutcome)
    ensures
        (spec_start_action(attempts, outcome) == StartAction::KillAndRetry || spec_start_action(
            attempts,
            outcome,
        ) == StartAction::Retry) ==> attempts + 1 < MAX_SERVER_START_ATTEMPTS,
        outcome == StartOutcome::Ready <==> spec_start_action(attempts, outcome) == StartAction::Keep,
{
}

/// A port number drawn uniformly from `4444..5555` by `rand::random_range`.
#[verifier::external_body]
fn random_port_number() -> (p: u16)
    ensures
        4444 <= p < 5555,
{
    rand::random_range(4444u16..5555u16)
}

/// A random port for a test NATS server, in `4444..5555`, in decimal notation.
pub fn generate_random_port() -> (port: String)
    ensures
        exists|p: nat| 4444 <= p < 5555 && port@ == decimal(p),
{
    let p = random_port_number();
    u64_to_decimal(p as u64)
}

} // verus!
