//! Bounded retry with exponential backoff for a server that asks its callers
//! to slow down.
//!
//! A [`Retry`] counts the answers that asked for a pause. The caller sends the
//! request, hands the status code to [`Retry::on_status`], sleeps as told and
//! sends again, until an answer is delivered or the attempts run out.

use vstd::prelude::*;
use vstd::arithmetic::power::{lemma0_pow, lemma1_pow, lemma_pow0, pow};
use crate::http::{ErrorKind, TOO_MANY_REQUESTS};

verus! {

/// Attempts that a request gets unless a policy says otherwise.
pub const MAX_RETRIES: u32 = 5;

/// Seconds of the first pause unless a policy says otherwise.
pub const INITIAL_BACKOFF_SECS: u64 = 1;

/// Factor by which each pause exceeds the one before, unless a policy says
/// otherwise.
pub const BACKOFF_MULTIPLIER: u64 = 2;

/// The pause, in seconds, after the answer to attempt number `attempt`
/// (counted from zero) asked to slow down.
pub open spec fn backoff_secs(initial: u64, multiplier: u64, attempt: nat) -> int {
    initial * pow(multiplier as int, attempt)
}

/// Whether a request may be tried `max_retries` times with these pauses: at
/// least once, and with every pause a number of seconds that fits in 64 bits.
pub open spec fn pauses_fit(max_retries: u32, initial: u64, multiplier: u64) -> bool {
    &&& max_retries >= 1
    &&& forall|attempt: nat|
        attempt < max_retries ==> #[trigger] backoff_secs(initial, multiplier, attempt) <= u64::MAX
}

/// Each pause is the one before times the multiplier.
proof fn lemma_backoff_step(initial: u64, multiplier: u64, attempt: nat)
    ensures
        backoff_secs(initial, multiplier, 0) == initial,
        backoff_secs(initial, multiplier, attempt + 1) == backoff_secs(
            initial,
            multiplier,
            attempt,
        ) * multiplier,
{
    lemma_pow0(multiplier as int);
    reveal(pow);
    let p = pow(multiplier as int, attempt);
    assert(pow(multiplier as int, attempt + 1) == multiplier * p);
    assert(initial * (multiplier * p) == (initial * p) * multiplier) by (nonlinear_arith);
}

/// How often to try, and how long to pause in between.
#[derive(Clone, Copy, Debug)]
pub struct RetryPolicy {
    max_retries: u32,
    initial_backoff_secs: u64,
    multiplier: u64,
}

impl RetryPolicy {
    /// Attempts that a request gets.
    pub closed spec fn max_retries(self) -> u32 {
        self.max_retries
    }

    /// Seconds of the first pause.
    pub closed spec fn initial_backoff_secs(self) -> u64 {
        self.initial_backoff_secs
    }

    /// Factor by which each pause exceeds the one before.
    pub closed spec fn multiplier(self) -> u64 {
        self.multiplier
    }

    /// The pause after attempt number `attempt`.
    pub open spec fn pause(self, attempt: nat) -> int {
        backoff_secs(self.initial_backoff_secs(), self.multiplier(), attempt)
    }

    /// A policy allows at least one attempt, and each of its pauses is a
    /// number of seconds that fits in 64 bits.
    #[verifier::type_invariant]
    pub open spec fn well_formed(self) -> bool {
        pauses_fit(self.max_retries(), self.initial_backoff_secs(), self.multiplier())
    }

    /// A policy of `max_retries` attempts whose pauses start at
    /// `initial_backoff_secs` and grow by `multiplier`; `None` where there
    /// would be no attempt at all or a pause would not fit in 64 bits.
    pub fn new(max_retries: u32, initial_backoff_secs: u64, multiplier: u64) -> (policy: Option<
        RetryPolicy,
    >)
        ensures
            policy.is_some() == pauses_fit(max_retries, initial_backoff_secs, multiplier),
            policy matches Some(p) ==> p.max_retries() == max_retries && p.initial_backoff_secs()
                == initial_backoff_secs && p.multiplier() == multiplier,
    {
        if max_retries == 0 {
            return None;
        }
        if initial_backoff_secs == 0 || multiplier <= 1 {
            proof {
                assert forall|attempt: nat| attempt < max_retries implies #[trigger] backoff_secs(
                    initial_backoff_secs,
                    multiplier,
                    attempt,
                ) <= u64::MAX by {
                    lemma_pow0(multiplier as int);
                    lemma1_pow(attempt);
                    if attempt > 0 {
                        lemma0_pow(attempt);
                    }
                    let p = pow(multiplier as int, attempt);
                    assert(initial_backoff_secs * p <= initial_backoff_secs) by (nonlinear_arith)
                        requires
                            initial_backoff_secs == 0 || p == 0 || p == 1,
                    ;
                }
            }
            return Some(RetryPolicy { max_retries, initial_backoff_secs, multiplier });
        }
        let mut pause: u64 = initial_backoff_secs;
        let mut attempt: u32 = 0;
        proof {
            lemma_backoff_step(initial_backoff_secs, multiplier, 0);
        }
        while attempt + 1 < max_retries
            invariant
                attempt < max_retries,
                pause == backoff_secs(initial_backoff_secs, multiplier, attempt as nat),
                forall|earlier: nat|
                    earlier <= attempt ==> #[trigger] backoff_secs(
                        initial_backoff_secs,
                        multiplier,
                        earlier,
                    ) <= u64::MAX,
            decreases max_retries - attempt,
        {
            proof {
                lemma_backoff_step(initial_backoff_secs, multiplier, attempt as nat);
            }
            match pause.checked_mul(multiplier) {
                None => {
                    assert(backoff_secs(initial_backoff_secs, multiplier, (attempt + 1) as nat)
                        > u64::MAX);
                    return None;
                },
                Some(next) => {
                    pause = next;
                    attempt = attempt + 1;
                },
            }
        }
        Some(RetryPolicy { max_retries, initial_backoff_secs, multiplier })
    }

    /// Attempts that a request gets.
    pub fn attempts(&self) -> (max_retries: u32)
        ensures
            max_retries == self.max_retries(),
            max_retries >= 1,
    {
        proof {
            use_type_invariant(self);
        }
        self.max_retries
    }

    /// Seconds to pause after attempt number `attempt`, counted from zero;
    /// `None` where the policy allows no such attempt.
    pub fn backoff(&self, attempt: u32) -> (secs: Option<u64>)
        ensures
            secs == if attempt < self.max_retries() {
                Some(self.pause(attempt as nat) as u64)
            } else {
                None
            },
            attempt < self.max_retries() ==> self.pause(attempt as nat) <= u64::MAX,
    {
        proof {
            use_type_invariant(self);
        }
        if attempt >= self.max_retries {
            return None;
        }
        let mut pause: u64 = self.initial_backoff_secs;
        let mut done: u32 = 0;
        proof {
            lemma_backoff_step(self.initial_backoff_secs, self.multiplier, 0);
        }
        while done < attempt
            invariant
                done <= attempt < self.max_retries,
                pause == self.pause(done as nat),
                pauses_fit(self.max_retries, self.initial_backoff_secs, self.multiplier),
            decreases attempt - done,
        {
            proof {
                lemma_backoff_step(self.initial_backoff_secs, self.multiplier, done as nat);
                assert(backoff_secs(
                    self.initial_backoff_secs,
                    self.multiplier,
                    (done + 1) as nat,
                ) <= u64::MAX);
            }
            pause = pause * self.multiplier;
            done = done + 1;
        }
        assert(backoff_secs(self.initial_backoff_secs, self.multiplier, attempt as nat)
            <= u64::MAX);
        Some(pause)
    }
}

impl Default for RetryPolicy {
    /// Five attempts, with pauses of 1, 2, 4, 8 and 16 seconds.
    fn default() -> (policy: RetryPolicy)
        ensures
            policy.max_retries() == MAX_RETRIES,
            policy.initial_backoff_secs() == INITIAL_BACKOFF_SECS,
            policy.multiplier() == BACKOFF_MULTIPLIER,
    {
        proof {
            lemma_default_pauses();
        }
        RetryPolicy {
            max_retries: MAX_RETRIES,
            initial_backoff_secs: INITIAL_BACKOFF_SECS,
            multiplier: BACKOFF_MULTIPLIER,
        }
    }
}

/// The pauses of the default policy: 1, 2, 4, 8 and 16 seconds.
pub proof fn lemma_default_pauses()
    ensures
        backoff_secs(INITIAL_BACKOFF_SECS, BACKOFF_MULTIPLIER, 0) == 1,
        backoff_secs(INITIAL_BACKOFF_SECS, BACKOFF_MULTIPLIER, 1) == 2,
        backoff_secs(INITIAL_BACKOFF_SECS, BACKOFF_MULTIPLIER, 2) == 4,
        backoff_secs(INITIAL_BACKOFF_SECS, BACKOFF_MULTIPLIER, 3) == 8,
        backoff_secs(INITIAL_BACKOFF_SECS, BACKOFF_MULTIPLIER, 4) == 16,
        pauses_fit(MAX_RETRIES, INITIAL_BACKOFF_SECS, BACKOFF_MULTIPLIER),
{
    lemma_backoff_step(INITIAL_BACKOFF_SECS, BACKOFF_MULTIPLIER, 0);
    lemma_backoff_step(INITIAL_BACKOFF_SECS, BACKOFF_MULTIPLIER, 1);
    lemma_backoff_step(INITIAL_BACKOFF_SECS, BACKOFF_MULTIPLIER, 2);
    lemma_backoff_step(INITIAL_BACKOFF_SECS, BACKOFF_MULTIPLIER, 3);
    assert forall|attempt: nat| attempt < MAX_RETRIES implies #[trigger] backoff_secs(
        INITIAL_BACKOFF_SECS,
        BACKOFF_MULTIPLIER,
        attempt,
    ) <= u64::MAX by {
        assert(attempt == 0 || attempt == 1 || attempt == 2 || attempt == 3 || attempt == 4);
    }
}

/// What to do about an answer.
#[derive(Clone, Copy, Debug, PartialEq, Eq, Structural)]
pub enum RetryStep {
    /// The answer is final, success or not: hand it to the caller.
    Deliver,
    /// Sleep this many seconds, then send the request again.
    SleepThenSend(u64),
    /// Sleep this many seconds, then give up: this was the last attempt.
    SleepThenGiveUp(u64),
    /// The attempts had run out before this answer: give up.
    GiveUp,
}

impl RetryStep {
    /// The pause that the step asks for before anything else happens.
    pub open spec fn pause(self) -> Option<u64> {
        match self {
            RetryStep::SleepThenSend(secs) | RetryStep::SleepThenGiveUp(secs) => Some(secs),
            _ => None,
        }
    }

    /// Whether the step ends the request without an answer.
    pub open spec fn gives_up(self) -> bool {
        self is SleepThenGiveUp || self is GiveUp
    }

    /// Seconds to sleep before acting on the step, if any.
    pub fn sleep_secs(self) -> (secs: Option<u64>)
        ensures
            secs == self.pause(),
    {
        match self {
            RetryStep::SleepThenSend(secs) | RetryStep::SleepThenGiveUp(secs) => Some(secs),
            _ => None,
        }
    }

    /// The error with which the request ends where the step gives up: the
    /// attempts were all told to slow down.
    pub fn failure(self) -> (error: Option<ErrorKind>)
        ensures
            error == if self.gives_up() {
                Some(ErrorKind::RetriesExceeded)
            } else {
                None
            },
    {
        match self {
            RetryStep::SleepThenGiveUp(_) | RetryStep::GiveUp => Some(ErrorKind::RetriesExceeded),
            _ => None,
        }
    }
}

/// What the answer to attempt number `attempt` calls for.
///
/// Only an answer that asks to slow down is retried, and it always costs a
/// pause, the last attempt included.
pub open spec fn retry_step(policy: RetryPolicy, attempt: nat, status: u16) -> RetryStep {
    if attempt >= policy.max_retries() {
        RetryStep::GiveUp
    } else if status != TOO_MANY_REQUESTS {
        RetryStep::Deliver
    } else if attempt + 1 < policy.max_retries() {
        RetryStep::SleepThenSend(policy.pause(attempt) as u64)
    } else {
        RetryStep::SleepThenGiveUp(policy.pause(attempt) as u64)
    }
}

/// The attempts used up once the answer to attempt number `attempt` is in.
pub open spec fn attempts_after(policy: RetryPolicy, attempt: nat, status: u16) -> nat {
    if attempt < policy.max_retries() && status == TOO_MANY_REQUESTS {
        attempt + 1
    } else {
        attempt
    }
}

/// The attempts of one request.
#[derive(Debug)]
pub struct Retry {
    policy: RetryPolicy,
    attempt: u32,
}

impl Retry {
    /// The policy that the request is tried under.
    pub closed spec fn policy(self) -> RetryPolicy {
        self.policy
    }

    /// Answers so far that asked to slow down.
    pub closed spec fn attempt(self) -> nat {
        self.attempt as nat
    }

    #[verifier::type_invariant]
    closed spec fn within_policy(self) -> bool {
        &&& self.attempt <= self.policy.max_retries()
        &&& self.policy.well_formed()
    }

    /// A request that has not been sent yet.
    pub fn new(policy: RetryPolicy) -> (retry: Retry)
        ensures
            retry.policy() == policy,
            retry.attempt() == 0,
    {
        proof {
            use_type_invariant(&policy);
        }
        Retry { policy, attempt: 0 }
    }

    /// Whether the attempts have run out.
    pub fn exhausted(&self) -> (exhausted: bool)
        ensures
            exhausted == (self.attempt() >= self.policy().max_retries()),
    {
        self.attempt >= self.policy.attempts()
    }

    /// Takes the status code of the answer to the attempt just made.
    pub fn on_status(&mut self, status: u16) -> (step: RetryStep)
        ensures
            step == retry_step(old(self).policy(), old(self).attempt(), status),
            final(self).policy() == old(self).policy(),
            final(self).attempt() == attempts_after(
                old(self).policy(),
                old(self).attempt(),
                status,
            ),
    {
        proof {
            use_type_invariant(&*self);
        }
        let max_retries = self.policy.attempts();
        if self.attempt >= max_retries {
            RetryStep::GiveUp
        } else if status != TOO_MANY_REQUESTS {
            RetryStep::Deliver
        } else {
            let secs = match self.policy.backoff(self.attempt) {
                Some(secs) => secs,
                None => 0,
            };
            self.attempt = self.attempt + 1;
            if self.attempt < max_retries {
                RetryStep::SleepThenSend(secs)
            } else {
                RetryStep::SleepThenGiveUp(secs)
            }
        }
    }
}

/// How a request ended.
#[derive(Clone, Copy, Debug, PartialEq, Eq, Structural)]
pub enum RetryOutcome {
    /// An answer with this status code went to the caller.
    Delivered(u16),
    /// Every attempt was told to slow down.
    RetriesExceeded,
    /// The request is still to be sent again.
    Pending,
}

/// The pauses and the end of a request whose attempts, from number `attempt`
/// on, are answered with `statuses` in turn.
pub open spec fn run(policy: RetryPolicy, attempt: nat, statuses: Seq<u16>) -> (Seq<u64>, RetryOutcome)
    decreases statuses.len(),
{
    if attempt >= policy.max_retries() {
        (Seq::empty(), RetryOutcome::RetriesExceeded)
    } else if statuses.len() == 0 {
        (Seq::empty(), RetryOutcome::Pending)
    } else {
        match retry_step(policy, attempt, statuses[0]) {
            RetryStep::Deliver => (Seq::empty(), RetryOutcome::Delivered(statuses[0])),
            RetryStep::SleepThenSend(secs) => {
                let rest = run(policy, attempt + 1, statuses.drop_first());
                (seq![secs] + rest.0, rest.1)
            },
            RetryStep::SleepThenGiveUp(secs) => (seq![secs], RetryOutcome::RetriesExceeded),
            RetryStep::GiveUp => (Seq::empty(), RetryOutcome::RetriesExceeded),
        }
    }
}

/// The first `count` pauses from attempt number `attempt` on.
pub open spec fn pauses(policy: RetryPolicy, attempt: nat, count: nat) -> Seq<u64> {
    Seq::new(count, |i: int| policy.pause((attempt + i) as nat) as u64)
}

/// A request whose every attempt is told to slow down pauses after each of
/// them, the last included, and then fails with `RetriesExceeded`.
pub proof fn lemma_rate_limited_throughout(policy: RetryPolicy, attempt: nat, statuses: Seq<u16>)
    requires
        policy.well_formed(),
        attempt <= policy.max_retries(),
        statuses.len() >= policy.max_retries() - attempt,
        forall|i: int|
            0 <= i < policy.max_retries() - attempt ==> statuses[i] == TOO_MANY_REQUESTS,
    ensures
        run(policy, attempt, statuses).0 == pauses(
            policy,
            attempt,
            (policy.max_retries() - attempt) as nat,
        ),
        run(policy, attempt, statuses).1 == RetryOutcome::RetriesExceeded,
    decreases statuses.len(),
{
    let left = (policy.max_retries() - attempt) as nat;
    if left == 0 {
        assert(run(policy, attempt, statuses).0 =~= pauses(policy, attempt, left));
    } else {
        assert(statuses[0] == TOO_MANY_REQUESTS);
        let rest = statuses.drop_first();
        if left > 1 {
            assert forall|i: int| 0 <= i < policy.max_retries() - (attempt + 1) implies rest[i]
                == TOO_MANY_REQUESTS by {
                assert(rest[i] == statuses[i + 1]);
            }
            lemma_rate_limited_throughout(policy, attempt + 1, rest);
            assert(run(policy, attempt, statuses).0 =~= pauses(policy, attempt, left));
        } else {
            assert(run(policy, attempt, statuses).0 =~= pauses(policy, attempt, left));
        }
    }
}

/// A request that is told to slow down `limited` times and then gets another
/// answer pauses `limited` times and delivers that answer.
pub proof fn lemma_delivered_after(
    policy: RetryPolicy,
    attempt: nat,
    statuses: Seq<u16>,
    limited: nat,
)
    requires
        policy.well_formed(),
        attempt + limited < policy.max_retries(),
        statuses.len() > limited,
        forall|i: int| 0 <= i < limited ==> statuses[i] == TOO_MANY_REQUESTS,
        statuses[limited as int] != TOO_MANY_REQUESTS,
    ensures
        run(policy, attempt, statuses).0 == pauses(policy, attempt, limited),
        run(policy, attempt, statuses).1 == RetryOutcome::Delivered(statuses[limited as int]),
    decreases limited,
{
    if limited == 0 {
        assert(run(policy, attempt, statuses).0 =~= pauses(policy, attempt, limited));
    } else {
        assert(statuses[0] == TOO_MANY_REQUESTS);
        let rest = statuses.drop_first();
        assert forall|i: int| 0 <= i < limited - 1 implies rest[i] == TOO_MANY_REQUESTS by {
            assert(rest[i] == statuses[i + 1]);
        }
        assert(rest[limited - 1] == statuses[limited as int]);
        lemma_delivered_after(policy, attempt + 1, rest, (limited - 1) as nat);
        assert(run(policy, attempt, statuses).0 =~= pauses(policy, attempt, limited));
    }
}

} // verus!
