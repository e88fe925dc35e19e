//! Bounded readiness polling: a fixed-interval probe with a deadline, no
//! backoff and no jitter.  The poll state decides; whoever runs it performs
//! the checks and the sleeps and feeds the outcomes back in.

use vstd::prelude::*;

verus! {

/// Outcome of one readiness check.
#[derive(Clone, Copy, PartialEq, Eq, Structural, Debug)]
pub enum CheckOutcome {
    /// The resource exists and is available.
    Ready,
    /// The resource is not available yet.
    NotReady,
    /// The check itself failed.
    Failed,
}

/// What the poll decides after one check.
#[derive(Clone, Copy, PartialEq, Eq, Structural, Debug)]
pub enum PollVerdict {
    /// The resource is ready: stop with success.
    Ready,
    /// A check failed: stop with failure at once, spending none of the
    /// remaining budget.
    Failed,
    /// Not ready yet: sleep one interval, then check again.
    Sleep,
}

/// One sleep's worth of elapsed time, capped at the largest representable
/// value.  The cap only matters past every admissible deadline.
pub open spec fn advance(elapsed: int, interval: int) -> int {
    if elapsed + interval > u64::MAX as int {
        u64::MAX as int
    } else {
        elapsed + interval
    }
}

/// What the poll returns when fed a script of check outcomes, starting with
/// `elapsed` seconds already spent: true exactly when a check answers
/// `Ready` before the deadline, with every earlier check answering
/// `NotReady`.
pub open spec fn poll_model(
    script: Seq<CheckOutcome>,
    elapsed: int,
    interval: int,
    timeout: int,
) -> bool
    decreases script.len(),
{
    if elapsed >= timeout {
        false
    } else if script.len() == 0 {
        false
    } else {
        match script[0] {
            CheckOutcome::Ready => true,
            CheckOutcome::Failed => false,
            CheckOutcome::NotReady => poll_model(
                script.skip(1),
                advance(elapsed, interval),
                interval,
                timeout,
            ),
        }
    }
}

/// How many checks the poll makes on a script before it stops.
pub open spec fn poll_used(
    script: Seq<CheckOutcome>,
    elapsed: int,
    interval: int,
    timeout: int,
) -> int
    decreases script.len(),
{
    if elapsed >= timeout {
        0
    } else if script.len() == 0 {
        0
    } else {
        match script[0] {
            CheckOutcome::Ready => 1,
            CheckOutcome::Failed => 1,
            CheckOutcome::NotReady => 1 + poll_used(
                script.skip(1),
                advance(elapsed, interval),
                interval,
                timeout,
            ),
        }
    }
}

/// The readiness poll state: checks are made while the elapsed time is
/// under the deadline, and each unready answer costs one interval of sleep.
#[derive(Clone, Copy, PartialEq, Eq, Structural, Debug)]
pub struct PollGate {
    /// Seconds slept between two checks.
    pub interval: u64,
    /// Deadline in seconds.
    pub timeout: u64,
    /// Seconds spent so far.
    pub elapsed: u64,
}

impl PollGate {
    /// Whether the poll still wants a check made.
    pub open spec fn wants_check(&self) -> bool {
        self.elapsed < self.timeout
    }

    /// Opens a poll with nothing spent yet.
    pub fn new(interval: u64, timeout: u64) -> (r: PollGate)
        ensures
            r.interval == interval,
            r.timeout == timeout,
            r.elapsed == 0,
    {
        PollGate { interval, timeout, elapsed: 0 }
    }

    /// Whether the deadline still allows a check.  With a deadline of zero
    /// this is false at once, before any check is made.
    pub fn should_check(&self) -> (r: bool)
        ensures
            r == self.wants_check(),
    {
        self.elapsed < self.timeout
    }

    /// Feeds the outcome of one check into the poll: ready stops with
    /// success, a failed check stops with failure at once, and an unready
    /// answer costs one interval of sleep before the next check.
    pub fn on_check(&mut self, outcome: CheckOutcome) -> (r: PollVerdict)
        requires
            old(self).wants_check(),
        ensures
            final(self).interval == old(self).interval,
            final(self).timeout == old(self).timeout,
            outcome is Ready ==> r is Ready && final(self).elapsed == old(self).elapsed,
            outcome is Failed ==> r is Failed && final(self).elapsed == old(self).elapsed,
            outcome is NotReady ==> r is Sleep && final(self).elapsed as int == advance(
                old(self).elapsed as int,
                old(self).interval as int,
            ),
    {
        match outcome {
            CheckOutcome::Ready => PollVerdict::Ready,
            CheckOutcome::Failed => PollVerdict::Failed,
            CheckOutcome::NotReady => {
                self.elapsed = match self.elapsed.checked_add(self.interval) {
                    Some(e) => e,
                    None => u64::MAX,
                };
                PollVerdict::Sleep
            },
        }
    }
}

/// Runs the poll over a finite script of check outcomes and returns its
/// answer together with how many checks were made.  A script that runs out
/// while the poll still wants checks counts as never becoming ready.
pub fn run_poll(script: &Vec<CheckOutcome>, interval: u64, timeout: u64) -> (r: (bool, usize))
    ensures
        r.0 == poll_model(script@, 0, interval as int, timeout as int),
        r.1 as int == poll_used(script@, 0, interval as int, timeout as int),
        r.1 <= script@.len(),
{
    let mut gate = PollGate::new(interval, timeout);
    let mut i: usize = 0;
    proof {
        assert(script@.skip(0) =~= script@);
    }
    while i < script.len()
        invariant
            0 <= i <= script@.len(),
            gate.interval == interval,
            gate.timeout == timeout,
            poll_model(script@, 0, interval as int, timeout as int) == poll_model(
                script@.skip(i as int),
                gate.elapsed as int,
                interval as int,
                timeout as int,
            ),
            poll_used(script@, 0, interval as int, timeout as int) == i + poll_used(
                script@.skip(i as int),
                gate.elapsed as int,
                interval as int,
                timeout as int,
            ),
        decreases script@.len() - i,
    {
        if !gate.should_check() {
            return (false, i);
        }
        proof {
            assert(script@.skip(i as int)[0] == script@[i as int]);
        }
        let outcome = script[i];
        let verdict = gate.on_check(outcome);
        proof {
            assert(script@.skip(i as int).skip(1) =~= script@.skip(i + 1));
        }
        match verdict {
            PollVerdict::Ready => {
                return (true, i + 1);
            },
            PollVerdict::Failed => {
                return (false, i + 1);
            },
            PollVerdict::Sleep => {},
        }
        i += 1;
    }
    proof {
        assert(script@.skip(i as int).len() == 0);
    }
    (false, i)
}

/// Elapsed time after `i` sleeps starting from `elapsed`.
pub open spec fn elapsed_from(elapsed: int, i: int, interval: int) -> int
    decreases i,
{
    if i <= 0 {
        elapsed
    } else {
        advance(elapsed_from(elapsed, i - 1, interval), interval)
    }
}

/// Sleeping one interval first, then `i` more, is sleeping `i + 1` in all.
proof fn lemma_elapsed_from_shift(elapsed: int, i: int, interval: int)
    requires
        0 <= i,
    ensures
        elapsed_from(advance(elapsed, interval), i, interval) == elapsed_from(
            elapsed,
            i + 1,
            interval,
        ),
    decreases i,
{
    if i > 0 {
        lemma_elapsed_from_shift(elapsed, i - 1, interval);
        assert(elapsed_from(advance(elapsed, interval), i, interval) == advance(
            elapsed_from(advance(elapsed, interval), i - 1, interval),
            interval,
        ));
        assert(elapsed_from(elapsed, i + 1, interval) == advance(
            elapsed_from(elapsed, i, interval),
            interval,
        ));
    } else {
        assert(elapsed_from(advance(elapsed, interval), 0, interval) == advance(
            elapsed,
            interval,
        ));
        assert(elapsed_from(elapsed, 1, interval) == advance(
            elapsed_from(elapsed, 0, interval),
            interval,
        ));
    }
}

/// Sleeping never brings the elapsed time down, and never past the cap.
proof fn lemma_elapsed_from_monotone(elapsed: int, i: int, interval: int)
    requires
        0 <= i,
        0 <= elapsed <= u64::MAX as int,
        0 <= interval,
    ensures
        elapsed <= elapsed_from(elapsed, i, interval) <= u64::MAX as int,
    decreases i,
{
    if i > 0 {
        lemma_elapsed_from_monotone(elapsed, i - 1, interval);
    }
}

/// From a zero start, `i` sleeps amount to `i * interval`, up to the cap.
pub proof fn lemma_elapsed_from_zero(i: int, interval: int)
    requires
        0 <= i,
        0 <= interval <= u64::MAX as int,
    ensures
        elapsed_from(0, i, interval) == if i * interval > u64::MAX as int {
            u64::MAX as int
        } else {
            i * interval
        },
    decreases i,
{
    if i > 0 {
        lemma_elapsed_from_zero(i - 1, interval);
        assert((i - 1) * interval + interval == i * interval) by (nonlinear_arith);
        assert(i * interval >= (i - 1) * interval) by (nonlinear_arith)
            requires
                0 <= interval && 1 <= i,
        ;
        assert(elapsed_from(0, i, interval) == advance(
            elapsed_from(0, i - 1, interval),
            interval,
        ));
    } else {
        assert(elapsed_from(0, 0, interval) == 0);
        assert(0 * interval == 0) by (nonlinear_arith);
    }
}

/// A predicate naming one witness of readiness: check `i` answers ready,
/// every earlier check answers unready, and the sleeps before check `i` fit
/// under the deadline.
pub open spec fn ready_within(
    script: Seq<CheckOutcome>,
    elapsed: int,
    interval: int,
    timeout: int,
    i: int,
) -> bool {
    &&& 0 <= i < script.len()
    &&& script[i] is Ready
    &&& forall|j: int| 0 <= j < i ==> #[trigger] script[j] is NotReady
    &&& elapsed_from(elapsed, i, interval) < timeout
}

/// If a check answers ready within the budget, with every earlier check
/// unready, the poll answers true after exactly those checks.
proof fn lemma_poll_complete_gen(
    script: Seq<CheckOutcome>,
    elapsed: int,
    interval: int,
    timeout: int,
    i: int,
)
    requires
        0 <= elapsed <= u64::MAX as int,
        0 <= interval,
        timeout <= u64::MAX as int,
        ready_within(script, elapsed, interval, timeout, i),
    ensures
        poll_model(script, elapsed, interval, timeout),
        poll_used(script, elapsed, interval, timeout) == i + 1,
    decreases i,
{
    lemma_elapsed_from_monotone(elapsed, i, interval);
    if i > 0 {
        let rest = script.skip(1);
        let e2 = advance(elapsed, interval);
        assert(rest[i - 1] == script[i]);
        assert forall|j: int| 0 <= j < i - 1 implies #[trigger] rest[j] is NotReady by {
            assert(rest[j] == script[j + 1]);
        }
        lemma_elapsed_from_shift(elapsed, i - 1, interval);
        lemma_poll_complete_gen(rest, e2, interval, timeout, i - 1);
    }
}

/// If the poll answers true, some check answered ready within the budget.
proof fn lemma_poll_sound_gen(script: Seq<CheckOutcome>, elapsed: int, interval: int, timeout: int)
    requires
        0 <= elapsed <= u64::MAX as int,
        0 <= interval,
        timeout <= u64::MAX as int,
        poll_model(script, elapsed, interval, timeout),
    ensures
        exists|i: int| ready_within(script, elapsed, interval, timeout, i),
    decreases script.len(),
{
    match script[0] {
        CheckOutcome::Ready => {
            assert(ready_within(script, elapsed, interval, timeout, 0));
        },
        CheckOutcome::NotReady => {
            let rest = script.skip(1);
            let e2 = advance(elapsed, interval);
            lemma_poll_sound_gen(rest, e2, interval, timeout);
            let i2 = choose|i2: int| ready_within(rest, e2, interval, timeout, i2);
            lemma_elapsed_from_shift(elapsed, i2, interval);
            assert(script[i2 + 1] == rest[i2]);
            assert forall|j: int| 0 <= j < i2 + 1 implies #[trigger] script[j] is NotReady by {
                if j > 0 {
                    assert(rest[j - 1] == script[j]);
                }
            }
            assert(ready_within(script, elapsed, interval, timeout, i2 + 1));
        },
        CheckOutcome::Failed => {
        },
    }
}

/// The poll answers true exactly when some check answers ready within the
/// budget: at a position whose sleeps fit under the deadline, with every
/// earlier check answering unready.  Otherwise — the deadline passes first,
/// a check fails first, or the script runs out — it answers false.
pub proof fn lemma_poll_ready_iff(script: Seq<CheckOutcome>, interval: u64, timeout: u64)
    ensures
        poll_model(script, 0, interval as int, timeout as int) <==> (exists|i: int|
            ready_within(script, 0, interval as int, timeout as int, i)),
{
    if poll_model(script, 0, interval as int, timeout as int) {
        lemma_poll_sound_gen(script, 0, interval as int, timeout as int);
    }
    if exists|i: int| ready_within(script, 0, interval as int, timeout as int, i) {
        let i = choose|i: int| ready_within(script, 0, interval as int, timeout as int, i);
        lemma_poll_complete_gen(script, 0, interval as int, timeout as int, i);
    }
}

/// Generalized fail-fast: a failed check within the budget, preceded only by
/// unready answers, stops the poll at once with a false answer.
proof fn lemma_poll_fail_fast_gen(
    script: Seq<CheckOutcome>,
    elapsed: int,
    interval: int,
    timeout: int,
    i: int,
)
    requires
        0 <= elapsed <= u64::MAX as int,
        0 <= interval,
        timeout <= u64::MAX as int,
        0 <= i < script.len(),
        script[i] is Failed,
        forall|j: int| 0 <= j < i ==> #[trigger] script[j] is NotReady,
        elapsed_from(elapsed, i, interval) < timeout,
    ensures
        !poll_model(script, elapsed, interval, timeout),
        poll_used(script, elapsed, interval, timeout) == i + 1,
    decreases i,
{
    lemma_elapsed_from_monotone(elapsed, i, interval);
    if i > 0 {
        let rest = script.skip(1);
        let e2 = advance(elapsed, interval);
        assert(rest[i - 1] == script[i]);
        assert forall|j: int| 0 <= j < i - 1 implies #[trigger] rest[j] is NotReady by {
            assert(rest[j] == script[j + 1]);
        }
        lemma_elapsed_from_shift(elapsed, i - 1, interval);
        lemma_poll_fail_fast_gen(rest, e2, interval, timeout, i - 1);
    }
}

/// The first failed check stops the poll at once: the answer is false and
/// exactly the checks up to and including the failed one were made, however
/// much budget was left.
pub proof fn lemma_poll_fail_fast(
    script: Seq<CheckOutcome>,
    interval: u64,
    timeout: u64,
    i: int,
)
    requires
        0 <= i < script.len(),
        script[i] is Failed,
        forall|j: int| 0 <= j < i ==> #[trigger] script[j] is NotReady,
        elapsed_from(0, i, interval as int) < timeout as int,
    ensures
        !poll_model(script, 0, interval as int, timeout as int),
        poll_used(script, 0, interval as int, timeout as int) == i + 1,
{
    lemma_poll_fail_fast_gen(script, 0, interval as int, timeout as int, i);
}

/// With a deadline of zero the poll answers false without one check made.
pub proof fn lemma_poll_zero_timeout(script: Seq<CheckOutcome>, interval: u64)
    ensures
        !poll_model(script, 0, interval as int, 0),
        poll_used(script, 0, interval as int, 0) == 0,
{
}

} // verus!
