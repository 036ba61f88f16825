//! Waiting for the backend's port: one connection attempt every 300 ms until
//! one succeeds or the time allowed has been slept away.
//!
//! The wait is a chain of steps. Each [`ProbeStep`] names what is due: a
//! connection attempt, a sleep, or nothing more. The caller does what is due
//! and hands the step back through `finished`, which gives the next one.
//! Connecting and sleeping are the caller's work; counting the time and
//! deciding when to stop is done here.

use vstd::prelude::*;

verus! {

/// Milliseconds that are slept after a failed attempt, and the longest that
/// one attempt may take.
pub const POLL_INTERVAL_MS: u64 = 300;

/// A wait in progress: the port, the seconds allowed in all, and the
/// milliseconds slept so far.
pub struct Waiting {
    pub port: u16,
    pub timeout_secs: u64,
    pub elapsed_ms: int,
}

/// What a [`ProbeStep`] says.
pub enum StepView {
    Connect(Waiting),
    Sleep(Waiting),
    Done { ready: bool, waited_ms: int },
}

/// A connection attempt that is due.
#[derive(Debug, PartialEq, Eq)]
pub struct Attempt {
    port: u16,
    timeout_secs: u64,
    elapsed_ms: u128,
}

/// A sleep that is due after a failed attempt.
#[derive(Debug, PartialEq, Eq)]
pub struct Pause {
    port: u16,
    timeout_secs: u64,
    elapsed_ms: u128,
}

/// What is due next in a wait.
#[derive(Debug, PartialEq, Eq)]
pub enum ProbeStep {
    /// Try to connect, and report through [`Attempt::finished`].
    Connect(Attempt),
    /// Sleep, and report through [`Pause::finished`].
    Sleep(Pause),
    /// The wait is over: the port answered, or the time allowed is used up.
    Done { ready: bool, waited_ms: u128 },
}

impl View for Attempt {
    type V = Waiting;

    closed spec fn view(&self) -> Waiting {
        Waiting {
            port: self.port,
            timeout_secs: self.timeout_secs,
            elapsed_ms: self.elapsed_ms as int,
        }
    }
}

impl View for Pause {
    type V = Waiting;

    closed spec fn view(&self) -> Waiting {
        Waiting {
            port: self.port,
            timeout_secs: self.timeout_secs,
            elapsed_ms: self.elapsed_ms as int,
        }
    }
}

impl View for ProbeStep {
    type V = StepView;

    open spec fn view(&self) -> StepView {
        match self {
            ProbeStep::Connect(attempt) => StepView::Connect(attempt@),
            ProbeStep::Sleep(pause) => StepView::Sleep(pause@),
            ProbeStep::Done { ready, waited_ms } => StepView::Done {
                ready: *ready,
                waited_ms: *waited_ms as int,
            },
        }
    }
}

/// Whether the time slept so far is still short of the time allowed.
pub open spec fn within_budget(wait: Waiting) -> bool {
    wait.elapsed_ms < wait.timeout_secs * 1000
}

/// What is due when no attempt is under way: another attempt while the time
/// allowed lasts, the end of the wait without success after that.
pub open spec fn due(wait: Waiting) -> StepView {
    if within_budget(wait) {
        StepView::Connect(wait)
    } else {
        StepView::Done { ready: false, waited_ms: wait.elapsed_ms }
    }
}

/// The first step of a wait.
pub open spec fn begun(port: u16, timeout_secs: u64) -> StepView {
    due(Waiting { port, timeout_secs, elapsed_ms: 0 })
}

/// What follows an attempt: the end of the wait with success where it
/// connected, a sleep where it did not.
pub open spec fn after_attempt(wait: Waiting, connected: bool) -> StepView {
    if connected {
        StepView::Done { ready: true, waited_ms: wait.elapsed_ms }
    } else {
        StepView::Sleep(wait)
    }
}

/// What follows a sleep: the interval is added to the time slept, and what
/// is due is decided anew.
pub open spec fn after_pause(wait: Waiting) -> StepView {
    due(Waiting { elapsed_ms: wait.elapsed_ms + POLL_INTERVAL_MS, ..wait })
}

/// Where a wait stands once its attempts have given `results`, in order;
/// sleeps pass by themselves. It stands at an attempt where the results end
/// before the wait does.
pub open spec fn run(step: StepView, results: Seq<bool>) -> StepView
    decreases results.len(), (if step is Sleep { 1nat } else { 0nat }),
{
    match step {
        StepView::Done { .. } => step,
        StepView::Sleep(wait) => run(after_pause(wait), results),
        StepView::Connect(wait) => if results.len() == 0 {
            step
        } else {
            run(after_attempt(wait, results[0]), results.drop_first())
        },
    }
}

/// How many attempts a wait of `timeout_secs` makes where none connects: one
/// for each multiple of the interval that is short of the time allowed.
pub open spec fn attempts_allowed(timeout_secs: u64) -> nat {
    ((timeout_secs * 1000 + POLL_INTERVAL_MS - 1) / (POLL_INTERVAL_MS as int)) as nat
}

/// Whether attempt number `k`, counted from 0, is the first that connects.
pub open spec fn first_success(results: Seq<bool>, k: int) -> bool {
    &&& 0 <= k < results.len()
    &&& results[k]
    &&& forall|j: int| 0 <= j < k ==> !results[j]
}

/// How many more attempts a wait makes where none connects.
pub open spec fn attempts_left(wait: Waiting) -> nat {
    if within_budget(wait) {
        ((wait.timeout_secs * 1000 - wait.elapsed_ms + POLL_INTERVAL_MS - 1) / (
        POLL_INTERVAL_MS as int)) as nat
    } else {
        0
    }
}

/// From any point of a wait at which no attempt is under way: it ends with
/// success at the first attempt that connects, if that is one of the
/// attempts left, and without success after the last of them where none
/// connects.
pub proof fn lemma_run_from_due(wait: Waiting, results: Seq<bool>)
    ensures
        forall|k: int|
            first_success(results, k) && k < attempts_left(wait) ==> run(due(wait), results)
                == (StepView::Done {
                ready: true,
                waited_ms: wait.elapsed_ms + k * POLL_INTERVAL_MS,
            }),
        results.len() >= attempts_left(wait) && (forall|k: int|
            0 <= k < attempts_left(wait) ==> !results[k]) ==> run(due(wait), results)
            == (StepView::Done {
            ready: false,
            waited_ms: wait.elapsed_ms + attempts_left(wait) * POLL_INTERVAL_MS,
        }),
    decreases attempts_left(wait),
{
    reveal_with_fuel(run, 3);
    if within_budget(wait) && results.len() > 0 && !results[0] {
        let later = Waiting { elapsed_ms: wait.elapsed_ms + POLL_INTERVAL_MS, ..wait };
        let rest = results.drop_first();
        lemma_run_from_due(later, rest);
        assert forall|k: int| first_success(results, k) && k < attempts_left(wait) implies run(
            due(wait),
            results,
        ) == (StepView::Done {
            ready: true,
            waited_ms: wait.elapsed_ms + k * POLL_INTERVAL_MS,
        }) by {
            assert(first_success(rest, k - 1));
        }
    }
}

/// A wait ends with success at the first attempt that connects, with no
/// sleep after it. It ends without success exactly where none of the
/// attempts that the time allows for connects, and it has slept the time
/// allowed by then, and less than one interval more.
pub proof fn lemma_wait_outcome(port: u16, timeout_secs: u64, results: Seq<bool>)
    ensures
        forall|k: int|
            first_success(results, k) && k < attempts_allowed(timeout_secs) ==> run(
                begun(port, timeout_secs),
                results,
            ) == (StepView::Done { ready: true, waited_ms: k * POLL_INTERVAL_MS }),
        results.len() >= attempts_allowed(timeout_secs) && (forall|k: int|
            0 <= k < attempts_allowed(timeout_secs) ==> !results[k]) ==> run(
            begun(port, timeout_secs),
            results,
        ) == (StepView::Done {
            ready: false,
            waited_ms: attempts_allowed(timeout_secs) * POLL_INTERVAL_MS,
        }),
        timeout_secs * 1000 <= attempts_allowed(timeout_secs) * POLL_INTERVAL_MS < timeout_secs
            * 1000 + POLL_INTERVAL_MS,
{
    let wait = Waiting { port, timeout_secs, elapsed_ms: 0 };
    lemma_run_from_due(wait, results);
}

/// Where attempt number `k` connects, some attempt up to `k` is the first
/// that connects.
proof fn lemma_some_success_is_first(results: Seq<bool>, k: int) -> (first: int)
    requires
        0 <= k < results.len(),
        results[k],
    ensures
        0 <= first <= k,
        first_success(results, first),
    decreases k,
{
    if exists|j: int| 0 <= j < k && results[j] {
        let j = choose|j: int| 0 <= j < k && results[j];
        lemma_some_success_is_first(results, j)
    } else {
        k
    }
}

/// A wait whose attempts are all answered ends, and it ends without success
/// if and only if none of the attempts that the time allows for connects.
pub proof fn lemma_wait_fails_iff_none_connects(port: u16, timeout_secs: u64, results: Seq<bool>)
    requires
        results.len() >= attempts_allowed(timeout_secs),
    ensures
        run(begun(port, timeout_secs), results) is Done,
        !run(begun(port, timeout_secs), results)->ready <==> forall|k: int|
            0 <= k < attempts_allowed(timeout_secs) ==> !results[k],
{
    lemma_wait_outcome(port, timeout_secs, results);
    if exists|k: int| 0 <= k < attempts_allowed(timeout_secs) && results[k] {
        let k = choose|k: int| 0 <= k < attempts_allowed(timeout_secs) && results[k];
        let first = lemma_some_success_is_first(results, k);
    }
}

/// What the attempts of a wait find at a port that accepts connections once
/// `opens_at_ms` have been slept, and not before: attempt number `k` is made
/// after `k` sleeps.
pub open spec fn results_at_port_opening(opens_at_ms: nat, attempts: nat) -> Seq<bool> {
    Seq::new(attempts, |k: int| k * POLL_INTERVAL_MS >= opens_at_ms)
}

/// A port that opens in time is found within one interval: where the port
/// accepts connections by the time of the last attempt, the wait ends with
/// success, after it has slept at least as long as the port took to open and
/// less than one interval more. Where the port opens later, the wait ends
/// without success.
pub proof fn lemma_ready_within_one_interval(port: u16, timeout_secs: u64, opens_at_ms: nat)
    ensures
        ({
            let allowed = attempts_allowed(timeout_secs);
            let end = run(
                begun(port, timeout_secs),
                results_at_port_opening(opens_at_ms, allowed),
            );
            if opens_at_ms + POLL_INTERVAL_MS <= allowed * POLL_INTERVAL_MS {
                &&& end is Done
                &&& end->ready
                &&& opens_at_ms <= end->waited_ms < opens_at_ms + POLL_INTERVAL_MS
            } else {
                end == (StepView::Done { ready: false, waited_ms: allowed * POLL_INTERVAL_MS })
            }
        }),
{
    let allowed = attempts_allowed(timeout_secs);
    let results = results_at_port_opening(opens_at_ms, allowed);
    lemma_wait_outcome(port, timeout_secs, results);
    if opens_at_ms + POLL_INTERVAL_MS <= allowed * POLL_INTERVAL_MS {
        let k = (opens_at_ms + POLL_INTERVAL_MS - 1) / (POLL_INTERVAL_MS as int);
        assert(first_success(results, k));
    }
}

impl Attempt {
    #[verifier::type_invariant]
    spec fn in_time(self) -> bool {
        self.elapsed_ms < self.timeout_secs * 1000
    }

    /// The port to connect to, on the loopback address.
    pub fn port(&self) -> (port: u16)
        ensures
            port == self@.port,
    {
        self.port
    }

    /// The address to connect to: this machine itself.
    pub fn host(&self) -> (host: &'static str)
        ensures
            host@ == "127.0.0.1"@,
    {
        "127.0.0.1"
    }

    /// The longest that the attempt may take, in milliseconds.
    pub fn within_ms(&self) -> (ms: u64)
        ensures
            ms == POLL_INTERVAL_MS,
    {
        POLL_INTERVAL_MS
    }

    /// Milliseconds slept before this attempt.
    pub fn elapsed_ms(&self) -> (ms: u128)
        ensures
            ms == self@.elapsed_ms,
    {
        self.elapsed_ms
    }

    /// Takes the result of the attempt and gives the next step.
    pub fn finished(self, connected: bool) -> (next: ProbeStep)
        ensures
            next@ == after_attempt(self@, connected),
    {
        if connected {
            ProbeStep::Done { ready: true, waited_ms: self.elapsed_ms }
        } else {
            proof {
                use_type_invariant(&self);
            }
            ProbeStep::Sleep(
                Pause {
                    port: self.port,
                    timeout_secs: self.timeout_secs,
                    elapsed_ms: self.elapsed_ms,
                },
            )
        }
    }
}

impl Pause {
    #[verifier::type_invariant]
    spec fn in_time(self) -> bool {
        self.elapsed_ms < self.timeout_secs * 1000
    }

    /// How long to sleep, in milliseconds.
    pub fn ms(&self) -> (ms: u64)
        ensures
            ms == POLL_INTERVAL_MS,
    {
        POLL_INTERVAL_MS
    }

    /// Takes note that the sleep is over and gives the next step.
    pub fn finished(self) -> (next: ProbeStep)
        ensures
            next@ == after_pause(self@),
    {
        proof {
            use_type_invariant(&self);
        }
        let elapsed_ms: u128 = self.elapsed_ms + POLL_INTERVAL_MS as u128;
        step_due(self.port, self.timeout_secs, elapsed_ms)
    }
}

/// Decides what is due after `elapsed_ms` of sleep.
fn step_due(port: u16, timeout_secs: u64, elapsed_ms: u128) -> (step: ProbeStep)
    ensures
        step@ == due(Waiting { port, timeout_secs, elapsed_ms: elapsed_ms as int }),
{
    if elapsed_ms < timeout_secs as u128 * 1000 {
        ProbeStep::Connect(Attempt { port, timeout_secs, elapsed_ms })
    } else {
        ProbeStep::Done { ready: false, waited_ms: elapsed_ms }
    }
}

/// Begins to wait for `port` to accept a connection, for `timeout_secs` at
/// the most.
pub fn wait_port(port: u16, timeout_secs: u64) -> (step: ProbeStep)
    ensures
        step@ == begun(port, timeout_secs),
{
    step_due(port, timeout_secs, 0)
}

} // verus!
