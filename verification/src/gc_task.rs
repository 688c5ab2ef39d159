//! The decisions of the background GC task: when to start it, and how a
//! cleanup cycle proceeds from one batch of expired keys to the next. The
//! task itself (timers, the database, spawning) runs these decisions.

use vstd::prelude::*;

use crate::gc_config::GcConfig;

verus! {

/// A batch slower than this, in nanoseconds (50ms), ends the cleanup cycle.
pub const SLOW_BATCH_NANOS: u128 = 50_000_000;

/// The pause, in milliseconds, taken between batches once a cycle has
/// cleaned twice its batch size.
pub const PAUSE_MILLIS: u64 = 1;

/// What the GC task must do after a decision of `GcControl`.
#[derive(Clone, Copy, Debug, PartialEq, Eq, Structural)]
pub enum GcDecision {
    /// Start a task with the settings in force.
    Spawn,
    /// Stop the running task and start one with the settings in force.
    Restart,
    /// Stop the running task.
    Stop,
    /// Leave things as they are.
    Keep,
}

/// The settings of the GC task, and the settings of the task that runs, if
/// one does. A running task always runs with the settings in force, and only
/// when they enable GC.
pub struct GcControl {
    config: GcConfig,
    task: Option<GcConfig>,
}

/// The task that runs after new settings `new_config` are adopted: one with
/// these settings when they enable GC, and none otherwise.
pub open spec fn task_after_update(new_config: GcConfig) -> Option<GcConfig> {
    if new_config.enabled {
        Some(new_config)
    } else {
        None
    }
}

/// The decision on adopting `new_config` when `task` runs: start or restart
/// a task when the settings enable GC, stop the running task when they do
/// not.
pub open spec fn update_decision(task: Option<GcConfig>, new_config: GcConfig) -> GcDecision {
    if new_config.enabled {
        if task is Some {
            GcDecision::Restart
        } else {
            GcDecision::Spawn
        }
    } else if task is Some {
        GcDecision::Stop
    } else {
        GcDecision::Keep
    }
}

impl GcControl {
    #[verifier::type_invariant]
    spec fn inv(self) -> bool {
        self.task matches Some(t) ==> t == self.config && self.config.enabled
    }

    /// The settings in force.
    pub closed spec fn settings(self) -> GcConfig {
        self.config
    }

    /// The settings of the running task, if a task runs.
    pub closed spec fn task(self) -> Option<GcConfig> {
        self.task
    }

    /// Whether a cleanup task runs.
    pub open spec fn is_running(self) -> bool {
        self.task() is Some
    }

    /// A running task runs with the settings in force, and only when they
    /// enable GC.
    pub open spec fn follows_settings(self) -> bool {
        self.task() matches Some(t) ==> t == self.settings() && self.settings().enabled
    }

    /// A control with the given settings and no task running.
    pub fn new(config: GcConfig) -> (c: GcControl)
        ensures
            c.settings() == config,
            c.task() is None,
            c.follows_settings(),
    {
        GcControl { config, task: None }
    }

    /// Decides whether to start the cleanup task: when GC is enabled, a task
    /// with the settings in force is started; otherwise nothing changes. A
    /// task already running is not stopped: it goes on, detached, and the
    /// new task becomes the one that runs.
    pub fn start(&mut self) -> (d: GcDecision)
        ensures
            d == if old(self).settings().enabled {
                GcDecision::Spawn
            } else {
                GcDecision::Keep
            },
            final(self).settings() == old(self).settings(),
            final(self).task() == if old(self).settings().enabled {
                Some(old(self).settings())
            } else {
                old(self).task()
            },
            final(self).follows_settings(),
    {
        proof {
            use_type_invariant(&*self);
        }
        if !self.config.enabled {
            return GcDecision::Keep;
        }
        self.task = Some(self.config);
        GcDecision::Spawn
    }

    /// Decides whether there is a task to abort; afterwards none runs.
    pub fn stop(&mut self) -> (abort: bool)
        ensures
            abort == old(self).is_running(),
            final(self).settings() == old(self).settings(),
            final(self).task() is None,
            final(self).follows_settings(),
    {
        let abort = self.task.is_some();
        self.task = None;
        abort
    }

    /// The settings in force.
    pub fn config(&self) -> (c: &GcConfig)
        ensures
            *c == self.settings(),
    {
        &self.config
    }

    /// Whether a cleanup task runs.
    pub fn running(&self) -> (r: bool)
        ensures
            r == self.is_running(),
    {
        self.task.is_some()
    }

    /// Adopts new settings at run time, and decides what the task must do so
    /// that they take effect: a task with the new settings runs afterwards
    /// when they enable GC (started, or restarted in place of a running
    /// one), and no task runs when they disable it (a running one is
    /// stopped).
    pub fn update_config(&mut self, new_config: GcConfig) -> (d: GcDecision)
        ensures
            final(self).settings() == new_config,
            final(self).task() == task_after_update(new_config),
            d == update_decision(old(self).task(), new_config),
            final(self).follows_settings(),
    {
        let d = if new_config.enabled {
            if self.task.is_some() {
                GcDecision::Restart
            } else {
                GcDecision::Spawn
            }
        } else if self.task.is_some() {
            GcDecision::Stop
        } else {
            GcDecision::Keep
        };
        let task = if new_config.enabled {
            Some(new_config)
        } else {
            None
        };
        *self = GcControl { config: new_config, task };
        d
    }
}

/// What the cleanup cycle does after a batch.
#[derive(Clone, Copy, Debug, PartialEq, Eq, Structural)]
pub enum BatchStep {
    /// Clean the next batch at once.
    Continue,
    /// Pause for `PAUSE_MILLIS`, then clean the next batch.
    PauseThenContinue,
    /// The cycle is over.
    Finish,
}

/// The progress of a cleanup cycle: the keys cleaned and the non-empty
/// batches seen.
pub struct CycleView {
    pub total_cleaned: nat,
    pub batch_count: nat,
}

/// The progress after a batch that cleaned `cleaned` keys: an empty batch
/// counts for nothing.
pub open spec fn after_batch(v: CycleView, cleaned: nat) -> CycleView {
    if cleaned == 0 {
        v
    } else {
        CycleView { total_cleaned: v.total_cleaned + cleaned, batch_count: v.batch_count + 1 }
    }
}

/// The decision after a batch that cleaned `cleaned` keys in `nanos`
/// nanoseconds, when `total` keys had been cleaned before it: stop at an
/// empty or a slow batch, pause once twice the batch size is cleaned.
pub open spec fn batch_step(batch_size: nat, total: nat, cleaned: nat, nanos: nat) -> BatchStep {
    if cleaned == 0 {
        BatchStep::Finish
    } else if nanos > SLOW_BATCH_NANOS {
        BatchStep::Finish
    } else if total + cleaned >= batch_size * 2 {
        BatchStep::PauseThenContinue
    } else {
        BatchStep::Continue
    }
}

/// One cleanup cycle of the GC task, fed batch by batch.
pub struct CleanupCycle {
    batch_size: usize,
    total_cleaned: usize,
    batch_count: usize,
}

impl View for CleanupCycle {
    type V = CycleView;

    closed spec fn view(&self) -> CycleView {
        CycleView {
            total_cleaned: self.total_cleaned as nat,
            batch_count: self.batch_count as nat,
        }
    }
}

impl CleanupCycle {
    #[verifier::type_invariant]
    spec fn inv(self) -> bool {
        self.batch_count <= self.total_cleaned
    }

    /// The batch size the cycle asks the database for.
    pub closed spec fn size(self) -> nat {
        self.batch_size as nat
    }

    /// A cycle that cleans up to `batch_size` keys per batch and has cleaned
    /// nothing yet.
    pub fn new(batch_size: usize) -> (c: CleanupCycle)
        ensures
            c.size() == batch_size,
            c@ == (CycleView { total_cleaned: 0, batch_count: 0 }),
            c@.batch_count <= c@.total_cleaned,
    {
        CleanupCycle { batch_size, total_cleaned: 0, batch_count: 0 }
    }

    /// The batch size the cycle asks the database for.
    pub fn batch_size(&self) -> (r: usize)
        ensures
            r == self.size(),
    {
        self.batch_size
    }

    /// The keys cleaned so far.
    pub fn total_cleaned(&self) -> (r: usize)
        ensures
            r == self@.total_cleaned,
    {
        self.total_cleaned
    }

    /// The non-empty batches seen so far.
    pub fn batch_count(&self) -> (r: usize)
        ensures
            r == self@.batch_count,
    {
        self.batch_count
    }

    /// Takes the result of one batch, which cleaned `cleaned` keys in
    /// `elapsed_nanos` nanoseconds, and decides what comes next.
    pub fn on_batch(&mut self, cleaned: usize, elapsed_nanos: u128) -> (step: BatchStep)
        requires
            cleaned > 0 ==> old(self)@.total_cleaned + cleaned <= usize::MAX,
            cleaned > 0 && elapsed_nanos <= SLOW_BATCH_NANOS ==> old(self).size() * 2
                <= usize::MAX,
        ensures
            final(self).size() == old(self).size(),
            final(self)@ == after_batch(old(self)@, cleaned as nat),
            final(self)@.batch_count <= final(self)@.total_cleaned,
            step == batch_step(
                old(self).size(),
                old(self)@.total_cleaned,
                cleaned as nat,
                elapsed_nanos as nat,
            ),
    {
        proof {
            use_type_invariant(&*self);
        }
        if cleaned == 0 {
            return BatchStep::Finish;
        }
        self.total_cleaned = self.total_cleaned + cleaned;
        self.batch_count = self.batch_count + 1;
        if elapsed_nanos > SLOW_BATCH_NANOS {
            BatchStep::Finish
        } else if self.total_cleaned >= self.batch_size * 2 {
            BatchStep::PauseThenContinue
        } else {
            BatchStep::Continue
        }
    }
}

/// The keys cleaned by the batches `cleaned`, in order.
pub open spec fn keys_in(cleaned: Seq<nat>) -> nat
    decreases cleaned.len(),
{
    if cleaned.len() == 0 {
        0
    } else {
        keys_in(cleaned.drop_last()) + cleaned.last()
    }
}

/// How many of the batches `cleaned` cleaned something.
pub open spec fn non_empty(cleaned: Seq<nat>) -> nat
    decreases cleaned.len(),
{
    if cleaned.len() == 0 {
        0
    } else {
        non_empty(cleaned.drop_last()) + if cleaned.last() > 0 {
            1nat
        } else {
            0nat
        }
    }
}

/// The progress of a cycle from `v` after the batches `cleaned`, in order.
pub open spec fn after_batches(v: CycleView, cleaned: Seq<nat>) -> CycleView
    decreases cleaned.len(),
{
    if cleaned.len() == 0 {
        v
    } else {
        after_batch(after_batches(v, cleaned.drop_last()), cleaned.last())
    }
}

/// A cleanup cycle reports as cleaned exactly the sum of the keys its
/// batches cleaned, and counts exactly its non-empty batches.
pub proof fn law_cycle_accounting(v: CycleView, cleaned: Seq<nat>)
    ensures
        after_batches(v, cleaned) == (CycleView {
            total_cleaned: v.total_cleaned + keys_in(cleaned),
            batch_count: v.batch_count + non_empty(cleaned),
        }),
    decreases cleaned.len(),
{
    if cleaned.len() > 0 {
        law_cycle_accounting(v, cleaned.drop_last());
    }
}

/// Once a cycle has cleaned twice its batch size, every further batch that
/// is neither empty nor slow is followed by a pause.
pub proof fn law_pause_persists(
    batch_size: nat,
    v: CycleView,
    cleaned: Seq<nat>,
    next: nat,
    nanos: nat,
)
    requires
        v.total_cleaned >= batch_size * 2,
        next > 0,
        nanos <= SLOW_BATCH_NANOS,
    ensures
        batch_step(batch_size, after_batches(v, cleaned).total_cleaned, next, nanos)
            == BatchStep::PauseThenContinue,
{
    law_cycle_accounting(v, cleaned);
}

/// The keys cleaned by the batches `b`, each given as (keys cleaned,
/// nanoseconds taken).
pub open spec fn cycle_keys(b: Seq<(nat, nat)>) -> nat
    decreases b.len(),
{
    if b.len() == 0 {
        0
    } else {
        b[0].0 + cycle_keys(b.drop_first())
    }
}

/// A cleanup cycle driven by `batch_step`, when `total` keys are cleaned so
/// far and the next batches give `b`: the keys it reports, and how many
/// batches it asks the database for. It asks for one batch after another
/// until the decision is to finish.
pub open spec fn cycle_run(batch_size: nat, total: nat, b: Seq<(nat, nat)>) -> (nat, nat)
    decreases b.len(),
{
    if b.len() == 0 {
        (total, 0)
    } else if batch_step(batch_size, total, b[0].0, b[0].1) == BatchStep::Finish {
        (total + b[0].0, 1)
    } else {
        let rest = cycle_run(batch_size, total + b[0].0, b.drop_first());
        (rest.0, rest.1 + 1)
    }
}

/// A cleanup cycle asks for batches until the first one that is empty or
/// slower than `SLOW_BATCH_NANOS`, that one included: when it is the batch
/// at index `k`, the cycle asks for exactly `k + 1` batches and reports the
/// keys they cleaned, which is zero exactly when the first batch is empty.
pub proof fn law_cycle_stops_at_first_empty_or_slow_batch(
    batch_size: nat,
    b: Seq<(nat, nat)>,
    k: nat,
)
    requires
        k < b.len(),
        b[k as int].0 == 0 || b[k as int].1 > SLOW_BATCH_NANOS,
        forall|i: int| 0 <= i < k ==> #[trigger] b[i].0 > 0 && b[i].1 <= SLOW_BATCH_NANOS,
    ensures
        cycle_run(batch_size, 0, b) == (cycle_keys(b.take(k + 1 as int)), k + 1 as nat),
        cycle_run(batch_size, 0, b).0 == 0 <==> b[0].0 == 0,
{
    lemma_cycle_run(batch_size, 0, b, k);
    assert(b.take(k + 1 as int)[0] == b[0]);
    lemma_cycle_keys_first(b.take(k + 1 as int));
    if b[0].0 == 0 {
        if k > 0 {
            assert(b[0].0 > 0);
        }
        assert(b.take(1).drop_first() =~= Seq::<(nat, nat)>::empty());
    }
}

proof fn lemma_cycle_keys_first(b: Seq<(nat, nat)>)
    requires
        b.len() > 0,
    ensures
        cycle_keys(b) >= b[0].0,
{
}

proof fn lemma_cycle_run(batch_size: nat, total: nat, b: Seq<(nat, nat)>, k: nat)
    requires
        k < b.len(),
        b[k as int].0 == 0 || b[k as int].1 > SLOW_BATCH_NANOS,
        forall|i: int| 0 <= i < k ==> #[trigger] b[i].0 > 0 && b[i].1 <= SLOW_BATCH_NANOS,
    ensures
        cycle_run(batch_size, total, b) == (total + cycle_keys(b.take(k + 1 as int)), k + 1 as nat),
    decreases k,
{
    let t = b.take(k + 1 as int);
    assert(t[0] == b[0]);
    assert(cycle_keys(t) == t[0].0 + cycle_keys(t.drop_first()));
    if k == 0 {
        assert(t.drop_first() =~= Seq::<(nat, nat)>::empty());
        assert(cycle_keys(t.drop_first()) == 0);
        assert(batch_step(batch_size, total, b[0].0, b[0].1) == BatchStep::Finish);
    } else {
        assert(b[0].0 > 0 && b[0].1 <= SLOW_BATCH_NANOS);
        let rest = b.drop_first();
        assert forall|i: int| 0 <= i < k - 1 implies #[trigger] rest[i].0 > 0 && rest[i].1
            <= SLOW_BATCH_NANOS by {
            assert(rest[i] == b[i + 1]);
        }
        assert(rest[k - 1] == b[k as int]);
        lemma_cycle_run(batch_size, total + b[0].0, rest, (k - 1) as nat);
        assert(t.drop_first() =~= rest.take(k as int));
        assert(batch_step(batch_size, total, b[0].0, b[0].1) != BatchStep::Finish);
    }
}

} // verus!
