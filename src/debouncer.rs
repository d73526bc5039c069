use vstd::prelude::*;

verus! {

/// Which edge of a burst of triggers a debouncer fires on.
#[derive(Debug, Clone, Copy, PartialEq, Eq, Structural)]
pub enum DebounceMode {
    /// Fire at once on the first trigger after being idle.
    Leading,
    /// Fire once the cooldown has passed with no further trigger.
    Trailing,
}

/// The mutable part of a debouncer. Times are milliseconds on a monotonic
/// clock.
#[derive(Debug, Clone, Copy, PartialEq, Eq, Structural)]
pub struct DebouncerState {
    pub has_run: bool,
    pub last_run: u64,
    pub triggered: bool,
}

/// A cooldown-gated notifier. The waiting side asks `poll` what to do at a
/// given instant; the signalling side calls `trigger`.
#[derive(Debug, Clone, Copy, PartialEq, Eq, Structural)]
pub struct Debouncer {
    pub mode: DebounceMode,
    pub cooldown: u64,
    pub state: DebouncerState,
}

/// What the waiting side does next.
#[derive(Debug, Clone, Copy, PartialEq, Eq, Structural)]
pub enum ReadyStep {
    /// Nothing is pending: sleep until notified.
    WaitForTrigger,
    /// A signal is pending but the cooldown runs until this instant.
    SleepUntil(u64),
    /// The signal is due: hand out a guard.
    Ready,
}

/// The instant at which the cooldown window ends, in unbounded arithmetic.
pub open spec fn deadline(d: Debouncer) -> int {
    d.state.last_run + d.cooldown
}

/// Whether a pending signal may be released at `now`.
pub open spec fn due_at(d: Debouncer, now: u64) -> bool {
    (d.mode == DebounceMode::Leading && !d.state.has_run) || now >= deadline(d)
}

/// The step that the waiting side takes at `now`.
pub open spec fn step_at(d: Debouncer, now: u64) -> ReadyStep {
    if !d.state.triggered {
        ReadyStep::WaitForTrigger
    } else if due_at(d, now) {
        ReadyStep::Ready
    } else if deadline(d) <= u64::MAX {
        ReadyStep::SleepUntil(deadline(d) as u64)
    } else {
        ReadyStep::SleepUntil(u64::MAX)
    }
}

/// The debouncer after a trigger at `now`.
pub open spec fn after_trigger(d: Debouncer, now: u64) -> Debouncer {
    Debouncer {
        state: DebouncerState {
            last_run: if d.mode == DebounceMode::Trailing { now } else { d.state.last_run },
            triggered: true,
            ..d.state
        },
        ..d
    }
}

/// The debouncer after the released signal is finished at `now`.
pub open spec fn after_finalize(d: Debouncer, pending: bool, now: u64) -> Debouncer {
    if d.state.triggered {
        Debouncer {
            state: DebouncerState { has_run: true, triggered: pending, last_run: now },
            ..d
        }
    } else {
        d
    }
}

/// The debouncer after a trigger at each instant of `ts`, in order.
pub open spec fn after_triggers(d: Debouncer, ts: Seq<u64>) -> Debouncer
    decreases ts.len(),
{
    if ts.len() == 0 {
        d
    } else {
        after_trigger(after_triggers(d, ts.drop_last()), ts.last())
    }
}

proof fn lemma_after_triggers_trailing(d: Debouncer, ts: Seq<u64>)
    requires
        d.mode == DebounceMode::Trailing,
        ts.len() > 0,
    ensures
        after_triggers(d, ts).mode == d.mode,
        after_triggers(d, ts).cooldown == d.cooldown,
        after_triggers(d, ts).state.triggered,
        after_triggers(d, ts).state.last_run == ts.last(),
    decreases ts.len(),
{
    let prev = after_triggers(d, ts.drop_last());
    if ts.len() > 1 {
        lemma_after_triggers_trailing(d, ts.drop_last());
    } else {
        assert(ts.drop_last().len() == 0);
        assert(prev == d);
    }
    assert(after_triggers(d, ts) == after_trigger(prev, ts.last()));
}

/// Coalescing: a burst of triggers on a trailing debouncer, each closer than
/// the cooldown to the one before, is released exactly once. While the burst
/// lasts the signal is never due; after the last trigger it is due exactly
/// from `cooldown` later on; once the released signal is finished, nothing
/// is due until a new trigger arrives.
pub proof fn lemma_coalescing(d: Debouncer, ts: Seq<u64>)
    requires
        d.mode == DebounceMode::Trailing,
        ts.len() > 0,
        forall|i: int| 0 <= i < ts.len() - 1 ==> ts[i] <= #[trigger] ts[i + 1] && ts[i + 1] - ts[i] < d.cooldown,
    ensures
        forall|i: int, t: u64|
            0 <= i < ts.len() - 1 && ts[i] <= t < ts[i + 1]
                ==> #[trigger] step_at(after_triggers(d, ts.take(i + 1)), t) != ReadyStep::Ready,
        forall|t: u64| (#[trigger] step_at(after_triggers(d, ts), t) == ReadyStep::Ready) <==> t >= ts.last() + d.cooldown,
        forall|t: u64, t2: u64|
            #[trigger] step_at(after_finalize(after_triggers(d, ts), false, t), t2) == ReadyStep::WaitForTrigger,
{
    lemma_after_triggers_trailing(d, ts);
    assert forall|i: int, t: u64|
        0 <= i < ts.len() - 1 && ts[i] <= t < ts[i + 1]
            implies #[trigger] step_at(after_triggers(d, ts.take(i + 1)), t) != ReadyStep::Ready by {
        let pre = ts.take(i + 1);
        lemma_after_triggers_trailing(d, pre);
        assert(pre.last() == ts[i]);
        assert(ts[i + 1] - ts[i] < d.cooldown);
    }
}

impl Debouncer {
    pub fn new(cooldown: u64, mode: DebounceMode, now: u64) -> (r: Self)
        ensures
            r.mode == mode,
            r.cooldown == cooldown,
            r.state.has_run == (mode == DebounceMode::Trailing),
            r.state.last_run == now,
            !r.state.triggered,
    {
        let has_run = match mode {
            DebounceMode::Leading => false,
            DebounceMode::Trailing => true,
        };
        Debouncer {
            mode,
            cooldown,
            state: DebouncerState { has_run, last_run: now, triggered: false },
        }
    }

    pub fn is_triggered(&self) -> (r: bool)
        ensures
            r == self.state.triggered,
    {
        self.state.triggered
    }

    /// Records a trigger at `now`. In trailing mode the cooldown restarts.
    /// Returns whether the waiting side must be notified, which is only when
    /// no signal was pending before.
    pub fn trigger(&mut self, now: u64) -> (notify: bool)
        ensures
            *final(self) == after_trigger(*old(self), now),
            notify == !old(self).state.triggered,
    {
        match self.mode {
            DebounceMode::Trailing => {
                self.state.last_run = now;
            },
            DebounceMode::Leading => {},
        }
        if self.state.triggered {
            return false;
        }
        self.state.triggered = true;
        true
    }

    /// Decides, at `now`, whether the pending signal is due.
    pub fn poll(&self, now: u64) -> (r: ReadyStep)
        ensures
            r == step_at(*self, now),
    {
        if !self.state.triggered {
            return ReadyStep::WaitForTrigger;
        }
        let leading_first = match self.mode {
            DebounceMode::Leading => !self.state.has_run,
            DebounceMode::Trailing => false,
        };
        if leading_first {
            return ReadyStep::Ready;
        }
        if self.cooldown <= u64::MAX - self.state.last_run {
            let next_allowed = self.state.last_run + self.cooldown;
            if now >= next_allowed {
                ReadyStep::Ready
            } else {
                ReadyStep::SleepUntil(next_allowed)
            }
        } else {
            ReadyStep::SleepUntil(u64::MAX)
        }
    }

    /// Finishes a released signal at `now`. With `pending` false the signal is
    /// consumed; with `pending` true it stays pending for another round.
    /// Returns whether the waiting side must be notified.
    pub fn finalize(&mut self, pending: bool, now: u64) -> (notify: bool)
        ensures
            *final(self) == after_finalize(*old(self), pending, now),
            notify == old(self).state.triggered,
    {
        if self.state.triggered {
            self.state.has_run = true;
            self.state.triggered = pending;
            self.state.last_run = now;
            true
        } else {
            false
        }
    }
}

} // verus!

verus! {

/// Handed out when a signal is released. Finishing it consumes the signal;
/// a guard finishes at most once.
#[derive(Debug, Clone, Copy, PartialEq, Eq, Structural)]
pub struct DebouncerGuard {
    pub completed: bool,
}

impl DebouncerGuard {
    pub fn new() -> (r: Self)
        ensures
            !r.completed,
    {
        DebouncerGuard { completed: false }
    }

    /// Finishes the guard at `now`. Returns whether the waiting side must be
    /// notified.
    pub fn finish(&mut self, debouncer: &mut Debouncer, now: u64) -> (notify: bool)
        ensures
            final(self).completed,
            old(self).completed ==> *final(debouncer) == *old(debouncer) && !notify,
            !old(self).completed ==> *final(debouncer) == after_finalize(*old(debouncer), false, now)
                && notify == old(debouncer).state.triggered,
    {
        if self.completed {
            return false;
        }
        self.completed = true;
        debouncer.finalize(false, now)
    }

    /// Gives the guard up at `now` without completing the work, as when the
    /// consumer fails: the signal stays pending so that it is not lost.
    /// Returns whether the waiting side must be notified.
    pub fn abandon(&mut self, debouncer: &mut Debouncer, now: u64) -> (notify: bool)
        ensures
            final(self).completed,
            old(self).completed ==> *final(debouncer) == *old(debouncer) && !notify,
            !old(self).completed ==> *final(debouncer) == after_finalize(*old(debouncer), true, now)
                && notify == old(debouncer).state.triggered,
    {
        if self.completed {
            return false;
        }
        self.completed = true;
        debouncer.finalize(true, now)
    }
}

} // verus!
