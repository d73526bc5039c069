use vstd::prelude::*;
use crate::trigger_action::TriggerAction;
use crate::button_handler::{ButtonHandler, classify, gesture_action};

verus! {

/// A task that re-emits a step action while the button is held.
#[derive(Debug, Clone, Copy, PartialEq, Eq, Structural)]
pub struct RepeatTask {
    pub id: u64,
    pub action: TriggerAction,
}

/// What one dispatch cycle asks of the runtime: the action to send now, the
/// repeat task to abort, and the repeat task to start.
#[derive(Debug, Clone, Copy, PartialEq, Eq, Structural)]
pub struct Dispatch {
    pub emit: Option<TriggerAction>,
    pub cancel: Option<u64>,
    pub start: Option<RepeatTask>,
}

/// The trigger dispatcher: it owns the handle of the one repeat task that
/// may be running.
#[derive(Debug, Clone, Copy, PartialEq, Eq, Structural)]
pub struct TriggerDispatcher {
    pub repeat: Option<RepeatTask>,
    pub next_id: u64,
}

/// The ids of the repeat tasks that the dispatcher holds a handle to.
pub open spec fn handles(d: TriggerDispatcher) -> Set<u64> {
    match d.repeat {
        Some(t) => set![t.id],
        None => Set::empty(),
    }
}

/// The running repeat tasks after the runtime carries out a dispatch.
pub open spec fn alive_after(alive: Set<u64>, out: Dispatch) -> Set<u64> {
    let kept = match out.cancel {
        Some(id) => alive.remove(id),
        None => alive,
    };
    match out.start {
        Some(t) => kept.insert(t.id),
        None => kept,
    }
}

/// The outcome of a dispatch cycle on the sampled window.
pub open spec fn dispatch_outcome(d: TriggerDispatcher, click_count: int, is_down: bool) -> Dispatch {
    let cancel = match d.repeat {
        Some(t) => Some(t.id),
        None => None,
    };
    match gesture_action(click_count, is_down) {
        Some(a) => if a.spec_is_step() {
            Dispatch { emit: Some(a), cancel, start: Some(RepeatTask { id: d.next_id, action: a }) }
        } else {
            Dispatch { emit: Some(a), cancel, start: None }
        },
        None => Dispatch {
            emit: if d.repeat is Some { Some(TriggerAction::StopOngoing) } else { None },
            cancel,
            start: None,
        },
    }
}

/// The next task id, wrapping at the top.
pub open spec fn successor(id: u64) -> u64 {
    if id == u64::MAX {
        0
    } else {
        (id + 1) as u64
    }
}

/// The dispatcher after a dispatch cycle.
pub open spec fn dispatcher_after(d: TriggerDispatcher, click_count: int, is_down: bool) -> TriggerDispatcher {
    TriggerDispatcher {
        repeat: dispatch_outcome(d, click_count, is_down).start,
        next_id: if dispatch_outcome(d, click_count, is_down).start is Some {
            successor(d.next_id)
        } else {
            d.next_id
        },
    }
}

/// The dispatcher and the running repeat tasks after a run of dispatch
/// cycles, each given by its sampled `(click_count, is_down)`.
pub open spec fn run_cycles(d: TriggerDispatcher, alive: Set<u64>, cycles: Seq<(u32, bool)>) -> (TriggerDispatcher, Set<u64>)
    decreases cycles.len(),
{
    if cycles.len() == 0 {
        (d, alive)
    } else {
        let (d1, a1) = run_cycles(d, alive, cycles.drop_last());
        let c = cycles.last();
        (dispatcher_after(d1, c.0 as int, c.1), alive_after(a1, dispatch_outcome(d1, c.0 as int, c.1)))
    }
}

proof fn lemma_cycle_keeps_handles(d: TriggerDispatcher, alive: Set<u64>, click_count: int, is_down: bool)
    requires
        d.wf(),
        alive == handles(d),
    ensures
        dispatcher_after(d, click_count, is_down).wf(),
        alive_after(alive, dispatch_outcome(d, click_count, is_down)) == handles(dispatcher_after(d, click_count, is_down)),
{
    let out = dispatch_outcome(d, click_count, is_down);
    let d2 = dispatcher_after(d, click_count, is_down);
    let kept = match out.cancel {
        Some(id) => alive.remove(id),
        None => alive,
    };
    assert(kept =~= Set::<u64>::empty());
    assert(alive_after(alive, out) =~= handles(d2));
}

/// Repeat-task uniqueness: whatever run of dispatch cycles happens, the
/// running repeat tasks are exactly the one the dispatcher holds a handle to,
/// so at most one is alive; after a cycle that classifies a hold, exactly
/// one is alive, and after any other cycle none is.
pub proof fn lemma_repeat_task_unique(d: TriggerDispatcher, alive: Set<u64>, cycles: Seq<(u32, bool)>)
    requires
        d.wf(),
        alive == handles(d),
    ensures
        run_cycles(d, alive, cycles).0.wf(),
        run_cycles(d, alive, cycles).1 == handles(run_cycles(d, alive, cycles).0),
        run_cycles(d, alive, cycles).1.len() <= 1,
        cycles.len() > 0 ==> (run_cycles(d, alive, cycles).1.len() == 1 <==> (match gesture_action(
            cycles.last().0 as int,
            cycles.last().1,
        ) {
            Some(a) => a.spec_is_step(),
            None => false,
        })),
    decreases cycles.len(),
{
    if cycles.len() > 0 {
        lemma_repeat_task_unique(d, alive, cycles.drop_last());
        let (d1, a1) = run_cycles(d, alive, cycles.drop_last());
        let c = cycles.last();
        lemma_cycle_keeps_handles(d1, a1, c.0 as int, c.1);
    }
    let r = run_cycles(d, alive, cycles);
    match r.0.repeat {
        Some(t) => assert(handles(r.0).len() == 1),
        None => assert(handles(r.0).len() == 0),
    }
}

impl TriggerDispatcher {
    pub open spec fn wf(self) -> bool {
        match self.repeat {
            Some(t) => t.id != self.next_id && t.action.spec_is_step(),
            None => true,
        }
    }

    pub fn new() -> (r: Self)
        ensures
            r.repeat is None,
            r.wf(),
    {
        TriggerDispatcher { repeat: None, next_id: 0 }
    }

    /// Runs one cycle when the debouncer releases a window: samples and resets
    /// the accumulator, classifies the sample, always cancels the running
    /// repeat task, and starts a new one for a step action.
    pub fn dispatch(&mut self, gesture: &mut ButtonHandler) -> (out: Dispatch)
        requires
            old(self).wf(),
        ensures
            final(self).wf(),
            final(gesture).click_count == 0,
            !final(gesture).is_down,
            out == dispatch_outcome(*old(self), old(gesture).click_count as int, old(gesture).is_down),
            *final(self) == dispatcher_after(*old(self), old(gesture).click_count as int, old(gesture).is_down),
    {
        let (click_count, is_down) = gesture.take();
        let action = classify(click_count, is_down);
        let cancel = match self.repeat {
            Some(t) => Some(t.id),
            None => None,
        };
        let had_repeat = self.repeat.is_some();
        match action {
            Some(a) => {
                if a.is_step() {
                    let task = RepeatTask { id: self.next_id, action: a };
                    self.repeat = Some(task);
                    self.next_id = if self.next_id == u64::MAX {
                        0
                    } else {
                        self.next_id + 1
                    };
                    Dispatch { emit: Some(a), cancel, start: Some(task) }
                } else {
                    self.repeat = None;
                    Dispatch { emit: Some(a), cancel, start: None }
                }
            },
            None => {
                self.repeat = None;
                let emit = if had_repeat {
                    Some(TriggerAction::StopOngoing)
                } else {
                    None
                };
                Dispatch { emit, cancel, start: None }
            },
        }
    }

    /// A tick of repeat task `id`: the action to re-emit, or `None` when the
    /// task has been superseded.
    pub fn repeat_tick(&self, id: u64) -> (r: Option<TriggerAction>)
        ensures
            r == (match self.repeat {
                Some(t) => if t.id == id { Some(t.action) } else { None },
                None => None,
            }),
    {
        match self.repeat {
            Some(t) => if t.id == id {
                Some(t.action)
            } else {
                None
            },
            None => None,
        }
    }
}

} // verus!
