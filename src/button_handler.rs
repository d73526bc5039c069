use vstd::prelude::*;
use crate::trigger_action::TriggerAction;

verus! {

/// A raw key event: press (value 1) or release (value 0).
#[derive(Debug, Clone, Copy, PartialEq, Eq, Structural)]
pub enum ButtonAction {
    Press,
    Release,
}

/// The logical keys of a headset remote.
#[derive(Debug, Clone, Copy, PartialEq, Eq, Structural)]
pub enum ButtonKey {
    PlayPause,
    VolumeUp,
    VolumeDown,
}

/// The gesture accumulator: clicks completed in the current window and
/// whether the button is held right now.
#[derive(Debug, Clone, Copy, PartialEq, Eq, Structural)]
pub struct ButtonHandler {
    pub click_count: u32,
    pub is_down: bool,
}

/// The click count after one more completed click (saturating at the top).
pub open spec fn next_count(c: u32) -> u32 {
    if c < u32::MAX {
        (c + 1) as u32
    } else {
        c
    }
}

/// The accumulator after one raw event.
pub open spec fn after_event(h: ButtonHandler, action: ButtonAction) -> ButtonHandler {
    match action {
        ButtonAction::Press => ButtonHandler { click_count: h.click_count, is_down: true },
        ButtonAction::Release => if h.is_down {
            ButtonHandler { click_count: next_count(h.click_count), is_down: false }
        } else {
            h
        },
    }
}

/// The gesture table: what a window's `(click_count, is_down)` means.
pub open spec fn gesture_action(click_count: int, is_down: bool) -> Option<TriggerAction> {
    if is_down {
        if click_count == 0 {
            Some(TriggerAction::StepBack)
        } else if click_count == 1 {
            Some(TriggerAction::StepForward)
        } else {
            None
        }
    } else if click_count == 1 {
        Some(TriggerAction::Toggle)
    } else if click_count == 2 {
        Some(TriggerAction::Next)
    } else if click_count == 3 {
        Some(TriggerAction::Previous)
    } else {
        None
    }
}

/// Classifies the state sampled when a debounce window closes.
pub fn classify(click_count: u32, is_down: bool) -> (r: Option<TriggerAction>)
    ensures
        r == gesture_action(click_count as int, is_down),
{
    if is_down {
        if click_count == 0 {
            Some(TriggerAction::StepBack)
        } else if click_count == 1 {
            Some(TriggerAction::StepForward)
        } else {
            None
        }
    } else if click_count == 1 {
        Some(TriggerAction::Toggle)
    } else if click_count == 2 {
        Some(TriggerAction::Next)
    } else if click_count == 3 {
        Some(TriggerAction::Previous)
    } else {
        None
    }
}

/// Click counting: a press followed by a release completes exactly one
/// click and leaves the button up; a press with no release leaves the count
/// as it was and the button held. From a fresh window the first reads as a
/// toggle, the second as a hold.
pub proof fn lemma_click_counting(h: ButtonHandler)
    requires
        h.click_count < u32::MAX,
    ensures
        after_event(after_event(h, ButtonAction::Press), ButtonAction::Release).click_count == h.click_count + 1,
        !after_event(after_event(h, ButtonAction::Press), ButtonAction::Release).is_down,
        after_event(h, ButtonAction::Press).click_count == h.click_count,
        after_event(h, ButtonAction::Press).is_down,
        h.click_count == 0 ==> gesture_action(
            after_event(after_event(h, ButtonAction::Press), ButtonAction::Release).click_count as int,
            false,
        ) == Some(TriggerAction::Toggle),
        h.click_count == 0 ==> gesture_action(
            after_event(h, ButtonAction::Press).click_count as int,
            true,
        ) == Some(TriggerAction::StepBack),
{
}

/// The gesture table is total: every sampled window has one defined
/// outcome, and four or more clicks with the button up mean no action, as
/// zero clicks do.
pub proof fn lemma_gesture_table(click_count: int, is_down: bool)
    requires
        click_count >= 0,
    ensures
        gesture_action(0, true) == Some(TriggerAction::StepBack),
        gesture_action(1, true) == Some(TriggerAction::StepForward),
        gesture_action(1, false) == Some(TriggerAction::Toggle),
        gesture_action(2, false) == Some(TriggerAction::Next),
        gesture_action(3, false) == Some(TriggerAction::Previous),
        gesture_action(0, false) is None,
        click_count >= 4 ==> gesture_action(click_count, false) == gesture_action(0, false),
        click_count >= 2 ==> gesture_action(click_count, true) is None,
{
}

impl ButtonHandler {
    pub fn new() -> (r: Self)
        ensures
            r.click_count == 0,
            !r.is_down,
    {
        ButtonHandler { click_count: 0, is_down: false }
    }

    /// Records one raw event. A press marks the button as held; a release
    /// that follows a press completes one click; a release while the button
    /// is not held is ignored.
    pub fn handle_button_event(&mut self, action: ButtonAction)
        ensures
            *final(self) == after_event(*old(self), action),
    {
        match action {
            ButtonAction::Press => {
                self.is_down = true;
            },
            ButtonAction::Release => {
                if self.is_down {
                    self.is_down = false;
                    if self.click_count < u32::MAX {
                        self.click_count = self.click_count + 1;
                    }
                }
            },
        }
    }

    /// Consumes the window: returns the sampled state and resets it.
    pub fn take(&mut self) -> (r: (u32, bool))
        ensures
            r == (old(self).click_count, old(self).is_down),
            final(self).click_count == 0,
            !final(self).is_down,
    {
        let r = (self.click_count, self.is_down);
        self.click_count = 0;
        self.is_down = false;
        r
    }
}

} // verus!
