use button_player::button_handler::{classify, ButtonAction, ButtonHandler};
use button_player::debouncer::{DebounceMode, Debouncer, DebouncerGuard, ReadyStep};
use button_player::dispatcher::TriggerDispatcher;
use button_player::input::{headset_event, is_event_device_name, key_action, HeadsetEvent};
use button_player::button_handler::ButtonKey;
use button_player::trigger_action::TriggerAction;

#[test]
fn press_release_is_one_click() {
    let mut h = ButtonHandler::new();
    h.handle_button_event(ButtonAction::Press);
    assert!(h.is_down);
    assert_eq!(h.click_count, 0);
    h.handle_button_event(ButtonAction::Release);
    assert!(!h.is_down);
    assert_eq!(h.click_count, 1);
}

#[test]
fn held_press_is_a_hold_not_a_click() {
    let mut h = ButtonHandler::new();
    h.handle_button_event(ButtonAction::Press);
    assert_eq!(classify(h.click_count, h.is_down), Some(TriggerAction::StepBack));
}

#[test]
fn duplicate_release_is_ignored() {
    let mut h = ButtonHandler::new();
    h.handle_button_event(ButtonAction::Press);
    h.handle_button_event(ButtonAction::Release);
    h.handle_button_event(ButtonAction::Release);
    assert_eq!(h.click_count, 1);
    assert!(!h.is_down);
}

#[test]
fn click_count_saturates() {
    let mut h = ButtonHandler { click_count: u32::MAX, is_down: true };
    h.handle_button_event(ButtonAction::Release);
    assert_eq!(h.click_count, u32::MAX);
    assert_eq!(classify(h.click_count, h.is_down), None);
}

#[test]
fn gesture_table() {
    assert_eq!(classify(0, true), Some(TriggerAction::StepBack));
    assert_eq!(classify(1, true), Some(TriggerAction::StepForward));
    assert_eq!(classify(2, true), None);
    assert_eq!(classify(1, false), Some(TriggerAction::Toggle));
    assert_eq!(classify(2, false), Some(TriggerAction::Next));
    assert_eq!(classify(3, false), Some(TriggerAction::Previous));
    assert_eq!(classify(0, false), None);
    assert_eq!(classify(4, false), None);
    assert_eq!(classify(17, false), None);
}

#[test]
fn take_resets_window() {
    let mut h = ButtonHandler { click_count: 3, is_down: true };
    assert_eq!(h.take(), (3, true));
    assert_eq!(h, ButtonHandler::new());
}

#[test]
fn trailing_debouncer_coalesces_burst() {
    let mut d = Debouncer::new(250, DebounceMode::Trailing, 0);
    assert_eq!(d.poll(10), ReadyStep::WaitForTrigger);
    assert!(d.trigger(100));
    assert!(!d.trigger(200));
    assert!(!d.trigger(300));
    assert!(d.is_triggered());
    assert_eq!(d.poll(320), ReadyStep::SleepUntil(550));
    assert_eq!(d.poll(549), ReadyStep::SleepUntil(550));
    assert_eq!(d.poll(550), ReadyStep::Ready);
    let mut g = DebouncerGuard::new();
    assert!(g.finish(&mut d, 551));
    assert!(!d.is_triggered());
    assert_eq!(d.poll(10_000), ReadyStep::WaitForTrigger);
    assert!(!g.finish(&mut d, 600));
    assert_eq!(d.state.last_run, 551);
}

#[test]
fn leading_debouncer_fires_at_once_then_waits() {
    let mut d = Debouncer::new(500, DebounceMode::Leading, 0);
    assert!(!d.state.has_run);
    d.trigger(1000);
    assert_eq!(d.poll(1000), ReadyStep::Ready);
    assert!(d.finalize(false, 1000));
    d.trigger(1200);
    assert_eq!(d.state.last_run, 1000);
    assert_eq!(d.poll(1200), ReadyStep::SleepUntil(1500));
    assert_eq!(d.poll(1500), ReadyStep::Ready);
}

#[test]
fn finalize_pending_keeps_signal() {
    let mut d = Debouncer::new(100, DebounceMode::Trailing, 0);
    d.trigger(10);
    assert!(d.finalize(true, 200));
    assert!(d.is_triggered());
    assert_eq!(d.poll(250), ReadyStep::SleepUntil(300));
    let mut idle = Debouncer::new(100, DebounceMode::Trailing, 0);
    assert!(!idle.finalize(false, 50));
    assert_eq!(idle.state.last_run, 0);
}

#[test]
fn deadline_past_clock_end_sleeps_to_end() {
    let mut d = Debouncer::new(u64::MAX, DebounceMode::Trailing, 0);
    d.trigger(10);
    assert_eq!(d.poll(u64::MAX), ReadyStep::SleepUntil(u64::MAX));
}

/// Feeds a raw event to the accumulator and the debouncer, as the reader does.
fn feed(h: &mut ButtonHandler, d: &mut Debouncer, action: ButtonAction, now: u64) {
    h.handle_button_event(action);
    d.trigger(now);
}

/// Runs `clicks` press/release pairs 200 ms apart, then silence, and returns
/// what the one released window emits.
fn clicks_then_silence(clicks: u64) -> Option<TriggerAction> {
    let mut h = ButtonHandler::new();
    let mut d = Debouncer::new(250, DebounceMode::Trailing, 0);
    let mut disp = TriggerDispatcher::new();
    let mut t: u64 = 1000;
    for _ in 0..clicks {
        feed(&mut h, &mut d, ButtonAction::Press, t);
        assert_ne!(d.poll(t + 100), ReadyStep::Ready);
        feed(&mut h, &mut d, ButtonAction::Release, t + 150);
        assert_ne!(d.poll(t + 200), ReadyStep::Ready);
        t += 200;
    }
    let last = t - 200 + 150;
    assert_eq!(d.poll(last + 249), ReadyStep::SleepUntil(last + 250));
    assert_eq!(d.poll(last + 250), ReadyStep::Ready);
    let out = disp.dispatch(&mut h);
    d.finalize(false, last + 250);
    assert_eq!(out.cancel, None);
    assert_eq!(out.start, None);
    assert_eq!(h, ButtonHandler::new());
    assert_eq!(d.poll(last + 10_000), ReadyStep::WaitForTrigger);
    out.emit
}

#[test]
fn three_clicks_then_silence_emit_one_previous() {
    assert_eq!(clicks_then_silence(3), Some(TriggerAction::Previous));
}

#[test]
fn two_clicks_then_silence_emit_one_next() {
    assert_eq!(clicks_then_silence(2), Some(TriggerAction::Next));
}

#[test]
fn one_click_then_silence_emits_toggle() {
    assert_eq!(clicks_then_silence(1), Some(TriggerAction::Toggle));
}

#[test]
fn hold_repeats_step_back_until_release() {
    let mut h = ButtonHandler::new();
    let mut d = Debouncer::new(250, DebounceMode::Trailing, 0);
    let mut disp = TriggerDispatcher::new();
    feed(&mut h, &mut d, ButtonAction::Press, 0);
    assert_eq!(d.poll(250), ReadyStep::Ready);
    let out = disp.dispatch(&mut h);
    d.finalize(false, 250);
    assert_eq!(out.emit, Some(TriggerAction::StepBack));
    let task = out.start.expect("a repeat task starts");
    assert_eq!(task.action, TriggerAction::StepBack);
    assert_eq!(disp.repeat_tick(task.id), Some(TriggerAction::StepBack));
    assert_eq!(disp.repeat_tick(task.id), Some(TriggerAction::StepBack));
    feed(&mut h, &mut d, ButtonAction::Release, 2000);
    assert_eq!(d.poll(2100), ReadyStep::SleepUntil(2250));
    assert_eq!(d.poll(2250), ReadyStep::Ready);
    let out = disp.dispatch(&mut h);
    assert_eq!(out.cancel, Some(task.id));
    assert_eq!(out.start, None);
    assert_eq!(out.emit, Some(TriggerAction::StopOngoing));
    assert_eq!(disp.repeat_tick(task.id), None);
    assert_eq!(disp.repeat, None);
}

#[test]
fn second_hold_replaces_first_repeat_task() {
    let mut disp = TriggerDispatcher::new();
    let mut alive: Vec<u64> = Vec::new();
    for cycle in 0..5 {
        let mut h = ButtonHandler { click_count: cycle % 2, is_down: true };
        let out = disp.dispatch(&mut h);
        if let Some(id) = out.cancel {
            alive.retain(|x| *x != id);
        }
        if let Some(task) = out.start {
            alive.push(task.id);
        }
        assert_eq!(alive.len(), 1);
        assert_eq!(disp.repeat.map(|t| t.id), Some(alive[0]));
    }
    assert_eq!(disp.repeat.map(|t| t.action), Some(TriggerAction::StepBack));
}

#[test]
fn click_after_hold_cancels_and_toggles() {
    let mut disp = TriggerDispatcher::new();
    let mut hold = ButtonHandler { click_count: 1, is_down: true };
    let first = disp.dispatch(&mut hold);
    assert_eq!(first.emit, Some(TriggerAction::StepForward));
    let id = first.start.unwrap().id;
    let mut click = ButtonHandler { click_count: 1, is_down: false };
    let out = disp.dispatch(&mut click);
    assert_eq!(out.emit, Some(TriggerAction::Toggle));
    assert_eq!(out.cancel, Some(id));
    assert_eq!(out.start, None);
}

#[test]
fn silent_window_without_repeat_emits_nothing() {
    let mut disp = TriggerDispatcher::new();
    let mut h = ButtonHandler::new();
    let out = disp.dispatch(&mut h);
    assert_eq!(out.emit, None);
    assert_eq!(out.cancel, None);
    let mut many = ButtonHandler { click_count: 4, is_down: false };
    assert_eq!(disp.dispatch(&mut many).emit, None);
    assert_eq!(many, ButtonHandler::new());
}

#[test]
fn task_ids_wrap() {
    let mut disp = TriggerDispatcher { repeat: None, next_id: u64::MAX };
    let mut h = ButtonHandler { click_count: 0, is_down: true };
    let out = disp.dispatch(&mut h);
    assert_eq!(out.start.unwrap().id, u64::MAX);
    assert_eq!(disp.next_id, 0);
}

#[test]
fn key_values() {
    assert_eq!(key_action(1), Some(ButtonAction::Press));
    assert_eq!(key_action(0), Some(ButtonAction::Release));
    assert_eq!(key_action(2), None);
    assert_eq!(headset_event(ButtonKey::VolumeDown), HeadsetEvent::VolumeDown);
    assert!(is_event_device_name("event13"));
    assert!(is_event_device_name("event"));
    assert!(!is_event_device_name("mouse0"));
    assert!(!is_event_device_name("even"));
}

#[test]
fn abandoned_guard_keeps_signal_pending() {
    let mut d = Debouncer::new(100, DebounceMode::Trailing, 0);
    d.trigger(10);
    assert_eq!(d.poll(110), ReadyStep::Ready);
    let mut g = DebouncerGuard::new();
    assert!(g.abandon(&mut d, 120));
    assert!(g.completed);
    assert!(d.is_triggered());
    assert!(d.state.has_run);
    assert_eq!(d.poll(150), ReadyStep::SleepUntil(220));
    assert!(!g.finish(&mut d, 300));
    assert!(d.is_triggered());
}
