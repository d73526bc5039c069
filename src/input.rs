use vstd::prelude::*;
use vstd::string::StrSliceExecFns;
use crate::button_handler::{ButtonAction, ButtonKey};

verus! {

/// A headset key that was pressed.
#[derive(Debug, Clone, Copy, PartialEq, Eq, Structural)]
pub enum HeadsetEvent {
    PlayPause,
    VolumeUp,
    VolumeDown,
}

/// A raw event of a GPIO button, by line number.
#[derive(Debug, Clone, Copy, PartialEq, Eq, Structural)]
pub enum GpioButtonEvent {
    ButtonPressed(u32),
    ButtonReleased(u32),
}

/// An input device as listed for the user to choose from.
#[derive(Debug, Clone)]
pub struct HeadsetDevice {
    pub path: String,
    pub name: String,
    pub unique_name: String,
}

/// The action of a key event by its value: 1 is a press, 0 a release; any
/// other value (an autorepeat) is no action.
pub open spec fn key_value_action(value: i32) -> Option<ButtonAction> {
    if value == 1 {
        Some(ButtonAction::Press)
    } else if value == 0 {
        Some(ButtonAction::Release)
    } else {
        None
    }
}

pub fn key_action(value: i32) -> (r: Option<ButtonAction>)
    ensures
        r == key_value_action(value),
{
    if value == 1 {
        Some(ButtonAction::Press)
    } else if value == 0 {
        Some(ButtonAction::Release)
    } else {
        None
    }
}

/// The headset event of a key press.
pub fn headset_event(key: ButtonKey) -> (r: HeadsetEvent)
    ensures
        key == ButtonKey::PlayPause ==> r == HeadsetEvent::PlayPause,
        key == ButtonKey::VolumeUp ==> r == HeadsetEvent::VolumeUp,
        key == ButtonKey::VolumeDown ==> r == HeadsetEvent::VolumeDown,
{
    match key {
        ButtonKey::PlayPause => HeadsetEvent::PlayPause,
        ButtonKey::VolumeUp => HeadsetEvent::VolumeUp,
        ButtonKey::VolumeDown => HeadsetEvent::VolumeDown,
    }
}

/// Whether a file under the input directory is an event device: its name
/// starts with `event`.
pub fn is_event_device_name(name: &str) -> (r: bool)
    ensures
        r == (name@.len() >= 5 && name@.subrange(0, 5) == "event"@),
{
    proof {
        reveal_strlit("event");
    }
    let n = name.unicode_len();
    if n < 5 {
        return false;
    }
    let r = name.get_char(0) == 'e' && name.get_char(1) == 'v' && name.get_char(2) == 'e'
        && name.get_char(3) == 'n' && name.get_char(4) == 't';
    proof {
        if r {
            assert(name@.subrange(0, 5) =~= "event"@);
        } else {
            if name@.subrange(0, 5) == "event"@ {
                assert(name@.subrange(0, 5)[0] == 'e');
                assert(name@.subrange(0, 5)[1] == 'v');
                assert(name@.subrange(0, 5)[2] == 'e');
                assert(name@.subrange(0, 5)[3] == 'n');
                assert(name@.subrange(0, 5)[4] == 't');
            }
        }
    }
    r
}

} // verus!
