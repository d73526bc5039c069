use vstd::prelude::*;
use vstd::string::StringExecFns;
use crate::trigger_action::TriggerAction;
use crate::media_source::{MediaSourceChapter, MediaSourceItem};
use crate::chapters::{covers, current_chapter, current_index, first_after, first_covering, next_chapter, next_index, previous_chapter, previous_index};

verus! {

/// A request to the player. Times are milliseconds.
#[derive(Debug)]
pub enum PlayerCommand {
    Update(String),
    PlayTest,
    PlayMedia(String),
    Pause,
    Stop,
    Play,
    Next,
    Previous,
    SeekRelative(i64),
    SeekTo(u64),
}

/// What the player reports to its observers. Times are milliseconds.
#[derive(Debug)]
pub enum PlayerEvent {
    Status(String, String),
    Position(String, u64),
    Stopped,
    ExternalTrigger(TriggerAction),
}

/// A snapshot of the audio sink, read just before a command is handled.
#[derive(Debug, Clone, Copy, PartialEq, Eq, Structural)]
pub struct SinkStatus {
    pub position: u64,
    pub paused: bool,
}

/// What the runtime does to the audio sink for a command.
#[derive(Debug)]
pub enum SinkAction {
    Nothing,
    Play,
    Pause,
    /// Resolve the id, open its stream, and on success call `loaded`.
    Load(String),
    SeekTo(u64),
    SkipTrack,
    PlayTest,
    /// End the command loop.
    Stop,
}

/// What the runtime reports after carrying out the sink action.
#[derive(Debug, Clone, Copy, PartialEq, Eq, Structural)]
pub enum Report {
    Nothing,
    /// Send the play status of the current item, as `status_event` gives it.
    Status,
    /// Send this position of the current item.
    Position(u64),
    Stopped,
}

#[derive(Debug)]
pub struct TransportStep {
    pub action: SinkAction,
    pub report: Report,
}

/// The player transport: the current item, whether a sink is bound yet,
/// whether the loop was stopped, and the re-entry delay of `Previous`.
#[derive(Debug)]
pub struct PlayerTransport {
    pub item: Option<MediaSourceItem>,
    pub bound: bool,
    pub stopped: bool,
    pub back_delay: u64,
}

/// A position clamped into the range of the sink's clock.
pub open spec fn clamp_position(t: int) -> u64 {
    if t < 0 {
        0
    } else if t > u64::MAX {
        u64::MAX
    } else {
        t as u64
    }
}

/// Where `Next` goes: the start of the first chapter after `pos`, or the next
/// queued track when no chapter follows.
pub open spec fn next_target(cs: Seq<MediaSourceChapter>, pos: u64) -> Option<u64> {
    match next_index(cs, pos) {
        Some(i) => Some(cs[i as int].start),
        None => None,
    }
}

/// Where `Previous` goes: the start of the current chapter when more than
/// `delay` of it has played; else the start of the chapter before; else 0.
pub open spec fn previous_target(cs: Seq<MediaSourceChapter>, pos: u64, delay: u64) -> u64 {
    match current_index(cs, pos) {
        Some(i) if pos - cs[i as int].start > delay => cs[i as int].start,
        _ => match previous_index(cs, pos) {
            Some(j) => cs[j as int].start,
            None => 0,
        },
    }
}

/// Chapter navigation round trip, on chapters starting at 0 s, 10 s and
/// 18 s and lasting 10 s, 8 s and 5 s, from 12 s: `Previous` goes back to the
/// start of the current chapter (10 s) when the re-entry delay is under the
/// 2 s played of it; `Previous` again, from 10 s, goes to 0 s; `Next` from
/// 12 s goes to 18 s.
pub proof fn lemma_chapter_round_trip(cs: Seq<MediaSourceChapter>, delay: u64)
    requires
        cs.len() == 3,
        cs[0].start == 0 && cs[0].duration == 10_000,
        cs[1].start == 10_000 && cs[1].duration == 8_000,
        cs[2].start == 18_000 && cs[2].duration == 5_000,
        delay < 2_000,
    ensures
        previous_target(cs, 12_000, delay) == 10_000,
        previous_target(cs, 10_000, delay) == 0,
        next_target(cs, 12_000) == Some(18_000u64),
{
    assert(!covers(cs[0], 12_000));
    assert(covers(cs[1], 12_000));
    assert(first_covering(cs, 12_000, 1) == 1);
    assert(first_covering(cs, 12_000, 0) == 1);
    assert(covers(cs[0], 10_000));
    assert(first_covering(cs, 10_000, 0) == 0);
    assert(first_after(cs, 12_000, 2) == 2);
    assert(first_after(cs, 12_000, 1) == 2);
    assert(first_after(cs, 12_000, 0) == 2);
}

/// The target of `Next` on an ordered chapter list.
pub fn next_step(chapters: &Vec<MediaSourceChapter>, pos: u64) -> (r: Option<u64>)
    ensures
        r == next_target(chapters@, pos),
{
    match next_chapter(chapters, pos) {
        Some(i) => Some(chapters[i].start),
        None => None,
    }
}

/// The target of `Previous` on an ordered chapter list.
pub fn previous_step(chapters: &Vec<MediaSourceChapter>, pos: u64, back_delay: u64) -> (r: u64)
    ensures
        r == previous_target(chapters@, pos, back_delay),
{
    match current_chapter(chapters, pos) {
        Some(i) => {
            if pos - chapters[i].start > back_delay {
                return chapters[i].start;
            }
        },
        None => {},
    }
    match previous_chapter(chapters, pos) {
        Some(j) => chapters[j].start,
        None => 0,
    }
}

/// The target of a relative seek: never before 0.
pub fn seek_relative_target(pos: u64, delta: i64) -> (r: u64)
    ensures
        r == clamp_position(pos + delta),
{
    let t: i128 = pos as i128 + delta as i128;
    if t < 0 {
        0
    } else if t > u64::MAX as i128 {
        u64::MAX
    } else {
        t as u64
    }
}

} // verus!

verus! {

/// The chapters of the current item; none without an item.
pub open spec fn transport_chapters(t: PlayerTransport) -> Seq<MediaSourceChapter> {
    match t.item {
        Some(i) => i.metadata.chapters@,
        None => Seq::empty(),
    }
}

/// Whether the item with this id is the one loaded.
pub open spec fn is_current(t: PlayerTransport, id: Seq<char>) -> bool {
    t.item matches Some(i) && i.id@ == id
}

/// A position report, which only an item can have.
pub open spec fn position_report(t: PlayerTransport, pos: u64) -> Report {
    if t.item is Some {
        Report::Position(pos)
    } else {
        Report::Nothing
    }
}

pub open spec fn step(action: SinkAction, report: Report) -> TransportStep {
    TransportStep { action, report }
}

/// Toggling: resume when paused, pause when playing.
pub open spec fn toggle_action(st: SinkStatus) -> SinkAction {
    if st.paused {
        SinkAction::Play
    } else {
        SinkAction::Pause
    }
}

/// Playing an id: the loaded item toggles, another is loaded.
pub open spec fn play_media_step(t: PlayerTransport, id: String, st: SinkStatus) -> TransportStep {
    if is_current(t, id@) {
        step(toggle_action(st), Report::Status)
    } else {
        step(SinkAction::Load(id), Report::Nothing)
    }
}

/// What the transport does for a command. A stopped transport does nothing;
/// `Stop` ends the loop; other commands are no-ops until a sink is bound.
pub open spec fn command_step(t: PlayerTransport, cmd: PlayerCommand, st: SinkStatus) -> TransportStep {
    if t.stopped {
        step(SinkAction::Nothing, Report::Nothing)
    } else if cmd is Stop {
        step(SinkAction::Stop, Report::Stopped)
    } else if !t.bound {
        step(SinkAction::Nothing, Report::Nothing)
    } else {
        match cmd {
            PlayerCommand::Update(id) => play_media_step(t, id, st),
            PlayerCommand::PlayMedia(id) => play_media_step(t, id, st),
            PlayerCommand::PlayTest => step(SinkAction::PlayTest, Report::Nothing),
            PlayerCommand::Play => step(SinkAction::Play, Report::Status),
            PlayerCommand::Pause => step(SinkAction::Pause, Report::Status),
            PlayerCommand::Next => match next_target(transport_chapters(t), st.position) {
                Some(p) => step(SinkAction::SeekTo(p), position_report(t, p)),
                None => step(SinkAction::SkipTrack, Report::Nothing),
            },
            PlayerCommand::Previous => {
                let p = previous_target(transport_chapters(t), st.position, t.back_delay);
                step(SinkAction::SeekTo(p), position_report(t, p))
            },
            PlayerCommand::SeekRelative(d) => step(
                SinkAction::SeekTo(clamp_position(st.position + d)),
                Report::Nothing,
            ),
            PlayerCommand::SeekTo(p) => step(SinkAction::SeekTo(p), Report::Nothing),
            PlayerCommand::Stop => step(SinkAction::Stop, Report::Stopped),
        }
    }
}

impl PlayerTransport {
    /// A transport with no sink bound yet and no item.
    pub fn new(back_delay: u64) -> (r: Self)
        ensures
            r.item is None,
            !r.bound,
            !r.stopped,
            r.back_delay == back_delay,
    {
        PlayerTransport { item: None, bound: false, stopped: false, back_delay }
    }

    /// Records that the audio sink has been bound.
    pub fn bind(&mut self)
        ensures
            final(self).bound,
            final(self).item == old(self).item,
            final(self).stopped == old(self).stopped,
            final(self).back_delay == old(self).back_delay,
    {
        self.bound = true;
    }

    /// Records a successful load: the item becomes the current one.
    pub fn loaded(&mut self, item: MediaSourceItem)
        ensures
            final(self).item == Some(item),
            final(self).bound == old(self).bound,
            final(self).stopped == old(self).stopped,
            final(self).back_delay == old(self).back_delay,
    {
        self.item = Some(item);
    }

    /// Decides what a command does, given the sink's state.
    pub fn on_command(&mut self, cmd: PlayerCommand, status: SinkStatus) -> (r: TransportStep)
        ensures
            r == command_step(*old(self), cmd, status),
            final(self).stopped == (old(self).stopped || cmd is Stop),
            final(self).item == (if !old(self).stopped && old(self).bound && cmd is PlayTest {
                None
            } else {
                old(self).item
            }),
            final(self).bound == old(self).bound,
            final(self).back_delay == old(self).back_delay,
    {
        if self.stopped {
            return TransportStep { action: SinkAction::Nothing, report: Report::Nothing };
        }
        if let PlayerCommand::Stop = cmd {
            self.stopped = true;
            return TransportStep { action: SinkAction::Stop, report: Report::Stopped };
        }
        if !self.bound {
            return TransportStep { action: SinkAction::Nothing, report: Report::Nothing };
        }
        match cmd {
            PlayerCommand::Update(id) => self.play_media(id, status),
            PlayerCommand::PlayMedia(id) => self.play_media(id, status),
            PlayerCommand::PlayTest => {
                self.item = None;
                TransportStep { action: SinkAction::PlayTest, report: Report::Nothing }
            },
            PlayerCommand::Play => TransportStep { action: SinkAction::Play, report: Report::Status },
            PlayerCommand::Pause => TransportStep { action: SinkAction::Pause, report: Report::Status },
            PlayerCommand::Next => {
                let target = match &self.item {
                    Some(i) => next_step(&i.metadata.chapters, status.position),
                    None => None,
                };
                match target {
                    Some(p) => TransportStep { action: SinkAction::SeekTo(p), report: self.position_report(p) },
                    None => TransportStep { action: SinkAction::SkipTrack, report: Report::Nothing },
                }
            },
            PlayerCommand::Previous => {
                let p = match &self.item {
                    Some(i) => previous_step(&i.metadata.chapters, status.position, self.back_delay),
                    None => 0,
                };
                TransportStep { action: SinkAction::SeekTo(p), report: self.position_report(p) }
            },
            PlayerCommand::SeekRelative(d) => TransportStep {
                action: SinkAction::SeekTo(seek_relative_target(status.position, d)),
                report: Report::Nothing,
            },
            PlayerCommand::SeekTo(p) => TransportStep { action: SinkAction::SeekTo(p), report: Report::Nothing },
            PlayerCommand::Stop => TransportStep { action: SinkAction::Stop, report: Report::Stopped },
        }
    }

    fn play_media(&self, id: String, status: SinkStatus) -> (r: TransportStep)
        ensures
            r == play_media_step(*self, id, status),
    {
        let same = match &self.item {
            Some(i) => i.id == id,
            None => false,
        };
        if same {
            let action = if status.paused {
                SinkAction::Play
            } else {
                SinkAction::Pause
            };
            TransportStep { action, report: Report::Status }
        } else {
            TransportStep { action: SinkAction::Load(id), report: Report::Nothing }
        }
    }

    fn position_report(&self, pos: u64) -> (r: Report)
        ensures
            r == position_report(*self, pos),
    {
        if self.item.is_some() {
            Report::Position(pos)
        } else {
            Report::Nothing
        }
    }

    /// The play status of the current item, for observers.
    pub fn status_event(&self, paused: bool) -> (r: Option<PlayerEvent>)
        ensures
            match self.item {
                Some(i) => r matches Some(PlayerEvent::Status(id, s)) && id@ == i.id@
                    && s@ == (if paused { "paused"@ } else { "playing"@ }),
                None => r is None,
            },
    {
        match &self.item {
            Some(i) => {
                let s = if paused {
                    <String as StringExecFns>::from_str("paused")
                } else {
                    <String as StringExecFns>::from_str("playing")
                };
                Some(PlayerEvent::Status(i.id.clone(), s))
            },
            None => None,
        }
    }

    /// The position of the current item, for observers.
    pub fn position_event(&self, pos: u64) -> (r: Option<PlayerEvent>)
        ensures
            match self.item {
                Some(i) => r matches Some(PlayerEvent::Position(id, p)) && id@ == i.id@ && p == pos,
                None => r is None,
            },
    {
        match &self.item {
            Some(i) => Some(PlayerEvent::Position(i.id.clone(), pos)),
            None => None,
        }
    }
}

} // verus!
