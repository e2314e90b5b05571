//! The device loop as a state machine.
//!
//! One session reads reports from the device and, for each press of the volume
//! control, asks the audio sink for its level, computes the next level and
//! pushes it back. Reading the device and talking to the sink are the work of
//! a driver outside this library. The decisions are made here: the driver
//! performs the action that the current state awaits, and hands the outcome
//! back as an event.
//!
//! ```text
//! AwaitingReport --report, volume command--> Dispatching(Level)
//! AwaitingReport --report, anything else--> AwaitingReport
//! AwaitingReport --read failed--> Stopped
//! AwaitingReport --shutdown requested--> Stopped
//! Dispatching(Level) --level fetched--> Dispatching(Apply)
//! Dispatching(Apply) --done, mute flag to change--> Dispatching(Mute)
//! Dispatching(Apply) --done--> AwaitingReport
//! Dispatching(Mute) --done--> AwaitingReport
//! Dispatching(..) --gateway failed--> AwaitingReport, with a warning
//! ```
//!
//! A report is decoded within the transition that receives it. An event that
//! does not answer the awaited action changes nothing. A shutdown is taken
//! between two reports only: a command that is under way is carried out first.

use crate::command::{decode_report, Command, REPORT_LEN};
use crate::volume::VolumeLevel;
use vstd::prelude::*;

verus! {

/// The vendor identifier of the device.
pub const VENDOR_ID: u16 = 0x1532;

/// The product identifier of the device.
pub const PRODUCT_ID: u16 = 0x0517;

/// The percentage points that one press moves the volume by.
pub const VOLUME_STEP: u8 = 5;

/// The way a press moves the volume.
#[derive(Clone, Copy, Debug, PartialEq, Eq, Structural)]
pub enum Direction {
    Up,
    Down,
}

/// What one press asks of the audio sink: the level to apply, and the mute
/// flag to set after it, if the flag has to change.
#[derive(Clone, Copy, Debug, PartialEq, Eq, Structural)]
pub struct Adjustment {
    pub level: VolumeLevel,
    pub mute: Option<bool>,
}

/// The answer of the audio sink that a dispatch waits for.
#[derive(Clone, Copy, Debug, PartialEq, Eq, Structural)]
pub enum Pending {
    /// The current level of the sink, for a press in the given direction.
    Level(Direction),
    /// The outcome of applying the level of the adjustment.
    Apply(Adjustment),
    /// The outcome of setting the mute flag.
    Mute(bool),
}

/// The state of a session.
#[derive(Clone, Copy, Debug, PartialEq, Eq, Structural)]
pub enum LoopState {
    /// Blocked on the device until the next report arrives.
    AwaitingReport,
    /// Carrying out a volume command on the audio sink.
    Dispatching(Pending),
    /// The device could not be read, or a shutdown was requested. The session
    /// is over.
    Stopped,
}

/// The outcome of the action that the driver performed.
#[derive(Clone, Copy, Debug, PartialEq, Eq)]
pub enum Event {
    /// The device delivered a report.
    ReportRead([u8; REPORT_LEN]),
    /// The device could not be read.
    ReadFailed,
    /// The process was asked to end, and the driver noticed it before a read.
    ShutdownRequested,
    /// The audio sink told its current level.
    LevelFetched(VolumeLevel),
    /// The audio sink applied a level or set its mute flag.
    GatewayDone,
    /// The audio sink could not be reached, or refused.
    GatewayFailed,
}

/// What the driver does next.
#[derive(Clone, Copy, Debug, PartialEq, Eq, Structural)]
pub enum Action {
    /// Block on the device for the next report.
    ReadReport,
    /// Ask the audio sink for its current level.
    FetchLevel,
    /// Push a level to the audio sink.
    Apply(VolumeLevel),
    /// Set or clear the mute flag of the audio sink.
    SetMute(bool),
    /// Release the device and end the session.
    Stop,
}

/// One step of a session: the state after an event, the action that this
/// state awaits, and whether the event is a failure to warn the user of.
#[derive(Clone, Copy, Debug, PartialEq, Eq, Structural)]
pub struct Transition {
    pub next: LoopState,
    pub action: Action,
    pub warning: bool,
}

impl Command {
    /// The way in which a command moves the volume, if it moves it at all.
    pub open spec fn direction(self) -> Option<Direction> {
        match self {
            Command::VolumeUp => Some(Direction::Up),
            Command::VolumeDown => Some(Direction::Down),
            Command::EqualizerSet(_) => None,
            Command::NoOp => None,
        }
    }

    /// The way in which this command moves the volume. The equalizer and
    /// whatever the decoder did not recognise move nothing.
    pub fn to_direction(self) -> (direction: Option<Direction>)
        ensures
            direction == self.direction(),
            direction is Some <==> self.adjusts_volume(),
    {
        match self {
            Command::VolumeUp => Some(Direction::Up),
            Command::VolumeDown => Some(Direction::Down),
            Command::EqualizerSet(_) => None,
            Command::NoOp => None,
        }
    }
}

impl Adjustment {
    /// The change of the mute flag that goes with a change of level: the flag
    /// is set whenever the new level is `Muted`, cleared when the level leaves
    /// `Muted`, and left alone otherwise.
    pub open spec fn mute_change(current: VolumeLevel, next: VolumeLevel) -> Option<bool> {
        if next is Muted {
            Some(true)
        } else if current is Muted {
            Some(false)
        } else {
            None
        }
    }

    /// What a press in the given direction asks of a sink at the given level.
    pub open spec fn planned(direction: Direction, current: VolumeLevel, step: u8) -> Adjustment {
        let next = match direction {
            Direction::Up => current.incremented(step),
            Direction::Down => current.decremented(step),
        };
        Adjustment { level: next, mute: Adjustment::mute_change(current, next) }
    }

    /// Plans one press: the next level by the volume model, and the mute flag
    /// that goes with it.
    pub fn plan(direction: Direction, current: VolumeLevel, step: u8) -> (adjustment: Adjustment)
        requires
            current.wf(),
        ensures
            adjustment == Adjustment::planned(direction, current, step),
            adjustment.level.wf(),
            adjustment.mute == Some(true) <==> adjustment.level is Muted,
            adjustment.mute == Some(false) <==> current is Muted && !(adjustment.level is Muted),
    {
        let next = match direction {
            Direction::Up => current.increment(step),
            Direction::Down => current.decrement(step),
        };
        let mute = if next.is_muted() {
            Some(true)
        } else if current.is_muted() {
            Some(false)
        } else {
            None
        };
        Adjustment { level: next, mute }
    }
}

impl Event {
    /// A level that the sink reports is a valid level.
    pub open spec fn wf(self) -> bool {
        self matches Event::LevelFetched(level) ==> level.wf()
    }

    /// Whether the event ends a session that waits for a report.
    pub open spec fn ends_session(self) -> bool {
        self is ReadFailed || self is ShutdownRequested
    }

    /// Whether this event is a valid one.
    pub fn is_valid(&self) -> (valid: bool)
        ensures
            valid == self.wf(),
    {
        match self {
            Event::LevelFetched(level) => level.is_valid(),
            _ => true,
        }
    }
}

impl LoopState {
    /// A level that waits to be applied is a valid level.
    pub open spec fn wf(self) -> bool {
        self matches LoopState::Dispatching(Pending::Apply(adjustment)) ==> adjustment.level.wf()
    }

    /// The state in which a session starts.
    pub open spec fn initial() -> LoopState {
        LoopState::AwaitingReport
    }

    /// The action that the driver performs in this state.
    pub open spec fn awaited(self) -> Action {
        match self {
            LoopState::AwaitingReport => Action::ReadReport,
            LoopState::Dispatching(Pending::Level(_)) => Action::FetchLevel,
            LoopState::Dispatching(Pending::Apply(adjustment)) => Action::Apply(adjustment.level),
            LoopState::Dispatching(Pending::Mute(mute)) => Action::SetMute(mute),
            LoopState::Stopped => Action::Stop,
        }
    }

    /// The state that follows this one on an event.
    pub open spec fn after(self, event: Event, step: u8) -> LoopState {
        match (self, event) {
            (LoopState::AwaitingReport, Event::ReportRead(report)) => {
                match decode_report(report@).direction() {
                    Some(direction) => LoopState::Dispatching(Pending::Level(direction)),
                    None => LoopState::AwaitingReport,
                }
            },
            (LoopState::AwaitingReport, Event::ReadFailed) => LoopState::Stopped,
            (LoopState::AwaitingReport, Event::ShutdownRequested) => LoopState::Stopped,
            (LoopState::Dispatching(Pending::Level(direction)), Event::LevelFetched(current)) => {
                LoopState::Dispatching(
                    Pending::Apply(Adjustment::planned(direction, current, step)),
                )
            },
            (LoopState::Dispatching(Pending::Apply(adjustment)), Event::GatewayDone) => {
                match adjustment.mute {
                    Some(mute) => LoopState::Dispatching(Pending::Mute(mute)),
                    None => LoopState::AwaitingReport,
                }
            },
            (LoopState::Dispatching(Pending::Mute(_)), Event::GatewayDone) => {
                LoopState::AwaitingReport
            },
            (LoopState::Dispatching(_), Event::GatewayFailed) => LoopState::AwaitingReport,
            _ => self,
        }
    }

    /// The state after a sequence of events, taken in order.
    pub open spec fn after_all(self, events: Seq<Event>, step: u8) -> LoopState
        decreases events.len(),
    {
        if events.len() == 0 {
            self
        } else {
            self.after_all(events.drop_last(), step).after(events.last(), step)
        }
    }

    /// Whether an event in this state is a failure that the user is warned
    /// of: the audio sink failed while a command was carried out.
    pub open spec fn warns(self, event: Event) -> bool {
        self is Dispatching && event is GatewayFailed
    }

    /// The state in which a session starts: waiting for the first report.
    pub fn start() -> (state: LoopState)
        ensures
            state == LoopState::initial(),
            state.wf(),
            state.awaited() == Action::ReadReport,
    {
        LoopState::AwaitingReport
    }

    /// Whether this state is a valid one.
    pub fn is_valid(self) -> (valid: bool)
        ensures
            valid == self.wf(),
    {
        match self {
            LoopState::Dispatching(Pending::Apply(adjustment)) => adjustment.level.is_valid(),
            _ => true,
        }
    }

    /// The action that the driver performs in this state.
    pub fn action(self) -> (action: Action)
        ensures
            action == self.awaited(),
    {
        match self {
            LoopState::AwaitingReport => Action::ReadReport,
            LoopState::Dispatching(Pending::Level(_)) => Action::FetchLevel,
            LoopState::Dispatching(Pending::Apply(adjustment)) => Action::Apply(adjustment.level),
            LoopState::Dispatching(Pending::Mute(mute)) => Action::SetMute(mute),
            LoopState::Stopped => Action::Stop,
        }
    }

    /// Takes the outcome of the awaited action and decides what comes next.
    ///
    /// A report with a volume command starts a dispatch; any other report is
    /// followed by the next read. A failed read ends the session, and so does
    /// a shutdown that is requested between two reports. A failure of the
    /// audio sink abandons the command with a warning, and the session goes on
    /// with the next report.
    pub fn handle(self, event: Event, step: u8) -> (transition: Transition)
        requires
            self.wf(),
            event.wf(),
        ensures
            transition.next == self.after(event, step),
            transition.action == transition.next.awaited(),
            transition.warning == self.warns(event),
            transition.next.wf(),
    {
        let mut warning = false;
        let next = match self {
            LoopState::AwaitingReport => match event {
                Event::ReportRead(report) => match Command::decode(&report).to_direction() {
                    Some(direction) => LoopState::Dispatching(Pending::Level(direction)),
                    None => LoopState::AwaitingReport,
                },
                Event::ReadFailed => LoopState::Stopped,
                Event::ShutdownRequested => LoopState::Stopped,
                _ => self,
            },
            LoopState::Dispatching(pending) => match event {
                Event::GatewayFailed => {
                    warning = true;
                    LoopState::AwaitingReport
                },
                Event::LevelFetched(current) => match pending {
                    Pending::Level(direction) => LoopState::Dispatching(
                        Pending::Apply(Adjustment::plan(direction, current, step)),
                    ),
                    _ => self,
                },
                Event::GatewayDone => match pending {
                    Pending::Apply(Adjustment { level: _, mute: Some(mute) }) => {
                        LoopState::Dispatching(Pending::Mute(mute))
                    },
                    Pending::Apply(Adjustment { level: _, mute: None }) => {
                        LoopState::AwaitingReport
                    },
                    Pending::Mute(_) => LoopState::AwaitingReport,
                    Pending::Level(_) => self,
                },
                _ => self,
            },
            LoopState::Stopped => LoopState::Stopped,
        };
        Transition { next, action: next.action(), warning }
    }
}

/// A session ends in one way only: while it waits for a report, the device
/// fails or a shutdown is requested. Nothing that the audio sink does ends it.
pub proof fn lemma_only_device_or_shutdown_stops(state: LoopState, event: Event, step: u8)
    requires
        !(state is Stopped),
    ensures
        state.after(event, step) is Stopped <==> state is AwaitingReport && event.ends_session(),
{
}

/// A session that is over stays over, and asks for nothing but to stop.
pub proof fn lemma_stopped_is_final(event: Event, step: u8)
    ensures
        LoopState::Stopped.after(event, step) == LoopState::Stopped,
        LoopState::Stopped.awaited() == Action::Stop,
{
}

/// A failure of the audio sink abandons the command that is under way: the
/// user is warned, and the session waits for the next report.
pub proof fn lemma_gateway_failure_resumes(pending: Pending, step: u8)
    ensures
        LoopState::Dispatching(pending).after(Event::GatewayFailed, step)
            == LoopState::AwaitingReport,
        LoopState::Dispatching(pending).warns(Event::GatewayFailed),
{
}

/// A report without a volume command reaches the audio sink in no way: the
/// next action is the next read.
pub proof fn lemma_idle_report_skips_gateway(report: [u8; REPORT_LEN], step: u8)
    requires
        !decode_report(report@).adjusts_volume(),
    ensures
        LoopState::AwaitingReport.after(Event::ReportRead(report), step)
            == LoopState::AwaitingReport,
        LoopState::AwaitingReport.after(Event::ReportRead(report), step).awaited()
            == Action::ReadReport,
{
}

/// Presses are handled strictly one after the other: while a command is under
/// way no report is taken, and no request to shut down.
pub proof fn lemma_dispatch_is_not_interrupted(pending: Pending, event: Event, step: u8)
    requires
        event is ReportRead || event.ends_session(),
    ensures
        LoopState::Dispatching(pending).after(event, step) == LoopState::Dispatching(pending),
{
}

/// The whole exchange that one press causes. After the report the sink is
/// asked for its level. On the answer the level that the volume model gives
/// is applied. Then the mute flag is set if the new level is `Muted`, cleared
/// if the level left `Muted`, and not touched otherwise. After that the
/// session waits for the next report.
pub proof fn lemma_press_exchange(report: [u8; REPORT_LEN], current: VolumeLevel, step: u8)
    requires
        decode_report(report@).adjusts_volume(),
    ensures
        ({
            let next = if decode_report(report@) is VolumeUp {
                current.incremented(step)
            } else {
                current.decremented(step)
            };
            let fetching = LoopState::AwaitingReport.after(Event::ReportRead(report), step);
            let applying = fetching.after(Event::LevelFetched(current), step);
            let applied = applying.after(Event::GatewayDone, step);
            &&& fetching.awaited() == Action::FetchLevel
            &&& applying.awaited() == Action::Apply(next)
            &&& next is Muted ==> applied.awaited() == Action::SetMute(true)
            &&& !(next is Muted) && current is Muted ==> applied.awaited() == Action::SetMute(
                false,
            )
            &&& !(next is Muted) && !(current is Muted) ==> applied == LoopState::AwaitingReport
            &&& applied.after(Event::GatewayDone, step) == LoopState::AwaitingReport
        }),
{
}

/// Whatever the audio sink does and whatever the device sends, a session
/// goes on as long as the device can be read and no shutdown is requested.
pub proof fn lemma_session_goes_on(state: LoopState, events: Seq<Event>, step: u8)
    requires
        !(state is Stopped),
        forall|i: int| 0 <= i < events.len() ==> !(#[trigger] events[i]).ends_session(),
    ensures
        !(state.after_all(events, step) is Stopped),
    decreases events.len(),
{
    if events.len() > 0 {
        let head = events.drop_last();
        assert forall|i: int| 0 <= i < head.len() implies !(#[trigger] head[i]).ends_session() by {
            assert(head[i] == events[i]);
        }
        lemma_session_goes_on(state, head, step);
        lemma_only_device_or_shutdown_stops(state.after_all(head, step), events.last(), step);
    }
}

/// Valid states and valid events lead to valid states: a level that is handed
/// to the audio sink is always `Muted` or a percentage from 1 to 100.
pub proof fn lemma_validity_is_kept(state: LoopState, event: Event, step: u8)
    requires
        state.wf(),
        event.wf(),
    ensures
        state.after(event, step).wf(),
        state.after(event, step).awaited() matches Action::Apply(level) ==> level.wf(),
{
}

} // verus!
