//! The report decoder: from one input report of the device to a command.

use vstd::prelude::*;

verus! {

/// The length of one input report, in bytes.
pub const REPORT_LEN: usize = 16;

/// What the user did on the device, as one report tells it.
#[derive(Clone, Copy, Debug, PartialEq, Eq, Structural)]
pub enum Command {
    /// The volume control was turned up by one notch.
    VolumeUp,
    /// The volume control was turned down by one notch.
    VolumeDown,
    /// The equalizer was set to a level. Decoded, and acted on by nobody.
    EqualizerSet(u8),
    /// Anything else the device says: heartbeats, other buttons.
    NoOp,
}

/// A report that no command could be read from, kept for diagnostics.
///
/// The decoder is permissive and never gives this error: a report that it
/// does not recognise is a `NoOp`.
#[derive(Clone, Copy, Debug, PartialEq, Eq)]
pub struct DecodeError {
    pub report: [u8; REPORT_LEN],
}

/// The command that a report stands for. The first pattern that fits decides:
///
/// | bytes                | command           |
/// |----------------------|-------------------|
/// | `1, 233, ..`         | `VolumeUp`        |
/// | `1, 234, ..`         | `VolumeDown`      |
/// | `5, 15, _, v, ..`    | `EqualizerSet(v)` |
/// | anything else        | `NoOp`            |
pub open spec fn decode_report(report: Seq<u8>) -> Command
    recommends
        report.len() == REPORT_LEN,
{
    if report[0] == 1 && report[1] == 233 {
        Command::VolumeUp
    } else if report[0] == 1 && report[1] == 234 {
        Command::VolumeDown
    } else if report[0] == 5 && report[1] == 15 {
        Command::EqualizerSet(report[3])
    } else {
        Command::NoOp
    }
}

impl Command {
    /// Whether the command asks for a change of the volume.
    pub open spec fn adjusts_volume(self) -> bool {
        self is VolumeUp || self is VolumeDown
    }

    /// Decodes one report. Every report has a command: what is not
    /// recognised is a `NoOp`.
    pub fn decode(report: &[u8; REPORT_LEN]) -> (command: Command)
        ensures
            command == decode_report(report@),
            command is VolumeUp <==> report@[0] == 1 && report@[1] == 233,
            command is VolumeDown <==> report@[0] == 1 && report@[1] == 234,
            command is EqualizerSet <==> report@[0] == 5 && report@[1] == 15,
            command matches Command::EqualizerSet(level) ==> level == report@[3],
    {
        if report[0] == 1 && report[1] == 233 {
            Command::VolumeUp
        } else if report[0] == 1 && report[1] == 234 {
            Command::VolumeDown
        } else if report[0] == 5 && report[1] == 15 {
            Command::EqualizerSet(report[3])
        } else {
            Command::NoOp
        }
    }
}

/// The decoder looks at the first, the second and the fourth byte of a report
/// and at nothing else.
pub proof fn lemma_decode_reads_three_bytes(first: Seq<u8>, second: Seq<u8>)
    requires
        first.len() == REPORT_LEN,
        second.len() == REPORT_LEN,
        first[0] == second[0],
        first[1] == second[1],
        first[3] == second[3],
    ensures
        decode_report(first) == decode_report(second),
{
}

impl<'a> TryFrom<&'a [u8; REPORT_LEN]> for Command {
    type Error = DecodeError;

    /// Decodes one report, and never fails.
    fn try_from(report: &'a [u8; REPORT_LEN]) -> (result: Result<Command, DecodeError>)
        ensures
            result == Ok::<Command, DecodeError>(decode_report(report@)),
    {
        Ok(Command::decode(report))
    }
}

impl<'a> vstd::std_specs::convert::TryFromSpecImpl<&'a [u8; REPORT_LEN]> for Command {
    open spec fn obeys_try_from_spec() -> bool {
        true
    }

    open spec fn try_from_spec(report: &'a [u8; REPORT_LEN]) -> Result<Command, DecodeError> {
        Ok(decode_report(report@))
    }
}

} // verus!
