//! The serial console: single keys for transport control and voice.

use vstd::prelude::*;

verus! {

/// Pause before the next look when no key waits.
pub const POLL_IDLE_MS: u64 = 50;

/// Pause before the next look after an error.
pub const POLL_ERR_MS: u64 = 500;

/// What a look at the serial line came to.
#[derive(Debug, Clone, Copy, PartialEq, Eq, Structural)]
pub enum ReadOutcome {
    /// No bytes.
    Empty,
    Byte(u8),
    /// The driver says that it would have to wait.
    WouldBlock,
    Failed,
}

/// What a key stands for.
#[derive(Debug, Clone, Copy, PartialEq, Eq, Structural)]
pub enum Command {
    PlayPause,
    NextTrack,
    PrevTrack,
    StartVoiceRecognition,
    StopVoiceRecognition,
    Unmapped(char),
}

/// What to do next.
#[derive(Debug, Clone, Copy, PartialEq, Eq, Structural)]
pub enum ConsoleStep {
    /// Look again after a pause.
    Sleep { ms: u64 },
    /// Look again at once.
    Skip,
    Run(Command),
}

pub open spec fn command_for(c: char) -> Command {
    if c == 'p' || c == 'P' {
        Command::PlayPause
    } else if c == 'n' || c == 'N' {
        Command::NextTrack
    } else if c == 'b' || c == 'B' {
        Command::PrevTrack
    } else if c == 's' {
        Command::StartVoiceRecognition
    } else if c == 'S' || c == 'e' || c == 'E' {
        Command::StopVoiceRecognition
    } else {
        Command::Unmapped(c)
    }
}

pub struct Console {}

impl Console {
    /// What a key stands for.
    pub fn handle_key(c: char) -> (r: Command)
        ensures
            r == command_for(c),
    {
        match c {
            'p' | 'P' => Command::PlayPause,
            'n' | 'N' => Command::NextTrack,
            'b' | 'B' => Command::PrevTrack,
            's' => Command::StartVoiceRecognition,
            'S' | 'e' | 'E' => Command::StopVoiceRecognition,
            _ => Command::Unmapped(c),
        }
    }

    /// What follows a look at the serial line. Line ends are no keys.
    pub fn on_read(outcome: ReadOutcome) -> (r: ConsoleStep)
        ensures
            r == (match outcome {
                ReadOutcome::Empty => ConsoleStep::Sleep { ms: POLL_IDLE_MS },
                ReadOutcome::WouldBlock => ConsoleStep::Sleep { ms: POLL_IDLE_MS },
                ReadOutcome::Failed => ConsoleStep::Sleep { ms: POLL_ERR_MS },
                ReadOutcome::Byte(byte) => if byte == 10 || byte == 13 {
                    ConsoleStep::Skip
                } else {
                    ConsoleStep::Run(command_for(byte as char))
                },
            }),
    {
        match outcome {
            ReadOutcome::Empty => ConsoleStep::Sleep { ms: POLL_IDLE_MS },
            ReadOutcome::WouldBlock => ConsoleStep::Sleep { ms: POLL_IDLE_MS },
            ReadOutcome::Failed => ConsoleStep::Sleep { ms: POLL_ERR_MS },
            ReadOutcome::Byte(byte) => {
                if byte == 10 || byte == 13 {
                    ConsoleStep::Skip
                } else {
                    ConsoleStep::Run(Console::handle_key(byte as char))
                }
            },
        }
    }
}

/// Each key has its own command, in either case, except that voice recognition
/// starts with the small letter and stops with the large one. Any other key is
/// reported as it is.
pub proof fn law_keys_have_their_commands(c: char)
    ensures
        command_for(c) is PlayPause <==> c == 'p' || c == 'P',
        command_for(c) is NextTrack <==> c == 'n' || c == 'N',
        command_for(c) is PrevTrack <==> c == 'b' || c == 'B',
        command_for(c) is StartVoiceRecognition <==> c == 's',
        command_for(c) is StopVoiceRecognition <==> c == 'S' || c == 'e' || c == 'E',
        command_for(c) matches Command::Unmapped(k) ==> k == c,
{
}

/// The line is looked at again after 50 ms without a key and 500 ms after an
/// error.
pub proof fn law_poll_times()
    ensures
        POLL_IDLE_MS == 50,
        POLL_ERR_MS == 500,
{
}

} // verus!
