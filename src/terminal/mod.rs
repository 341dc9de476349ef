use vstd::prelude::*;

pub mod cells;
pub mod emulator;
pub mod parser;

verus! {

/// What the main loop does with a descriptor that became ready.
#[derive(Debug, Copy, Clone, PartialEq, Eq)]
pub enum EventResponse {
    /// The shell side hung up: stop watching it and close it, but keep waiting for
    /// the shell to exit.
    CloseShell,
    /// The shell exited: reap it, release everything and return.
    Finish,
    /// Keyboard input: pass the bytes read to the shell unchanged.
    ForwardInput,
    /// Shell output: feed the bytes read to the emulator.
    HandleOutput,
}

/// Descriptors of the main loop.
#[derive(Debug, Copy, Clone, PartialEq, Eq)]
pub struct EventSources {
    pub shell_master: i32,
    pub shell_exit: i32,
    pub input: i32,
}

/// Decides what to do with one ready descriptor. `hang_up_only` says that the
/// readiness reported for it is a hang-up and nothing else.
pub fn respond_to_event(source: i32, hang_up_only: bool, sources: EventSources) -> (r: EventResponse)
    ensures
        r == (if hang_up_only && source == sources.shell_master {
            EventResponse::CloseShell
        } else if source == sources.shell_exit {
            EventResponse::Finish
        } else if source == sources.input {
            EventResponse::ForwardInput
        } else {
            EventResponse::HandleOutput
        }),
{
    if hang_up_only && source == sources.shell_master {
        EventResponse::CloseShell
    } else if source == sources.shell_exit {
        EventResponse::Finish
    } else if source == sources.input {
        EventResponse::ForwardInput
    } else {
        EventResponse::HandleOutput
    }
}

/// Why writing keyboard input to the shell failed.
#[derive(Debug, Copy, Clone, PartialEq, Eq)]
pub enum WriteFailure {
    /// The shell's descriptor is no longer valid: the shell side already hung up.
    BadDescriptor,
    Other,
}

impl WriteFailure {
    /// Whether the failure ends the session; a shell side that already hung up does not.
    pub fn is_fatal(&self) -> (r: bool)
        ensures
            r == !(self == WriteFailure::BadDescriptor),
    {
        match self {
            WriteFailure::BadDescriptor => false,
            WriteFailure::Other => true,
        }
    }
}

} // verus!
