//! The command processor: which session work each control command asks for.
//!
//! The processor owns the session's lifecycle state and decides; its caller
//! performs the actions in order (stopping and joining threads, opening the
//! device, reporting) and tells it whether a session could be opened.

use crate::device::{device_request, resolve_device_request, DeviceRequest};
use vstd::prelude::*;

verus! {

/// One control command, as decoded from a line of control input.
#[derive(Debug)]
pub enum Command {
    Start { device_name: Option<String> },
    Stop,
    ListDevices,
    GetDeviceConfig { device_name: Option<String> },
}

/// Whether a capture session is live.
#[derive(Debug, Clone, Copy, PartialEq, Eq, Structural)]
pub enum SessionState {
    Idle,
    Recording,
}

/// One piece of work for the caller, to be done in the order given.
#[derive(Debug)]
pub enum Action {
    /// Pause the stream, close the capture queue and join the writer, so that
    /// its flush and its drain notice are out before anything else happens.
    TearDown,
    /// Try to open a capture session on the device; report the outcome with
    /// `CommandProcessor::session_opened` or `CommandProcessor::session_failed`.
    OpenSession(DeviceRequest),
    /// Send the list of input device names.
    ReportDevices,
    /// Send the audio configuration of the device.
    ReportConfig(DeviceRequest),
}

/// The state after a command in `state`, and the actions it asks for.
pub open spec fn command_step(state: SessionState, command: Command) -> (SessionState, Seq<
    Action,
>) {
    match command {
        Command::Start { device_name } => {
            let open = Action::OpenSession(device_request(device_name));
            if state == SessionState::Recording {
                (SessionState::Idle, seq![Action::TearDown, open])
            } else {
                (SessionState::Idle, seq![open])
            }
        },
        Command::Stop => if state == SessionState::Recording {
            (SessionState::Idle, seq![Action::TearDown])
        } else {
            (SessionState::Idle, seq![])
        },
        Command::ListDevices => (state, seq![Action::ReportDevices]),
        Command::GetDeviceConfig { device_name } => (
            state,
            seq![Action::ReportConfig(device_request(device_name))],
        ),
    }
}

/// Owner of the one capture session that may exist at a time.
pub struct CommandProcessor {
    state: SessionState,
}

impl CommandProcessor {
    pub closed spec fn spec_state(&self) -> SessionState {
        self.state
    }

    /// A processor with no session.
    pub fn new() -> (p: Self)
        ensures
            p.spec_state() == SessionState::Idle,
    {
        CommandProcessor { state: SessionState::Idle }
    }

    pub fn state(&self) -> (s: SessionState)
        ensures
            s == self.spec_state(),
    {
        self.state
    }

    /// Decides what `command` asks for. A start always tears down a live
    /// session first, then asks for a new one; a stop tears down a live session
    /// and is a no-op otherwise; the two reports leave the session alone.
    pub fn handle_command(&mut self, command: Command) -> (actions: Vec<Action>)
        ensures
            (final(self).spec_state(), actions@) == command_step(old(self).spec_state(), command),
    {
        let mut actions: Vec<Action> = Vec::new();
        match command {
            Command::Start { device_name } => {
                if self.state == SessionState::Recording {
                    actions.push(Action::TearDown);
                }
                self.state = SessionState::Idle;
                actions.push(Action::OpenSession(resolve_device_request(device_name)));
            },
            Command::Stop => {
                if self.state == SessionState::Recording {
                    actions.push(Action::TearDown);
                }
                self.state = SessionState::Idle;
            },
            Command::ListDevices => {
                actions.push(Action::ReportDevices);
            },
            Command::GetDeviceConfig { device_name } => {
                actions.push(Action::ReportConfig(resolve_device_request(device_name)));
            },
        }
        assert(actions@ =~= command_step(old(self).spec_state(), command).1);
        actions
    }

    /// The session asked for was opened and is recording.
    pub fn session_opened(&mut self)
        ensures
            final(self).spec_state() == SessionState::Recording,
    {
        self.state = SessionState::Recording;
    }

    /// The session asked for could not be opened: nothing is live.
    pub fn session_failed(&mut self)
        ensures
            final(self).spec_state() == SessionState::Idle,
    {
        self.state = SessionState::Idle;
    }
}

/// A stop while idle changes nothing and asks for nothing.
pub proof fn lemma_stop_when_idle_is_noop()
    ensures
        command_step(SessionState::Idle, Command::Stop) == (SessionState::Idle, Seq::<
            Action,
        >::empty()),
{
    assert(command_step(SessionState::Idle, Command::Stop).1 =~= Seq::<Action>::empty());
}

/// A second start, after a first one opened its session, tears that session
/// down completely before it asks for the new one.
pub proof fn lemma_restart_tears_down_first(first: Option<String>, second: Option<String>)
    ensures
        ({
            let (after_first, _) = command_step(
                SessionState::Idle,
                Command::Start { device_name: first },
            );
            let (after_second, actions) = command_step(
                SessionState::Recording,
                Command::Start { device_name: second },
            );
            &&& after_first == SessionState::Idle
            &&& after_second == SessionState::Idle
            &&& actions.len() == 2
            &&& actions[0] is TearDown
            &&& actions[1] == Action::OpenSession(device_request(second))
        }),
{
}

} // verus!
