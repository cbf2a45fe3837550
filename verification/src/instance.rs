//! Keeping to one running instance.
//!
//! The first launch becomes the primary: it binds a well-known local
//! socket and listens there. A later launch finds the socket live, or
//! finds it taken when it tries to bind, becomes a secondary, sends the
//! primary one short command and exits. A socket that cannot be bound
//! for any other reason ends the launch with an error.
//!
//! The coordinator decides; a driver does the work on the socket and
//! reports each outcome as an event.

use vstd::prelude::*;
use vstd::string::*;
use crate::text::{same_text, skip_leading, skip_trailing, trim, trimmed};
use crate::window::{VisibilityState, WindowAction};

verus! {

/// The path of the socket at which the instances meet.
pub const SOCKET_PATH: &'static str = "/tmp/control-centre.sock";

/// The command that a secondary sends to the primary.
pub const TOGGLE_COMMAND: &'static str = "toggle";

/// The largest number of bytes that the primary reads from a connection.
pub const MESSAGE_LIMIT: usize = 32;

/// Whether a message asks for the window to be toggled: it is the toggle
/// command, with nothing but whitespace around it.
pub open spec fn is_toggle(message: Seq<char>) -> bool {
    trimmed(message) == TOGGLE_COMMAND@
}

/// Whether a message asks for the window to be toggled.
pub fn is_toggle_command(message: &str) -> (r: bool)
    ensures
        r == is_toggle(message@),
{
    same_text(trim(message), TOGGLE_COMMAND)
}

/// The part that a process plays.
#[derive(Debug, Clone, Copy, PartialEq, Eq)]
pub enum Role {
    /// The process that holds the socket and serves it.
    Primary,
    /// A later launch, which signals the primary and exits.
    Secondary,
}

/// Why the socket could not be bound.
#[derive(Debug, Clone, Copy, PartialEq, Eq)]
pub enum BindFailure {
    /// Another process holds the socket.
    AddressInUse,
    /// Anything else, such as a path that may not be written.
    Other,
}

/// What binding the socket gave.
#[derive(Debug, Clone, Copy, PartialEq, Eq)]
pub enum BindOutcome {
    /// The socket is bound.
    Bound,
    /// The socket could not be bound.
    Failed(BindFailure),
}

/// Where a process stands in the protocol.
#[derive(Debug, Clone, Copy, PartialEq, Eq)]
pub enum Coordinator {
    /// It is not yet known whether a primary is running.
    Electing,
    /// No primary answered: the socket is to be bound.
    Binding,
    /// A primary is running: the toggle command is to be sent to it.
    Signalling,
    /// The socket is bound, and connections are served.
    Listening,
    /// The socket could not be bound, and not because another process
    /// holds it: the launch has failed.
    Failed,
    /// The process has left the protocol.
    Exited(Role),
}

/// What the driver reports.
#[derive(Debug, PartialEq, Eq)]
pub enum Event {
    /// The socket was probed: whether a primary answered.
    Probed(bool),
    /// The socket was bound, or binding it failed.
    Bound(BindOutcome),
    /// The toggle command was sent, or sending it failed.
    Delivered(bool),
    /// A connection was accepted, and this was read from it.
    Received(String),
    /// Accepting a connection or reading from it failed.
    ConnectionFailed,
    /// The application is about to exit.
    ExitRequested,
}

/// What the driver is to do next.
#[derive(Debug, Clone, Copy, PartialEq, Eq)]
pub enum Directive {
    /// Remove a socket file that an earlier primary may have left, bind
    /// the socket, and report what binding gave.
    Bind,
    /// Connect to the socket, send the toggle command, and report
    /// whether it was delivered.
    SendToggle,
    /// Wait for the next connection and report what was read from it.
    Accept,
    /// Do this with the window, then wait for the next connection.
    Window(WindowAction),
    /// Remove the socket file.
    RemoveArtifact,
    /// End the process.
    Exit,
    /// End the launch with an error: the socket cannot be used.
    Abort,
    /// Nothing.
    Idle,
}

impl Coordinator {
    /// The part that a process in this state plays, once it is decided.
    /// A process that has bound the socket is the primary; one that
    /// found the socket live or taken is a secondary.
    pub open spec fn role(self) -> Option<Role> {
        match self {
            Coordinator::Electing | Coordinator::Binding | Coordinator::Failed => None,
            Coordinator::Signalling => Some(Role::Secondary),
            Coordinator::Listening => Some(Role::Primary),
            Coordinator::Exited(role) => Some(role),
        }
    }

    /// The state that an event leads to, what is to be done then, and
    /// whether the window is visible after it, for a window whose
    /// visibility was `visible`.
    ///
    /// A probe that a primary answers makes a secondary, which sends the
    /// toggle command; a probe that nothing answers leads to binding the
    /// socket. Binding decides: the process that binds the socket is the
    /// primary and serves connections; one that finds the socket held by
    /// another process has lost the race and is a secondary; any other
    /// failure ends the launch with an error. A secondary exits when the
    /// command was sent or could not be sent. For the primary, a toggle
    /// command flips the window, and any other message and any failed
    /// connection is passed over. On exit the primary removes the socket
    /// file. An event that is out of place changes nothing.
    pub open spec fn transition(self, event: Event, visible: bool) -> (
        Coordinator,
        Directive,
        bool,
    ) {
        match (self, event) {
            (Coordinator::Electing, Event::Probed(live)) => if live {
                (Coordinator::Signalling, Directive::SendToggle, visible)
            } else {
                (Coordinator::Binding, Directive::Bind, visible)
            },
            (Coordinator::Binding, Event::Bound(outcome)) => match outcome {
                BindOutcome::Bound => (Coordinator::Listening, Directive::Accept, visible),
                BindOutcome::Failed(BindFailure::AddressInUse) => (
                    Coordinator::Signalling,
                    Directive::SendToggle,
                    visible,
                ),
                BindOutcome::Failed(BindFailure::Other) => (
                    Coordinator::Failed,
                    Directive::Abort,
                    visible,
                ),
            },
            (Coordinator::Signalling, Event::Delivered(_)) => (
                Coordinator::Exited(Role::Secondary),
                Directive::Exit,
                visible,
            ),
            (Coordinator::Listening, Event::Received(message)) => if is_toggle(message@) {
                (
                    Coordinator::Listening,
                    Directive::Window(
                        if visible {
                            WindowAction::Hide
                        } else {
                            WindowAction::Present
                        },
                    ),
                    !visible,
                )
            } else {
                (Coordinator::Listening, Directive::Accept, visible)
            },
            (Coordinator::Listening, Event::ConnectionFailed) => (
                Coordinator::Listening,
                Directive::Accept,
                visible,
            ),
            (Coordinator::Listening, Event::ExitRequested) => (
                Coordinator::Exited(Role::Primary),
                Directive::RemoveArtifact,
                visible,
            ),
            _ => (self, Directive::Idle, visible),
        }
    }

    /// The state of a process that has just been launched. The driver
    /// probes the socket and reports what it found.
    pub fn new() -> (r: Coordinator)
        ensures
            r == Coordinator::Electing,
    {
        Coordinator::Electing
    }

    /// Takes an event, moves to the next state, changes the visibility
    /// of the window where the event asks for it, and says what the
    /// driver is to do next.
    pub fn on_event(&mut self, event: Event, visibility: &mut VisibilityState) -> (r: Directive)
        ensures
            (*final(self), r, final(visibility)@) == old(self).transition(
                event,
                old(visibility)@,
            ),
    {
        let state = *self;
        match (state, event) {
            (Coordinator::Electing, Event::Probed(live)) => {
                if live {
                    *self = Coordinator::Signalling;
                    Directive::SendToggle
                } else {
                    *self = Coordinator::Binding;
                    Directive::Bind
                }
            },
            (Coordinator::Binding, Event::Bound(outcome)) => {
                match outcome {
                    BindOutcome::Bound => {
                        *self = Coordinator::Listening;
                        Directive::Accept
                    },
                    BindOutcome::Failed(BindFailure::AddressInUse) => {
                        *self = Coordinator::Signalling;
                        Directive::SendToggle
                    },
                    BindOutcome::Failed(BindFailure::Other) => {
                        *self = Coordinator::Failed;
                        Directive::Abort
                    },
                }
            },
            (Coordinator::Signalling, Event::Delivered(_)) => {
                *self = Coordinator::Exited(Role::Secondary);
                Directive::Exit
            },
            (Coordinator::Listening, Event::Received(message)) => {
                if is_toggle_command(message.as_str()) {
                    Directive::Window(visibility.toggle_window_visibility())
                } else {
                    Directive::Accept
                }
            },
            (Coordinator::Listening, Event::ConnectionFailed) => Directive::Accept,
            (Coordinator::Listening, Event::ExitRequested) => {
                *self = Coordinator::Exited(Role::Primary);
                Directive::RemoveArtifact
            },
            _ => Directive::Idle,
        }
    }
}

/// The toggle command is taken as a toggle.
pub proof fn law_toggle_command_is_a_toggle()
    ensures
        is_toggle(TOGGLE_COMMAND@),
{
    reveal_strlit("toggle");
    let command = TOGGLE_COMMAND@;
    assert(command.len() == 6);
    assert(command[0] == 't');
    assert(command.last() == 'e');
    assert(skip_leading(command) == command);
    assert(skip_trailing(command) == command);
}

/// The role of a process is decided once and for all: whatever the
/// event, a primary stays a primary and a secondary a secondary.
pub proof fn law_role_is_fixed(state: Coordinator, event: Event, visible: bool)
    requires
        state.role() is Some,
    ensures
        state.transition(event, visible).0.role() == state.role(),
{
}

/// Of two launches, the first finds no primary, binds the socket and
/// listens; the second finds it live, is told to send the toggle command
/// and then to exit. The command that the primary receives flips the
/// visibility of its window once, and the primary goes on listening.
pub proof fn law_second_launch_toggles_once(visible: bool, delivered: bool, message: String)
    requires
        message@ == TOGGLE_COMMAND@,
    ensures
        ({
            let first = Coordinator::Electing.transition(Event::Probed(false), visible);
            let bound = first.0.transition(Event::Bound(BindOutcome::Bound), visible);
            let served = bound.0.transition(Event::Received(message), visible);
            let second = Coordinator::Electing.transition(Event::Probed(true), visible);
            let sent = second.0.transition(Event::Delivered(delivered), visible);
            &&& first.1 == Directive::Bind
            &&& bound.0 == Coordinator::Listening
            &&& bound.0.role() == Some(Role::Primary)
            &&& second.0.role() == Some(Role::Secondary)
            &&& second.1 == Directive::SendToggle
            &&& sent.0 == Coordinator::Exited(Role::Secondary)
            &&& sent.1 == Directive::Exit
            &&& served.0 == Coordinator::Listening
            &&& served.2 == !visible
        }),
{
    law_toggle_command_is_a_toggle();
}

/// A failure to bind the socket is told apart by its reason. A launch
/// that finds the socket held by another process, though nothing had
/// answered its probe, has lost the race for it: it is a secondary and
/// sends the toggle command. Any other failure ends the launch with an
/// error, and makes neither a primary nor a secondary.
pub proof fn law_bind_failure_is_classified(visible: bool)
    ensures
        Coordinator::Binding.transition(
            Event::Bound(BindOutcome::Failed(BindFailure::AddressInUse)),
            visible,
        ) == (Coordinator::Signalling, Directive::SendToggle, visible),
        Coordinator::Signalling.role() == Some(Role::Secondary),
        Coordinator::Binding.transition(
            Event::Bound(BindOutcome::Failed(BindFailure::Other)),
            visible,
        ) == (Coordinator::Failed, Directive::Abort, visible),
        Coordinator::Failed.role() is None,
{
}

/// Only the process that has bound the socket is ever told to remove
/// the socket file, and only when the application exits.
pub proof fn law_only_the_primary_removes_the_socket(
    state: Coordinator,
    event: Event,
    visible: bool,
)
    requires
        state.transition(event, visible).1 == Directive::RemoveArtifact,
    ensures
        state == Coordinator::Listening,
        event is ExitRequested,
{
}

/// A message that is no toggle command, and a connection that failed,
/// leave the window as it is and the primary listening.
pub proof fn law_listener_survives(visible: bool, message: String)
    ensures
        Coordinator::Listening.transition(Event::ConnectionFailed, visible) == (
            Coordinator::Listening,
            Directive::Accept,
            visible,
        ),
        !is_toggle(message@) ==> Coordinator::Listening.transition(
            Event::Received(message),
            visible,
        ) == (Coordinator::Listening, Directive::Accept, visible),
{
}

} // verus!
