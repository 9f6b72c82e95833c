//! How the session reacts to keys.
//!
//! The interface reads a key, asks the session what follows from it, and
//! carries that out: the session holds the rules, the interface the player's
//! process and the socket.

use vstd::prelude::*;
use crate::wire::PlayerCommand;

verus! {

/// What the listener can ask for.
#[derive(Clone, Copy, Debug, PartialEq, Eq, Structural)]
pub enum Command {
    /// Start the player, unless one runs.
    Start,
    /// Pause the stream, or resume it.
    Pause,
    /// End the player and forget the title.
    Stop,
    /// End the player and leave.
    Quit,
}

/// The command bound to a key: `s`, `p`, `x` and `q`, in either case.
pub open spec fn command_of_key(key: char) -> Option<Command> {
    if key == 's' || key == 'S' {
        Some(Command::Start)
    } else if key == 'p' || key == 'P' {
        Some(Command::Pause)
    } else if key == 'x' || key == 'X' {
        Some(Command::Stop)
    } else if key == 'q' || key == 'Q' {
        Some(Command::Quit)
    } else {
        None
    }
}

/// Looks up the command bound to a key.
pub fn key_command(key: char) -> (command: Option<Command>)
    ensures
        command == command_of_key(key),
{
    match key {
        's' | 'S' => Some(Command::Start),
        'p' | 'P' => Some(Command::Pause),
        'x' | 'X' => Some(Command::Stop),
        'q' | 'Q' => Some(Command::Quit),
        _ => None,
    }
}

/// Tells whether a key closes the plain display, which shows the title and
/// nothing else: only the small `q` does.
pub fn closes_display(key: char) -> (closes: bool)
    ensures
        closes == (key == 'q'),
{
    key == 'q'
}

/// What the interface does with the player after a key.
#[derive(Clone, Copy, Debug, PartialEq, Eq, Structural)]
pub enum Action {
    /// Nothing.
    Nothing,
    /// Start the player, then search for the first title.
    Launch,
    /// Write the command to the control socket.
    Send(PlayerCommand),
    /// Write the command to the control socket, then wait until the player
    /// has ended.
    SendAndWait(PlayerCommand),
}

/// What follows from a key.
#[derive(Clone, Copy, Debug, PartialEq, Eq, Structural)]
pub struct Outcome {
    /// What to do with the player.
    pub action: Action,
    /// Whether the title is replaced by the placeholder, after the action.
    pub reset_title: bool,
}

/// The state of the interface between two keys.
#[derive(Clone, Copy, Debug, PartialEq, Eq, Structural)]
pub struct Session {
    /// The interface goes on reading keys.
    pub running: bool,
    /// A player has been started and not ended since.
    pub player_active: bool,
}

/// The outcome that asks for nothing.
pub open spec fn idle() -> Outcome {
    Outcome { action: Action::Nothing, reset_title: false }
}

/// What ends the player: a `quit` and a wait if one is active, nothing
/// otherwise.
pub open spec fn ending(player_active: bool) -> Action {
    if player_active {
        Action::SendAndWait(PlayerCommand::Quit)
    } else {
        Action::Nothing
    }
}

/// The session after a command, and what the interface has to do.
pub open spec fn react(session: Session, command: Command) -> (Session, Outcome) {
    match command {
        Command::Start => if session.player_active {
            (session, idle())
        } else {
            (
                Session { running: session.running, player_active: true },
                Outcome { action: Action::Launch, reset_title: false },
            )
        },
        Command::Pause => (
            session,
            Outcome { action: Action::Send(PlayerCommand::CyclePause), reset_title: false },
        ),
        Command::Stop => (
            Session { running: session.running, player_active: false },
            Outcome { action: ending(session.player_active), reset_title: true },
        ),
        Command::Quit => (
            Session { running: false, player_active: false },
            Outcome { action: ending(session.player_active), reset_title: false },
        ),
    }
}

/// The session after a key, and what the interface has to do: what follows
/// from the key's command, and nothing for a key that has none.
pub open spec fn react_to_key(session: Session, key: char) -> (Session, Outcome) {
    match command_of_key(key) {
        Some(command) => react(session, command),
        None => (session, idle()),
    }
}

impl Session {
    /// The session at the start: reading keys, no player.
    pub fn new() -> (session: Session)
        ensures
            session == (Session { running: true, player_active: false }),
    {
        Session { running: true, player_active: false }
    }

    /// Applies a command and returns what the interface has to do.
    pub fn apply(&mut self, command: Command) -> (outcome: Outcome)
        ensures
            (*final(self), outcome) == react(*old(self), command),
    {
        let was_active = self.player_active;
        let end = if was_active {
            Action::SendAndWait(PlayerCommand::Quit)
        } else {
            Action::Nothing
        };
        match command {
            Command::Start => {
                if was_active {
                    Outcome { action: Action::Nothing, reset_title: false }
                } else {
                    self.player_active = true;
                    Outcome { action: Action::Launch, reset_title: false }
                }
            },
            Command::Pause => Outcome {
                action: Action::Send(PlayerCommand::CyclePause),
                reset_title: false,
            },
            Command::Stop => {
                self.player_active = false;
                Outcome { action: end, reset_title: true }
            },
            Command::Quit => {
                self.running = false;
                self.player_active = false;
                Outcome { action: end, reset_title: false }
            },
        }
    }

    /// Takes a key and returns what the interface has to do. A key without a
    /// command changes nothing.
    pub fn on_key(&mut self, key: char) -> (outcome: Outcome)
        ensures
            (*final(self), outcome) == react_to_key(*old(self), key),
    {
        match key_command(key) {
            Some(command) => self.apply(command),
            None => Outcome { action: Action::Nothing, reset_title: false },
        }
    }
}

/// A key that no command is bound to leaves the session as it is and asks
/// the interface for nothing.
pub proof fn unbound_key_changes_nothing(session: Session, key: char)
    requires
        command_of_key(key) is None,
    ensures
        react_to_key(session, key) == (session, idle()),
{
}

/// A player is started only while none is active, and ended only while one
/// is: after any command the session's record agrees with what the
/// interface was asked to do.
pub proof fn player_record_follows_actions(session: Session, command: Command)
    ensures
        ({
            let (next, outcome) = react(session, command);
            match outcome.action {
                Action::Launch => !session.player_active && next.player_active,
                Action::SendAndWait(_) => session.player_active && !next.player_active,
                Action::Send(_) => next.player_active == session.player_active,
                Action::Nothing => next.player_active == session.player_active,
            }
        }),
{
}

} // verus!
