//! Wire commands and the controller pairing state machine.
use vstd::prelude::*;
use vstd::string::StringExecFns;

verus! {

/// A command carried by an event on the wire.
#[derive(Debug, Clone, Copy, PartialEq, Eq, Structural)]
pub enum Command {
    Pair,
    Unpair,
    Play,
    Stop,
}

/// An event as exchanged between a controller and a player.
#[derive(Debug, Clone)]
pub struct Event {
    pub command: Command,
    pub payload: Option<String>,
}

/// The name of a command as written in logs and on the wire.
pub open spec fn command_name(c: Command) -> Seq<char> {
    match c {
        Command::Pair => "Pair"@,
        Command::Unpair => "Unpair"@,
        Command::Play => "Play"@,
        Command::Stop => "Stop"@,
    }
}

impl Command {
    /// The command's name.
    pub fn name(&self) -> (r: &'static str)
        ensures
            r@ == command_name(*self),
    {
        match self {
            Command::Pair => "Pair",
            Command::Unpair => "Unpair",
            Command::Play => "Play",
            Command::Stop => "Stop",
        }
    }
}

/// The debug rendering of a string: quoted, with special characters escaped.
pub uninterp spec fn debug_quoted(s: Seq<char>) -> Seq<char>;

/// Relies on `<str as Debug>::fmt`, through `format!`: the string between
/// double quotes with its special characters escaped; the rendering depends on
/// the characters alone.
#[verifier::external_body]
fn quote_debug(s: &str) -> (r: String)
    ensures
        r@ == debug_quoted(s@),
{
    format!("{:?}", s)
}

/// The log description of an event with `command` whose payload, if any, is
/// rendered as `quoted`: `command <name> with payload of None` or
/// `command <name> with payload of Some(<quoted>)`.
pub open spec fn description(command: Command, quoted: Option<Seq<char>>) -> Seq<char> {
    "command "@ + command_name(command) + " with payload of "@ + match quoted {
        None => "None"@,
        Some(q) => "Some("@ + q + ")"@,
    }
}

/// Builds the log description of an event from its command and its payload
/// already rendered for debugging.
pub fn describe_event(command: Command, quoted_payload: Option<&str>) -> (r: String)
    ensures
        r@ == description(
            command,
            match quoted_payload {
                Some(q) => Some(q@),
                None => None,
            },
        ),
{
    let mut r = String::from_str("command ");
    r.append(command.name());
    r.append(" with payload of ");
    match quoted_payload {
        None => r.append("None"),
        Some(q) => {
            r.append("Some(");
            r.append(q);
            r.append(")");
        },
    }
    r
}

impl Event {
    /// A description of the event for logs, with the payload quoted and
    /// escaped.
    pub fn to_string(&self) -> (r: String)
        ensures
            r@ == description(
                self.command,
                match self.payload {
                    Some(p) => Some(debug_quoted(p@)),
                    None => None,
                },
            ),
    {
        match &self.payload {
            Some(p) => {
                let q = quote_debug(p.as_str());
                describe_event(self.command, Some(q.as_str()))
            },
            None => describe_event(self.command, None),
        }
    }
}

/// Pairing state of one controller connection.
#[derive(Debug, Clone, Copy, PartialEq, Eq, Structural)]
pub enum ControllerState {
    Unpaired,
    Paired,
    Played,
    Stopped,
}

/// Whether `command` is a legal move out of state `s`.
pub open spec fn accepts(s: ControllerState, command: Command) -> bool {
    match command {
        Command::Pair => s == ControllerState::Unpaired,
        Command::Play => s == ControllerState::Paired || s == ControllerState::Stopped,
        Command::Stop => s == ControllerState::Played,
        Command::Unpair => s != ControllerState::Unpaired,
    }
}

/// The state reached from `s` on `command`: the command's target state when
/// the move is legal, `Unpaired` when it is not.
pub open spec fn next_state(s: ControllerState, command: Command) -> ControllerState {
    if accepts(s, command) {
        match command {
            Command::Pair => ControllerState::Paired,
            Command::Play => ControllerState::Played,
            Command::Stop => ControllerState::Stopped,
            Command::Unpair => ControllerState::Unpaired,
        }
    } else {
        ControllerState::Unpaired
    }
}

impl Default for ControllerState {
    fn default() -> (r: ControllerState)
        ensures
            r == ControllerState::Unpaired,
    {
        ControllerState::Unpaired
    }
}

impl ControllerState {
    /// Applies `Pair`; returns whether it was accepted.
    pub fn pair(&mut self) -> (accepted: bool)
        ensures
            accepted == accepts(*old(self), Command::Pair),
            *final(self) == next_state(*old(self), Command::Pair),
    {
        match *self {
            ControllerState::Unpaired => {
                *self = ControllerState::Paired;
                true
            },
            _ => {
                *self = ControllerState::Unpaired;
                false
            },
        }
    }

    /// Applies `Play`; returns whether it was accepted.
    pub fn play(&mut self) -> (accepted: bool)
        ensures
            accepted == accepts(*old(self), Command::Play),
            *final(self) == next_state(*old(self), Command::Play),
    {
        match *self {
            ControllerState::Paired | ControllerState::Stopped => {
                *self = ControllerState::Played;
                true
            },
            _ => {
                *self = ControllerState::Unpaired;
                false
            },
        }
    }

    /// Applies `Stop`; returns whether it was accepted.
    pub fn stop(&mut self) -> (accepted: bool)
        ensures
            accepted == accepts(*old(self), Command::Stop),
            *final(self) == next_state(*old(self), Command::Stop),
    {
        match *self {
            ControllerState::Played => {
                *self = ControllerState::Stopped;
                true
            },
            _ => {
                *self = ControllerState::Unpaired;
                false
            },
        }
    }

    /// Applies `Unpair`; returns whether it was accepted. The state is
    /// `Unpaired` afterwards either way.
    pub fn unpair(&mut self) -> (accepted: bool)
        ensures
            accepted == accepts(*old(self), Command::Unpair),
            *final(self) == next_state(*old(self), Command::Unpair),
            *final(self) == ControllerState::Unpaired,
    {
        match *self {
            ControllerState::Paired | ControllerState::Played | ControllerState::Stopped => {
                *self = ControllerState::Unpaired;
                true
            },
            _ => {
                *self = ControllerState::Unpaired;
                false
            },
        }
    }

    /// Applies any command; returns whether it was accepted.
    pub fn apply(&mut self, command: Command) -> (accepted: bool)
        ensures
            accepted == accepts(*old(self), command),
            *final(self) == next_state(*old(self), command),
    {
        match command {
            Command::Pair => self.pair(),
            Command::Play => self.play(),
            Command::Stop => self.stop(),
            Command::Unpair => self.unpair(),
        }
    }
}

} // verus!
