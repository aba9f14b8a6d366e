//! Decisions of the controller and player sessions. The connection loops
//! perform the socket and channel work and hand each input to these steps.
use crate::protocol::{accepts, next_state, Command, ControllerState, Event};
use crate::registry::{claim_outcome, claimed, LookupError, Registry};
use vstd::prelude::*;

verus! {

/// One inbound frame on a controller's socket.
pub enum Frame {
    /// A text frame: its exact text, and the event it parses to (`None` when
    /// the text is not a well-formed event).
    Text { text: String, event: Option<Event> },
    /// A close frame.
    Close,
    /// Any other frame (binary, ping, pong).
    Other,
}

/// A message to put into the relay channel.
pub enum Outbound {
    /// The controller's text, forwarded byte for byte.
    Verbatim(String),
    /// An `Unpair` event produced by the server itself.
    SynthesizedUnpair,
}

/// What a controller session does with one frame.
pub struct Step {
    /// The pairing state afterwards.
    pub state: ControllerState,
    /// Messages to send into the relay channel, in order.
    pub sends: Vec<Outbound>,
    /// Whether the session ends after sending them.
    pub end: bool,
}

/// The pairing state after handling `frame` in state `s`.
pub open spec fn step_state(s: ControllerState, consumer_gone: bool, frame: Frame) -> ControllerState {
    if consumer_gone {
        s
    } else {
        match frame {
            Frame::Text { event: Some(e), .. } => next_state(s, e.command),
            Frame::Close => ControllerState::Unpaired,
            _ => s,
        }
    }
}

/// The messages relayed when handling `frame` in state `s`: an accepted
/// command is forwarded as it came; a rejected one yields a single
/// synthesized `Unpair` in place of the controller's text; a close frame
/// yields a synthesized `Unpair`.
pub open spec fn step_sends(s: ControllerState, consumer_gone: bool, frame: Frame) -> Seq<Outbound> {
    if consumer_gone {
        seq![]
    } else {
        match frame {
            Frame::Text { text, event: Some(e) } => if accepts(s, e.command) {
                seq![Outbound::Verbatim(text)]
            } else {
                seq![Outbound::SynthesizedUnpair]
            },
            Frame::Close => seq![Outbound::SynthesizedUnpair],
            _ => seq![],
        }
    }
}

/// Whether the session ends after handling `frame` in state `s`: when the
/// player has gone, on a rejected command, on `Unpair`, and on a close frame.
pub open spec fn step_ends(s: ControllerState, consumer_gone: bool, frame: Frame) -> bool {
    consumer_gone || match frame {
        Frame::Text { event: Some(e), .. } => !accepts(s, e.command) || e.command == Command::Unpair,
        Frame::Close => true,
        _ => false,
    }
}

/// Handles one inbound controller frame in pairing state `state`;
/// `consumer_gone` tells whether the player side of the relay channel has
/// already gone away.
pub fn controller_step(state: ControllerState, consumer_gone: bool, frame: Frame) -> (r: Step)
    ensures
        r.state == step_state(state, consumer_gone, frame),
        r.sends@ == step_sends(state, consumer_gone, frame),
        r.end == step_ends(state, consumer_gone, frame),
{
    let mut state = state;
    let mut sends: Vec<Outbound> = Vec::new();
    if consumer_gone {
        return Step { state, sends, end: true };
    }
    match frame {
        Frame::Text { text, event } => match event {
            None => Step { state, sends, end: false },
            Some(e) => {
                let command = e.command;
                if state.apply(command) {
                    sends.push(Outbound::Verbatim(text));
                    let end = match command {
                        Command::Unpair => true,
                        _ => false,
                    };
                    Step { state, sends, end }
                } else {
                    sends.push(Outbound::SynthesizedUnpair);
                    Step { state, sends, end: true }
                }
            },
        },
        Frame::Close => {
            let _ = state.unpair();
            sends.push(Outbound::SynthesizedUnpair);
            Step { state, sends, end: true }
        },
        Frame::Other => Step { state, sends, end: false },
    }
}

/// Everything relayed by a session that starts in state `s` and reads
/// `frames` in order while the player stays connected, up to the frame that
/// ends it.
pub open spec fn relayed(s: ControllerState, frames: Seq<Frame>) -> Seq<Outbound>
    decreases frames.len(),
{
    if frames.len() == 0 {
        seq![]
    } else {
        let f = frames[0];
        let out = step_sends(s, false, f);
        if step_ends(s, false, f) {
            out
        } else {
            out + relayed(step_state(s, false, f), frames.drop_first())
        }
    }
}

/// Whether `frames` are well-formed events whose commands are each legal in
/// turn from state `s`, with `Unpair`, which ends a session, only last.
pub open spec fn legal_frames(s: ControllerState, frames: Seq<Frame>) -> bool
    decreases frames.len(),
{
    frames.len() == 0 || match frames[0] {
        Frame::Text { event: Some(e), .. } => accepts(s, e.command) && (e.command
            != Command::Unpair || frames.len() == 1) && legal_frames(
            next_state(s, e.command),
            frames.drop_first(),
        ),
        _ => false,
    }
}

/// What a frame's text becomes when forwarded as it came.
pub open spec fn verbatim(f: Frame) -> Outbound {
    match f {
        Frame::Text { text, .. } => Outbound::Verbatim(text),
        _ => Outbound::SynthesizedUnpair,
    }
}

/// A legal command sequence is relayed in full, each event exactly as the
/// controller sent it and in the same order.
pub proof fn lemma_legal_sequence_relayed_verbatim(s: ControllerState, frames: Seq<Frame>)
    requires
        legal_frames(s, frames),
    ensures
        relayed(s, frames) == frames.map_values(|f: Frame| verbatim(f)),
    decreases frames.len(),
{
    if frames.len() > 0 {
        let f = frames[0];
        let rest = frames.drop_first();
        if let Frame::Text { event: Some(e), .. } = f {
            if e.command != Command::Unpair {
                lemma_legal_sequence_relayed_verbatim(next_state(s, e.command), rest);
            }
        }
        assert(relayed(s, frames) =~= frames.map_values(|f: Frame| verbatim(f)));
    }
}

/// A rejected command relays exactly one synthesized `Unpair` and nothing
/// else, leaves the session unpaired and ends it.
pub proof fn lemma_rejected_command_forces_one_unpair(s: ControllerState, text: String, e: Event)
    requires
        !accepts(s, e.command),
    ensures
        ({
            let f = Frame::Text { text, event: Some(e) };
            let out = step_sends(s, false, f);
            &&& out == seq![Outbound::SynthesizedUnpair]
            &&& step_ends(s, false, f)
            &&& step_state(s, false, f) == ControllerState::Unpaired
        }),
{
}

/// One input to a player session: from its own socket or from its relay
/// channel.
pub enum PlayerInput {
    /// The socket delivered a frame; players send no commands, so its content
    /// does not matter.
    SocketFrame,
    /// Receiving from the socket failed.
    SocketError,
    /// The socket has no more frames.
    SocketClosed,
    /// The relay channel delivered a message: its exact text, and the event it
    /// parses to (`None` when it is not a well-formed event).
    Relay { text: String, event: Option<Event> },
    /// The relay channel is closed and drained.
    RelayClosed,
}

/// What a player session does with one input.
pub enum PlayerAction {
    /// Keep waiting.
    Wait,
    /// Send the text to the player's socket, unchanged.
    Forward(String),
    /// Send the text to the player's socket, unchanged, then close.
    ForwardThenClose(String),
    /// Close the session.
    Close,
}

/// The player session's decision on `input`: relayed events reach the socket
/// as they came, and an `Unpair` ends the session after it is delivered.
pub open spec fn player_action(input: PlayerInput) -> PlayerAction {
    match input {
        PlayerInput::SocketFrame => PlayerAction::Wait,
        PlayerInput::Relay { text, event } => match event {
            None => PlayerAction::Wait,
            Some(e) => if e.command == Command::Unpair {
                PlayerAction::ForwardThenClose(text)
            } else {
                PlayerAction::Forward(text)
            },
        },
        _ => PlayerAction::Close,
    }
}

/// The texts a player session sends to its socket while handling `inputs` in
/// order, up to the input that closes it.
pub open spec fn delivered(inputs: Seq<PlayerInput>) -> Seq<String>
    decreases inputs.len(),
{
    if inputs.len() == 0 {
        seq![]
    } else {
        match player_action(inputs[0]) {
            PlayerAction::Wait => delivered(inputs.drop_first()),
            PlayerAction::Forward(t) => seq![t] + delivered(inputs.drop_first()),
            PlayerAction::ForwardThenClose(t) => seq![t],
            PlayerAction::Close => seq![],
        }
    }
}

/// Whether every input is a relayed, well-formed event.
pub open spec fn relayed_events(inputs: Seq<PlayerInput>) -> bool {
    forall|i: int| 0 <= i < inputs.len() ==> (#[trigger] inputs[i] matches PlayerInput::Relay {
        event: Some(_),
        ..
    })
}

/// Whether a player session closes on `input`.
pub open spec fn closes(input: PlayerInput) -> bool {
    match input {
        PlayerInput::Relay { event: Some(e), .. } => e.command == Command::Unpair,
        PlayerInput::Relay { event: None, .. } => false,
        PlayerInput::SocketFrame => false,
        _ => true,
    }
}

/// A player delivers relayed events in order, each text exactly as it was
/// relayed, up to and including the first `Unpair`, and nothing after it.
pub proof fn lemma_player_delivers_in_order(inputs: Seq<PlayerInput>)
    requires
        relayed_events(inputs),
    ensures
        delivered(inputs).len() <= inputs.len(),
        forall|i: int|
            0 <= i < delivered(inputs).len() ==> match #[trigger] inputs[i] {
                PlayerInput::Relay { text, .. } => delivered(inputs)[i] == text,
                _ => false,
            },
        forall|j: int| 0 <= j < delivered(inputs).len() - 1 ==> !closes(#[trigger] inputs[j]),
        delivered(inputs).len() < inputs.len() ==> delivered(inputs).len() > 0 && closes(
            inputs[delivered(inputs).len() - 1],
        ),
    decreases inputs.len(),
{
    if inputs.len() > 0 {
        let rest = inputs.drop_first();
        let d = delivered(inputs);
        assert(inputs[0] matches PlayerInput::Relay { event: Some(_), .. });
        if !closes(inputs[0]) {
            assert forall|i: int| 0 <= i < rest.len() implies (#[trigger] rest[i] matches PlayerInput::Relay {
                event: Some(_),
                ..
            }) by {
                assert(rest[i] == inputs[i + 1]);
            }
            lemma_player_delivers_in_order(rest);
            let dr = delivered(rest);
            assert(d == seq![d[0]] + dr);
            assert forall|i: int| 0 <= i < d.len() implies match #[trigger] inputs[i] {
                PlayerInput::Relay { text, .. } => d[i] == text,
                _ => false,
            } by {
                if i > 0 {
                    assert(inputs[i] == rest[i - 1]);
                }
            }
            assert forall|j: int| 0 <= j < d.len() - 1 implies !closes(#[trigger] inputs[j]) by {
                if j > 0 {
                    assert(inputs[j] == rest[j - 1]);
                }
            }
            if d.len() < inputs.len() {
                assert(inputs[d.len() - 1] == rest[dr.len() - 1]);
            }
        }
    }
}

/// Handles one input of a player session.
pub fn player_step(input: PlayerInput) -> (r: PlayerAction)
    ensures
        r == player_action(input),
{
    match input {
        PlayerInput::SocketFrame => PlayerAction::Wait,
        PlayerInput::SocketError => PlayerAction::Close,
        PlayerInput::SocketClosed => PlayerAction::Close,
        PlayerInput::RelayClosed => PlayerAction::Close,
        PlayerInput::Relay { text, event } => match event {
            None => PlayerAction::Wait,
            Some(e) => match e.command {
                Command::Unpair => PlayerAction::ForwardThenClose(text),
                _ => PlayerAction::Forward(text),
            },
        },
    }
}

/// Why a controller connection was turned away before its first frame.
#[derive(Debug, Clone, Copy, PartialEq, Eq, Structural)]
pub enum AdmitError {
    /// The connection named no device.
    MissingDevice,
    /// The connection carried no secret.
    MissingSecret,
    /// The device is unknown or its channel is already claimed.
    Lookup(LookupError),
}

/// Admits a controller connection that carries the query parameters `device`
/// and `secret`: both must be present (the secret's value is not checked),
/// and the device's producer handle is then claimed for the connection.
pub fn admit_controller<P>(
    registry: &mut Registry<P>,
    device: Option<&String>,
    secret: Option<&String>,
) -> (r: Result<P, AdmitError>)
    requires
        old(registry).wf(),
    ensures
        final(registry).wf(),
        device is None ==> (r == Err::<P, AdmitError>(AdmitError::MissingDevice)
            && final(registry)@ == old(registry)@),
        (device is Some && secret is None) ==> (r == Err::<P, AdmitError>(
            AdmitError::MissingSecret,
        ) && final(registry)@ == old(registry)@),
        (device is Some && secret is Some) ==> {
            let d = device.unwrap()@;
            &&& final(registry)@ == claimed(old(registry)@, d)
            &&& match claim_outcome(old(registry)@, d) {
                Ok(p) => r == Ok::<P, AdmitError>(p),
                Err(e) => r == Err::<P, AdmitError>(AdmitError::Lookup(e)),
            }
        },
{
    match device {
        None => Err(AdmitError::MissingDevice),
        Some(d) => match secret {
            None => Err(AdmitError::MissingSecret),
            Some(_) => match registry.claim(d) {
                Ok(p) => Ok(p),
                Err(e) => Err(AdmitError::Lookup(e)),
            },
        },
    }
}

} // verus!
