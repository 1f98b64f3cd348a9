//! The protocol's state machine.
//!
//! Outbound, a command token becomes the payloads to send; inbound, a
//! received byte becomes the action that answers it. The engine does no I/O:
//! the caller sends the payloads and carries out the actions.

use vstd::prelude::*;
use vstd::string::StringExecFns;
use crate::codes::{
    is_listen_token, is_text_end, resolve, spec_is_listen_token, spec_is_text_end, spec_resolve,
    ControlCode,
};
use crate::config::Args;
use crate::display::{spec_rotation, ActuatorCallView, Rotation, RotationView};
use crate::error::ProtocolError;
use crate::payload::{spec_raw_text, spec_signal, views, Payload, PayloadView};
use crate::text::{decimal, spec_decimal, spec_digit};

verus! {

/// The state of one session.
#[derive(Clone, Copy, Debug, PartialEq, Eq, Structural)]
pub struct ProtocolEngine {
    /// Whether command tokens are forwarded as they are.
    pub text_mode: bool,
    /// Whether the session has gone over to listening.
    pub listening: bool,
}

/// What to do for one command token.
#[derive(Clone, Debug, PartialEq, Eq)]
pub enum OutboundAction {
    /// Send these payloads, in this order.
    Send(Vec<Payload>),
    /// Leave the command queue and listen.
    Listen,
}

/// What one command token comes to, as plain values.
pub enum OutboundOutcome {
    Send(Seq<PayloadView>),
    Listen,
    Unknown,
}

/// One step of the outbound path: the text mode after it, and its outcome.
pub struct OutboundStep {
    pub text_mode: bool,
    pub outcome: OutboundOutcome,
}

/// The outbound path.
///
/// In text mode every token goes out as it is; one that closes text mode is
/// followed by the closing code and ends the mode. Outside text mode a token
/// that asks to listen does that; one that names a code sends it, and the
/// opening code begins text mode; any other token is unknown.
pub open spec fn spec_outbound(text_mode: bool, token: Seq<char>) -> OutboundStep {
    if text_mode {
        if spec_is_text_end(token) {
            OutboundStep {
                text_mode: false,
                outcome: OutboundOutcome::Send(
                    seq![spec_raw_text(token), spec_signal(ControlCode::Etx)],
                ),
            }
        } else {
            OutboundStep {
                text_mode: true,
                outcome: OutboundOutcome::Send(seq![spec_raw_text(token)]),
            }
        }
    } else if spec_is_listen_token(token) {
        OutboundStep { text_mode: false, outcome: OutboundOutcome::Listen }
    } else {
        match spec_resolve(token) {
            Some(code) => OutboundStep {
                text_mode: code == ControlCode::Stx,
                outcome: OutboundOutcome::Send(seq![spec_signal(code)]),
            },
            None => OutboundStep { text_mode: false, outcome: OutboundOutcome::Unknown },
        }
    }
}

/// What to do about one received byte.
#[derive(Clone, Debug, PartialEq, Eq)]
pub enum InboundAction {
    /// An acknowledgement, a refusal or a substitute arrived: note it.
    Note(ControlCode),
    /// The microcontroller asks for the orientation: ask the display
    /// service, and answer with what `orientation_reply` makes of it.
    QueryOrientation,
    /// Answer with this payload.
    Answer(Payload),
    /// Answer with this payload, then end the session.
    AnswerAndExit(Payload),
    /// The mount was turned: make the rotation's calls, and answer with what
    /// `Rotation::conclude` makes of their outcome.
    Rotate(Rotation),
    /// The byte stands for nothing that is expected here: answer with this
    /// payload.
    Unrecognized(u8, Payload),
}

/// An inbound action as plain values.
pub enum InboundActionView {
    Note(ControlCode),
    QueryOrientation,
    Answer(PayloadView),
    AnswerAndExit(PayloadView),
    Rotate(RotationView),
    Unrecognized(u8, PayloadView),
}

impl View for InboundAction {
    type V = InboundActionView;

    open spec fn view(&self) -> InboundActionView {
        match self {
            InboundAction::Note(code) => InboundActionView::Note(*code),
            InboundAction::QueryOrientation => InboundActionView::QueryOrientation,
            InboundAction::Answer(p) => InboundActionView::Answer(p@),
            InboundAction::AnswerAndExit(p) => InboundActionView::AnswerAndExit(p@),
            InboundAction::Rotate(rotation) => InboundActionView::Rotate(rotation@),
            InboundAction::Unrecognized(byte, p) => InboundActionView::Unrecognized(*byte, p@),
        }
    }
}

/// The inbound path: the action for each byte that can arrive.
pub open spec fn spec_inbound(side: Seq<char>, main: Seq<char>, byte: u8) -> InboundActionView {
    if byte == ControlCode::Ack.spec_byte() {
        InboundActionView::Note(ControlCode::Ack)
    } else if byte == ControlCode::Nak.spec_byte() {
        InboundActionView::Note(ControlCode::Nak)
    } else if byte == ControlCode::Sub.spec_byte() {
        InboundActionView::Note(ControlCode::Sub)
    } else if byte == ControlCode::Enq.spec_byte() {
        InboundActionView::QueryOrientation
    } else if byte == ControlCode::Syn.spec_byte() {
        InboundActionView::Answer(spec_signal(ControlCode::Ack))
    } else if byte == ControlCode::Eot.spec_byte() {
        InboundActionView::AnswerAndExit(spec_signal(ControlCode::Ack))
    } else if ControlCode::Dc1.spec_byte() <= byte <= ControlCode::Dc4.spec_byte() {
        InboundActionView::Rotate(
            spec_rotation(side, main, (byte - ControlCode::Dc1.spec_byte()) as u8),
        )
    } else {
        InboundActionView::Unrecognized(byte, spec_signal(ControlCode::Sub))
    }
}

/// The engine after a byte has arrived: only the end of transmission
/// changes it, by ending the listening.
pub open spec fn spec_after_inbound(engine: ProtocolEngine, byte: u8) -> ProtocolEngine {
    ProtocolEngine {
        text_mode: engine.text_mode,
        listening: engine.listening && byte != ControlCode::Eot.spec_byte(),
    }
}

/// Whether a byte is one that the inbound path has an action of its own for.
pub open spec fn is_expected_inbound(byte: u8) -> bool {
    ||| byte == ControlCode::Ack.spec_byte()
    ||| byte == ControlCode::Nak.spec_byte()
    ||| byte == ControlCode::Sub.spec_byte()
    ||| byte == ControlCode::Enq.spec_byte()
    ||| byte == ControlCode::Syn.spec_byte()
    ||| byte == ControlCode::Eot.spec_byte()
    ||| ControlCode::Dc1.spec_byte() <= byte <= ControlCode::Dc4.spec_byte()
}

/// The payloads that an inbound action sends at once, before anything is
/// asked of a collaborator.
pub open spec fn spec_immediate_sends(action: InboundActionView) -> Seq<PayloadView> {
    match action {
        InboundActionView::Answer(p) => seq![p],
        InboundActionView::AnswerAndExit(p) => seq![p],
        InboundActionView::Unrecognized(_, p) => seq![p],
        _ => seq![],
    }
}

/// The line that notes the receipt of a byte.
pub open spec fn spec_notice(action: InboundActionView) -> Seq<char> {
    match action {
        InboundActionView::Note(code) => code.spec_alias() + " received."@,
        InboundActionView::QueryOrientation => "ENQ received.\nGetting monitor data..."@,
        InboundActionView::Answer(_) => "SYN received."@,
        InboundActionView::AnswerAndExit(_) => "EOT received."@,
        InboundActionView::Rotate(rotation) => "DC"@ + spec_decimal((rotation.code + 1) as nat)
            + " received.\nRotating monitor..."@,
        InboundActionView::Unrecognized(byte, _) => ProtocolError::UnrecognizedInboundCode(
            byte,
        ).spec_message(),
    }
}

impl InboundAction {
    /// The payloads that this action sends at once.
    pub fn immediate_sends(&self) -> (sends: Vec<Payload>)
        ensures
            views(sends@) == spec_immediate_sends(self@),
    {
        let mut sends: Vec<Payload> = Vec::new();
        match self {
            InboundAction::Answer(p) => {
                sends.push(p.clone());
            },
            InboundAction::AnswerAndExit(p) => {
                sends.push(p.clone());
            },
            InboundAction::Unrecognized(_, p) => {
                sends.push(p.clone());
            },
            _ => {},
        }
        assert(views(sends@) =~= spec_immediate_sends(self@));
        sends
    }

    /// Whether the session ends once this action is done.
    pub fn ends_session(&self) -> (ends: bool)
        ensures
            ends == (self is AnswerAndExit),
    {
        match self {
            InboundAction::AnswerAndExit(_) => true,
            _ => false,
        }
    }

    /// The line that notes the receipt.
    pub fn notice(&self) -> (line: String)
        ensures
            line@ == spec_notice(self@),
    {
        match self {
            InboundAction::Note(code) => {
                let mut line = String::from_str(code.alias());
                line.append(" received.");
                line
            },
            InboundAction::QueryOrientation => String::from_str(
                "ENQ received.\nGetting monitor data...",
            ),
            InboundAction::Answer(_) => String::from_str("SYN received."),
            InboundAction::AnswerAndExit(_) => String::from_str("EOT received."),
            InboundAction::Rotate(rotation) => {
                let mut line = String::from_str("DC");
                let number = decimal(rotation.code as u64 + 1);
                line.append(number.as_str());
                line.append(" received.\nRotating monitor...");
                line
            },
            InboundAction::Unrecognized(byte, _) => ProtocolError::UnrecognizedInboundCode(
                *byte,
            ).message(),
        }
    }
}

impl ProtocolEngine {
    /// The engine at the start of a session: not in text mode, not
    /// listening.
    pub fn new() -> (engine: ProtocolEngine)
        ensures
            !engine.text_mode,
            !engine.listening,
    {
        ProtocolEngine { text_mode: false, listening: false }
    }

    /// Handles one command token.
    ///
    /// The token comes to what `spec_outbound` says for the text mode that
    /// the engine is in: payloads to send, the order to listen, or the
    /// failure `UnknownCommand` with the token in it. An unknown token sends
    /// nothing and leaves the engine as it was.
    pub fn handle_outbound(&mut self, token: &str) -> (result: Result<
        OutboundAction,
        ProtocolError,
    >)
        ensures
            final(self).text_mode == spec_outbound(old(self).text_mode, token@).text_mode,
            final(self).listening == (old(self).listening || spec_outbound(
                old(self).text_mode,
                token@,
            ).outcome is Listen),
            match spec_outbound(old(self).text_mode, token@).outcome {
                OutboundOutcome::Send(payloads) => result matches Ok(OutboundAction::Send(sent))
                    && views(sent@) == payloads,
                OutboundOutcome::Listen => result matches Ok(OutboundAction::Listen),
                OutboundOutcome::Unknown => {
                    &&& result matches Err(ProtocolError::UnknownCommand(unknown))
                    &&& unknown@ == token@
                    &&& *final(self) == *old(self)
                },
            },
    {
        let mut payloads: Vec<Payload> = Vec::new();
        if self.text_mode {
            payloads.push(Payload::raw_text(token));
            if is_text_end(token) {
                self.text_mode = false;
                payloads.push(Payload::signal(ControlCode::Etx));
                assert(views(payloads@) =~= seq![
                    spec_raw_text(token@),
                    spec_signal(ControlCode::Etx),
                ]);
            } else {
                assert(views(payloads@) =~= seq![spec_raw_text(token@)]);
            }
            Ok(OutboundAction::Send(payloads))
        } else if is_listen_token(token) {
            self.listening = true;
            Ok(OutboundAction::Listen)
        } else {
            match resolve(token) {
                Some(code) => {
                    if code == ControlCode::Stx {
                        self.text_mode = true;
                    }
                    payloads.push(Payload::signal(code));
                    assert(views(payloads@) =~= seq![spec_signal(code)]);
                    Ok(OutboundAction::Send(payloads))
                },
                None => Err(ProtocolError::UnknownCommand(String::from_str(token))),
            }
        }
    }

    /// Handles one received byte.
    ///
    /// The action is what `spec_inbound` says for the byte. Only the end of
    /// transmission changes the engine: it ends the listening.
    pub fn handle_inbound(&mut self, args: &Args, byte: u8) -> (action: InboundAction)
        ensures
            action@ == spec_inbound(args.side_monitor@, args.main_monitor@, byte),
            *final(self) == spec_after_inbound(*old(self), byte),
    {
        if byte == ControlCode::Ack.byte() {
            InboundAction::Note(ControlCode::Ack)
        } else if byte == ControlCode::Nak.byte() {
            InboundAction::Note(ControlCode::Nak)
        } else if byte == ControlCode::Sub.byte() {
            InboundAction::Note(ControlCode::Sub)
        } else if byte == ControlCode::Enq.byte() {
            InboundAction::QueryOrientation
        } else if byte == ControlCode::Syn.byte() {
            InboundAction::Answer(Payload::signal(ControlCode::Ack))
        } else if byte == ControlCode::Eot.byte() {
            self.listening = false;
            InboundAction::AnswerAndExit(Payload::signal(ControlCode::Ack))
        } else if ControlCode::Dc1.byte() <= byte && byte <= ControlCode::Dc4.byte() {
            InboundAction::Rotate(Rotation::plan(args, byte - ControlCode::Dc1.byte()))
        } else {
            InboundAction::Unrecognized(byte, Payload::signal(ControlCode::Sub))
        }
    }
}

/// The end of transmission is acknowledged with a single payload, and ends
/// the session and the listening.
pub proof fn lemma_end_of_transmission(engine: ProtocolEngine, side: Seq<char>, main: Seq<char>)
    ensures
        spec_inbound(side, main, ControlCode::Eot.spec_byte())
            == InboundActionView::AnswerAndExit(spec_signal(ControlCode::Ack)),
        spec_immediate_sends(spec_inbound(side, main, ControlCode::Eot.spec_byte())) == seq![
            spec_signal(ControlCode::Ack),
        ],
        !spec_after_inbound(engine, ControlCode::Eot.spec_byte()).listening,
{
}

/// Each of the four device-control bytes asks for a rotation by the byte's
/// distance from the first of them, which is at most three. An even number
/// of quarter turns puts the main display at `1920x0` and lays the terminal
/// out as a grid; an odd one puts it at `1080x400` and lays the terminal out
/// as a column. Nothing is sent before the calls have been made.
pub proof fn lemma_device_control_rotates(side: Seq<char>, main: Seq<char>, byte: u8)
    requires
        ControlCode::Dc1.spec_byte() <= byte <= ControlCode::Dc4.spec_byte(),
    ensures
        spec_inbound(side, main, byte) matches InboundActionView::Rotate(rotation) && {
            &&& rotation.code == byte - ControlCode::Dc1.spec_byte()
            &&& 0 <= rotation.code <= 3
            &&& rotation == spec_rotation(side, main, rotation.code)
            &&& rotation.calls.len() == 3
            &&& rotation.calls[0] == (ActuatorCallView::Keyword {
                key: "monitor"@,
                value: side + ",transform,"@ + seq![spec_digit(rotation.code as int)],
            })
            &&& rotation.code % 2 == 0 ==> {
                &&& rotation.calls[1] == (ActuatorCallView::Keyword {
                    key: "monitor"@,
                    value: main + ",1920x1080@144,"@ + "1920x0"@ + ",1"@,
                })
                &&& rotation.calls[2] matches ActuatorCallView::Terminal { arguments, .. }
                &&& arguments.len() == 7
                &&& arguments[6] == "grid"@
            }
            &&& rotation.code % 2 == 1 ==> {
                &&& rotation.calls[1] == (ActuatorCallView::Keyword {
                    key: "monitor"@,
                    value: main + ",1920x1080@144,"@ + "1080x400"@ + ",1"@,
                })
                &&& rotation.calls[2] matches ActuatorCallView::Terminal { arguments, .. }
                &&& arguments.len() == 7
                &&& arguments[6] == "vertical"@
            }
        },
        spec_immediate_sends(spec_inbound(side, main, byte)) == Seq::<PayloadView>::empty(),
{
}

/// A byte that the inbound path has no action of its own for is answered
/// with a single substitute, and leaves the engine as it was.
pub proof fn lemma_unrecognized_byte(
    engine: ProtocolEngine,
    side: Seq<char>,
    main: Seq<char>,
    byte: u8,
)
    requires
        !is_expected_inbound(byte),
    ensures
        spec_inbound(side, main, byte) == InboundActionView::Unrecognized(
            byte,
            spec_signal(ControlCode::Sub),
        ),
        spec_immediate_sends(spec_inbound(side, main, byte)) == seq![
            spec_signal(ControlCode::Sub),
        ],
        spec_after_inbound(engine, byte) == engine,
{
}

/// An unknown token sends nothing and leaves the text mode as it was.
pub proof fn lemma_unknown_token_sends_nothing(token: Seq<char>)
    requires
        !spec_is_listen_token(token),
        spec_resolve(token) is None,
    ensures
        spec_outbound(false, token).outcome is Unknown,
        !spec_outbound(false, token).text_mode,
{
}

} // verus!
