//! What the protocol asks of the display service and of the terminal, and
//! what it answers the microcontroller once they have been asked.
//!
//! Nothing here talks to either of them: a rotation is laid out as a list of
//! calls for the caller to make, and the answer to a query is worked out from
//! what the caller read.

use vstd::prelude::*;
use vstd::string::StringExecFns;
use crate::codes::{same_text, ControlCode};
use crate::config::Args;
use crate::error::ProtocolError;
use crate::payload::{spec_reading, spec_signal, views, Payload, PayloadView};
use crate::text::{decimal, spec_decimal, texts};

verus! {

/// One display as the display service reports it.
#[derive(Clone, Debug, PartialEq, Eq)]
pub struct MonitorState {
    pub name: String,
    /// The transform as the service numbers it; its remainder by four is
    /// the number of quarter turns.
    pub transform: u8,
}

/// One call for the caller to make.
#[derive(Clone, Debug, PartialEq, Eq)]
pub enum ActuatorCall {
    /// Set a keyword of the display service to a value.
    Keyword { key: String, value: String },
    /// Run a program with these arguments and wait for it.
    Terminal { program: String, arguments: Vec<String> },
}

/// A call as plain values.
pub enum ActuatorCallView {
    Keyword { key: Seq<char>, value: Seq<char> },
    Terminal { program: Seq<char>, arguments: Seq<Seq<char>> },
}

impl View for ActuatorCall {
    type V = ActuatorCallView;

    open spec fn view(&self) -> ActuatorCallView {
        match self {
            ActuatorCall::Keyword { key, value } => ActuatorCallView::Keyword {
                key: key@,
                value: value@,
            },
            ActuatorCall::Terminal { program, arguments } => ActuatorCallView::Terminal {
                program: program@,
                arguments: texts(arguments@),
            },
        }
    }
}

/// The calls of a list, each as plain values.
pub open spec fn call_views(list: Seq<ActuatorCall>) -> Seq<ActuatorCallView> {
    list.map_values(|c: ActuatorCall| c@)
}

/// What an orientation change asks for: the number of quarter turns, and the
/// calls that bring the displays and the terminal there, in the order in
/// which they are to be made.
#[derive(Clone, Debug, PartialEq, Eq)]
pub struct Rotation {
    pub code: u8,
    pub calls: Vec<ActuatorCall>,
}

/// A rotation as plain values.
pub struct RotationView {
    pub code: u8,
    pub calls: Seq<ActuatorCallView>,
}

impl View for Rotation {
    type V = RotationView;

    open spec fn view(&self) -> RotationView {
        RotationView { code: self.code, calls: call_views(self.calls@) }
    }
}

/// The terminal layout for a number of quarter turns: a grid when the side
/// display lies, a column when it stands.
pub open spec fn spec_layout(code: u8) -> Seq<char> {
    if code % 2 == 0 {
        "grid"@
    } else {
        "vertical"@
    }
}

/// Where the main display goes for a number of quarter turns.
pub open spec fn spec_position(code: u8) -> Seq<char> {
    if code % 2 == 0 {
        "1920x0"@
    } else {
        "1080x400"@
    }
}

/// The keyword value that turns the side display.
pub open spec fn spec_side_keyword(side: Seq<char>, code: u8) -> Seq<char> {
    side + ",transform,"@ + spec_decimal(code as nat)
}

/// The keyword value that sets the main display's resolution, position and
/// scale.
pub open spec fn spec_main_keyword(main: Seq<char>, code: u8) -> Seq<char> {
    main + ",1920x1080@144,"@ + spec_position(code) + ",1"@
}

/// The arguments that make the terminal switch every tab to a layout.
pub open spec fn spec_terminal_arguments(code: u8) -> Seq<Seq<char>> {
    seq![
        "@"@,
        "--to"@,
        "tcp:localhost:65065"@,
        "goto-layout"@,
        "-m"@,
        "all"@,
        spec_layout(code),
    ]
}

/// The rotation for a number of quarter turns: the side display is turned
/// first, then the main display is placed, then the terminal is laid out.
pub open spec fn spec_rotation(side: Seq<char>, main: Seq<char>, code: u8) -> RotationView {
    RotationView {
        code,
        calls: seq![
            ActuatorCallView::Keyword { key: "monitor"@, value: spec_side_keyword(side, code) },
            ActuatorCallView::Keyword { key: "monitor"@, value: spec_main_keyword(main, code) },
            ActuatorCallView::Terminal {
                program: "kitty"@,
                arguments: spec_terminal_arguments(code),
            },
        ],
    }
}

/// What is sent when the side display was found: an acknowledgement, its
/// number of quarter turns, and the configured angle threshold.
pub open spec fn spec_orientation_found(transform: u8, threshold: u8) -> Seq<PayloadView> {
    seq![
        spec_signal(ControlCode::Ack),
        spec_reading("monitor orientation"@, transform % 4),
        spec_reading("angle threshold"@, threshold),
    ]
}

/// What is sent when the orientation cannot be told.
pub open spec fn spec_orientation_unknown() -> Seq<PayloadView> {
    seq![spec_signal(ControlCode::Nak)]
}

/// Whether `index` is the place of the first display called `name`.
pub open spec fn is_first_named(monitors: Seq<MonitorState>, name: Seq<char>, index: int) -> bool {
    &&& 0 <= index < monitors.len()
    &&& monitors[index].name@ == name
    &&& forall|j: int| 0 <= j < index ==> monitors[j].name@ != name
}

/// Whether no display is called `name`.
pub open spec fn none_named(monitors: Seq<MonitorState>, name: Seq<char>) -> bool {
    forall|j: int| 0 <= j < monitors.len() ==> monitors[j].name@ != name
}

/// The answer to an orientation query: what to send, and what went wrong if
/// the orientation could not be told.
#[derive(Clone, Debug, PartialEq, Eq)]
pub struct OrientationReply {
    pub payloads: Vec<Payload>,
    pub failure: Option<ProtocolError>,
}

/// The terminal layout for a number of quarter turns.
pub fn layout_for(code: u8) -> (name: &'static str)
    ensures
        name@ == spec_layout(code),
{
    if code % 2 == 0 {
        "grid"
    } else {
        "vertical"
    }
}

/// Where the main display goes for a number of quarter turns.
pub fn position_for(code: u8) -> (place: &'static str)
    ensures
        place@ == spec_position(code),
{
    if code % 2 == 0 {
        "1920x0"
    } else {
        "1080x400"
    }
}

/// The first display called `name`, if there is one.
pub fn find_monitor(monitors: &Vec<MonitorState>, name: &str) -> (found: Option<usize>)
    ensures
        match found {
            Some(i) => is_first_named(monitors@, name@, i as int),
            None => none_named(monitors@, name@),
        },
{
    let mut i: usize = 0;
    while i < monitors.len()
        invariant
            i <= monitors.len(),
            forall|j: int| 0 <= j < i ==> monitors@[j].name@ != name@,
        decreases monitors.len() - i,
    {
        if same_text(monitors[i].name.as_str(), name) {
            return Some(i);
        }
        i += 1;
    }
    None
}

impl Rotation {
    /// Lays out the rotation for a number of quarter turns.
    pub fn plan(args: &Args, code: u8) -> (rotation: Rotation)
        ensures
            rotation@ == spec_rotation(args.side_monitor@, args.main_monitor@, code),
    {
        let mut side = args.side_monitor.clone();
        side.append(",transform,");
        let turns = decimal(code as u64);
        side.append(turns.as_str());

        let mut main = args.main_monitor.clone();
        main.append(",1920x1080@144,");
        main.append(position_for(code));
        main.append(",1");

        let mut arguments: Vec<String> = Vec::new();
        arguments.push(String::from_str("@"));
        arguments.push(String::from_str("--to"));
        arguments.push(String::from_str("tcp:localhost:65065"));
        arguments.push(String::from_str("goto-layout"));
        arguments.push(String::from_str("-m"));
        arguments.push(String::from_str("all"));
        arguments.push(String::from_str(layout_for(code)));
        assert(texts(arguments@) =~= spec_terminal_arguments(code));

        let mut calls: Vec<ActuatorCall> = Vec::new();
        calls.push(ActuatorCall::Keyword { key: String::from_str("monitor"), value: side });
        calls.push(ActuatorCall::Keyword { key: String::from_str("monitor"), value: main });
        calls.push(ActuatorCall::Terminal { program: String::from_str("kitty"), arguments });
        let rotation = Rotation { code, calls };
        assert(rotation@.calls =~= spec_rotation(
            args.side_monitor@,
            args.main_monitor@,
            code,
        ).calls);
        rotation
    }

    /// What follows once the calls have been made: an acknowledgement if all
    /// of them went through, and the end of the session if one did not.
    pub fn conclude(outcome: Result<(), String>) -> (reply: Result<Payload, ProtocolError>)
        ensures
            match outcome {
                Ok(_) => reply matches Ok(p) && p@ == spec_signal(ControlCode::Ack),
                Err(e) => reply matches Err(ProtocolError::ActuatorFailure(m)) && m@ == e@,
            },
            reply matches Err(failure) ==> failure.spec_is_fatal(),
    {
        match outcome {
            Ok(_) => Ok(Payload::signal(ControlCode::Ack)),
            Err(e) => Err(ProtocolError::ActuatorFailure(e)),
        }
    }
}

/// Answers an orientation query from what the display service said.
///
/// Where the service answered and knows the side display, three payloads go
/// out: an acknowledgement, the display's number of quarter turns, and the
/// configured threshold. Where it does not know the display, or could not be
/// asked, a single negative acknowledgement goes out and the failure is
/// named; neither ends the session.
pub fn orientation_reply(args: &Args, reading: &Result<Vec<MonitorState>, String>) -> (reply:
    OrientationReply)
    ensures
        match *reading {
            Ok(monitors) => {
                &&& forall|i: int|
                    is_first_named(monitors@, args.side_monitor@, i) ==> {
                        &&& views(reply.payloads@) == spec_orientation_found(
                            monitors@[i].transform,
                            args.threshold,
                        )
                        &&& reply.failure is None
                    }
                &&& none_named(monitors@, args.side_monitor@) ==> {
                    &&& views(reply.payloads@) == spec_orientation_unknown()
                    &&& reply.failure matches Some(ProtocolError::MonitorNotFound(name))
                    &&& name@ == args.side_monitor@
                }
            },
            Err(e) => {
                &&& views(reply.payloads@) == spec_orientation_unknown()
                &&& reply.failure matches Some(ProtocolError::DisplayQueryFailure(m))
                &&& m@ == e@
            },
        },
        reply.failure matches Some(failure) ==> !failure.spec_is_fatal(),
{
    let mut payloads: Vec<Payload> = Vec::new();
    let found = match reading {
        Ok(monitors) => match find_monitor(monitors, args.side_monitor.as_str()) {
            Some(i) => Ok(monitors[i].transform),
            None => Err(ProtocolError::MonitorNotFound(args.side_monitor.clone())),
        },
        Err(e) => Err(ProtocolError::DisplayQueryFailure(e.clone())),
    };
    match found {
        Ok(transform) => {
            payloads.push(Payload::signal(ControlCode::Ack));
            payloads.push(Payload::reading("monitor orientation", transform % 4));
            payloads.push(Payload::reading("angle threshold", args.threshold));
            assert(views(payloads@) =~= spec_orientation_found(transform, args.threshold));
            OrientationReply { payloads, failure: None }
        },
        Err(failure) => {
            payloads.push(Payload::signal(ControlCode::Nak));
            assert(views(payloads@) =~= spec_orientation_unknown());
            OrientationReply { payloads, failure: Some(failure) }
        },
    }
}

} // verus!
