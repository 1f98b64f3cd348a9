use inoctl::codes::ControlCode;
use inoctl::config::Args;
use inoctl::display::{
    find_monitor, layout_for, orientation_reply, position_for, ActuatorCall, MonitorState,
    Rotation,
};
use inoctl::error::ProtocolError;
use inoctl::payload::Payload;

fn monitor(name: &str, transform: u8) -> MonitorState {
    MonitorState { name: String::from(name), transform }
}

#[test]
fn layout_and_position_follow_the_parity() {
    assert_eq!(layout_for(0), "grid");
    assert_eq!(layout_for(1), "vertical");
    assert_eq!(layout_for(2), "grid");
    assert_eq!(layout_for(3), "vertical");
    assert_eq!(position_for(0), "1920x0");
    assert_eq!(position_for(1), "1080x400");
    assert_eq!(position_for(2), "1920x0");
    assert_eq!(position_for(3), "1080x400");
}

#[test]
fn find_monitor_gives_the_first_of_that_name() {
    let monitors = vec![monitor("DP-1", 0), monitor("HDMI-A-1", 1), monitor("HDMI-A-1", 2)];
    assert_eq!(find_monitor(&monitors, "HDMI-A-1"), Some(1));
    assert_eq!(find_monitor(&monitors, "DP-1"), Some(0));
    assert_eq!(find_monitor(&monitors, "DP-2"), None);
    assert_eq!(find_monitor(&monitors, "hdmi-a-1"), None);
    assert_eq!(find_monitor(&Vec::new(), "DP-1"), None);
}

#[test]
fn orientation_of_a_known_monitor_is_three_sends() {
    let args = Args::default();
    let reading = Ok(vec![monitor("DP-1", 0), monitor("HDMI-A-1", 1)]);
    let reply = orientation_reply(&args, &reading);
    assert_eq!(reply.failure, None);
    assert_eq!(reply.payloads.len(), 3);
    assert_eq!(reply.payloads[0], Payload::signal(ControlCode::Ack));
    assert_eq!(reply.payloads[0].bytes, vec![0x06]);
    assert_eq!(reply.payloads[1].bytes, vec![1]);
    assert_eq!(reply.payloads[1].label, "monitor orientation 0x01");
    assert_eq!(reply.payloads[2].bytes, vec![65]);
    assert_eq!(reply.payloads[2].label, "angle threshold 0x41");
}

#[test]
fn orientation_is_the_transform_modulo_four() {
    let mut args = Args::default();
    args.threshold = 90;
    for transform in 0..=255u8 {
        let reading = Ok(vec![monitor("HDMI-A-1", transform)]);
        let reply = orientation_reply(&args, &reading);
        assert_eq!(reply.payloads.len(), 3);
        assert_eq!(reply.payloads[1].bytes, vec![transform % 4]);
        assert_eq!(reply.payloads[2].bytes, vec![90]);
    }
    let flipped = orientation_reply(&args, &Ok(vec![monitor("HDMI-A-1", 7)]));
    assert_eq!(flipped.payloads[1].bytes, vec![3]);
    assert_eq!(flipped.payloads[1].label, "monitor orientation 0x03");
    assert_eq!(flipped.payloads[2].label, "angle threshold 0x5a");
}

#[test]
fn orientation_uses_the_configured_monitor() {
    let mut args = Args::default();
    args.side_monitor = String::from("DP-3");
    let reading = Ok(vec![monitor("HDMI-A-1", 1), monitor("DP-3", 2)]);
    let reply = orientation_reply(&args, &reading);
    assert_eq!(reply.payloads[1].bytes, vec![2]);
}

#[test]
fn orientation_of_an_absent_monitor_is_one_refusal() {
    let args = Args::default();
    let reading = Ok(vec![monitor("DP-1", 0), monitor("DP-2", 1)]);
    let reply = orientation_reply(&args, &reading);
    assert_eq!(reply.payloads, vec![Payload::signal(ControlCode::Nak)]);
    assert_eq!(reply.payloads[0].bytes, vec![0x15]);
    assert_eq!(reply.failure, Some(ProtocolError::MonitorNotFound(String::from("HDMI-A-1"))));
    let none = orientation_reply(&args, &Ok(Vec::new()));
    assert_eq!(none.payloads, vec![Payload::signal(ControlCode::Nak)]);
}

#[test]
fn orientation_after_a_failed_query_is_one_refusal() {
    let args = Args::default();
    let reading = Err(String::from("no socket"));
    let reply = orientation_reply(&args, &reading);
    assert_eq!(reply.payloads, vec![Payload::signal(ControlCode::Nak)]);
    assert_eq!(reply.failure, Some(ProtocolError::DisplayQueryFailure(String::from("no socket"))));
}

#[test]
fn orientation_failures_do_not_end_the_session() {
    let args = Args::default();
    let absent = orientation_reply(&args, &Ok(Vec::new()));
    assert!(!absent.failure.unwrap().is_fatal());
    let failed = orientation_reply(&args, &Err(String::from("no socket")));
    assert!(!failed.failure.unwrap().is_fatal());
}

#[test]
fn rotation_plan_for_a_lying_display() {
    let args = Args::default();
    let rotation = Rotation::plan(&args, 2);
    assert_eq!(rotation.code, 2);
    assert_eq!(
        rotation.calls,
        vec![
            ActuatorCall::Keyword {
                key: String::from("monitor"),
                value: String::from("HDMI-A-1,transform,2"),
            },
            ActuatorCall::Keyword {
                key: String::from("monitor"),
                value: String::from("DP-1,1920x1080@144,1920x0,1"),
            },
            ActuatorCall::Terminal {
                program: String::from("kitty"),
                arguments: vec![
                    String::from("@"),
                    String::from("--to"),
                    String::from("tcp:localhost:65065"),
                    String::from("goto-layout"),
                    String::from("-m"),
                    String::from("all"),
                    String::from("grid"),
                ],
            },
        ]
    );
}

#[test]
fn rotation_plan_for_a_standing_display() {
    let mut args = Args::default();
    args.side_monitor = String::from("DP-3");
    args.main_monitor = String::from("eDP-1");
    let rotation = Rotation::plan(&args, 3);
    assert_eq!(rotation.code, 3);
    assert_eq!(
        rotation.calls[0],
        ActuatorCall::Keyword {
            key: String::from("monitor"),
            value: String::from("DP-3,transform,3"),
        }
    );
    assert_eq!(
        rotation.calls[1],
        ActuatorCall::Keyword {
            key: String::from("monitor"),
            value: String::from("eDP-1,1920x1080@144,1080x400,1"),
        }
    );
    match &rotation.calls[2] {
        ActuatorCall::Terminal { arguments, .. } => assert_eq!(arguments[6], "vertical"),
        other => panic!("expected a terminal call, got {:?}", other),
    }
}

#[test]
fn a_rotation_that_went_through_is_acknowledged() {
    assert_eq!(Rotation::conclude(Ok(())), Ok(Payload::signal(ControlCode::Ack)));
}

#[test]
fn a_rotation_that_failed_ends_the_session() {
    let reply = Rotation::conclude(Err(String::from("socket closed")));
    assert_eq!(reply, Err(ProtocolError::ActuatorFailure(String::from("socket closed"))));
    assert!(reply.unwrap_err().is_fatal());
}
