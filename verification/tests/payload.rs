use inoctl::codes::ControlCode;
use inoctl::payload::{send_report, Payload};

#[test]
fn a_signal_is_one_byte_labelled_with_the_alias() {
    let p = Payload::signal(ControlCode::Ack);
    assert_eq!(p.bytes, vec![0x06]);
    assert_eq!(p.label, "ACK");
    let q = Payload::signal(ControlCode::Dc3);
    assert_eq!(q.bytes, vec![0x13]);
    assert_eq!(q.label, "DC3");
}

#[test]
fn raw_text_is_forwarded_byte_for_byte() {
    let p = Payload::raw_text("hello");
    assert_eq!(p.bytes, vec![0x68, 0x65, 0x6C, 0x6C, 0x6F]);
    assert_eq!(p.label, "hello");
}

#[test]
fn raw_text_keeps_utf8() {
    let p = Payload::raw_text("h\u{e9}llo");
    assert_eq!(p.bytes, vec![0x68, 0xC3, 0xA9, 0x6C, 0x6C, 0x6F]);
    assert_eq!(p.label, "h\u{e9}llo");
}

#[test]
fn raw_text_does_not_translate_command_words() {
    let p = Payload::raw_text("start");
    assert_eq!(p.bytes, "start".as_bytes().to_vec());
    assert_ne!(p.bytes, vec![0x11]);
    let empty = Payload::raw_text("");
    assert!(empty.bytes.is_empty());
    assert_eq!(empty.label, "");
}

#[test]
fn a_reading_is_labelled_in_hexadecimal() {
    let p = Payload::reading("monitor orientation", 1);
    assert_eq!(p.bytes, vec![1]);
    assert_eq!(p.label, "monitor orientation 0x01");
    let q = Payload::reading("angle threshold", 65);
    assert_eq!(q.bytes, vec![65]);
    assert_eq!(q.label, "angle threshold 0x41");
}

#[test]
fn a_clone_is_equal() {
    let p = Payload::reading("angle threshold", 200);
    assert_eq!(p.clone(), p);
}

#[test]
fn announcement_names_the_label() {
    assert_eq!(Payload::signal(ControlCode::Enq).announcement(), "Sending ENQ...");
    assert_eq!(Payload::raw_text("hi there").announcement(), "Sending hi there...");
}

#[test]
fn send_report_of_a_success() {
    assert_eq!(send_report(&Ok(())), "done");
}

#[test]
fn send_report_of_a_failure() {
    assert_eq!(
        send_report(&Err(String::from("Broken pipe"))),
        "error, couldn't send: Broken pipe"
    );
}
