//! What goes out on the serial line: the bytes of one send and the label
//! under which the send is reported.

use vstd::prelude::*;
use vstd::string::StringExecFns;
use vstd::utf8::encode_utf8;
use crate::codes::ControlCode;
use crate::text::{hex_byte, spec_hex_byte};

verus! {

/// One send: the bytes to write, and the label for its status line.
#[derive(Debug, PartialEq, Eq)]
pub struct Payload {
    pub bytes: Vec<u8>,
    pub label: String,
}

/// A payload as plain values.
pub struct PayloadView {
    pub bytes: Seq<u8>,
    pub label: Seq<char>,
}

impl View for Payload {
    type V = PayloadView;

    open spec fn view(&self) -> PayloadView {
        PayloadView { bytes: self.bytes@, label: self.label@ }
    }
}

impl Clone for Payload {
    fn clone(&self) -> (copy: Payload)
        ensures
            copy@ == self@,
    {
        Payload { bytes: self.bytes.clone(), label: self.label.clone() }
    }
}

/// The payloads of a list, each as plain values.
pub open spec fn views(list: Seq<Payload>) -> Seq<PayloadView> {
    list.map_values(|p: Payload| p@)
}

/// A control code on its own: its one byte, labelled with its alias.
pub open spec fn spec_signal(code: ControlCode) -> PayloadView {
    PayloadView { bytes: seq![code.spec_byte()], label: code.spec_alias() }
}

/// A string sent as it is: its UTF-8 bytes, labelled with the string.
pub open spec fn spec_raw_text(text: Seq<char>) -> PayloadView {
    PayloadView { bytes: encode_utf8(text), label: text }
}

/// A measured value: the one byte, labelled with what it is and the byte
/// in hexadecimal.
pub open spec fn spec_reading(what: Seq<char>, value: u8) -> PayloadView {
    PayloadView { bytes: seq![value], label: what + seq![' '] + spec_hex_byte(value) }
}

/// The line that announces a send.
pub open spec fn spec_announcement(label: Seq<char>) -> Seq<char> {
    "Sending "@ + label + "..."@
}

/// The line that closes a send: how the write and the flush went.
pub open spec fn spec_send_report(outcome: Result<(), String>) -> Seq<char> {
    match outcome {
        Ok(_) => "done"@,
        Err(e) => "error, couldn't send: "@ + e@,
    }
}

impl Payload {
    /// A control code on its own.
    pub fn signal(code: ControlCode) -> (p: Payload)
        ensures
            p@ == spec_signal(code),
    {
        let mut bytes: Vec<u8> = Vec::new();
        bytes.push(code.byte());
        let p = Payload { bytes, label: String::from_str(code.alias()) };
        proof {
            assert(p.bytes@ =~= seq![code.spec_byte()]);
        }
        p
    }

    /// A string sent as it is, with no byte of it translated.
    pub fn raw_text(text: &str) -> (p: Payload)
        ensures
            p@ == spec_raw_text(text@),
    {
        Payload { bytes: text.as_bytes_vec(), label: String::from_str(text) }
    }

    /// A measured value, such as an orientation or a threshold.
    pub fn reading(what: &str, value: u8) -> (p: Payload)
        ensures
            p@ == spec_reading(what@, value),
    {
        let mut bytes: Vec<u8> = Vec::new();
        bytes.push(value);
        let mut label = String::from_str(what);
        label.append(" ");
        let hex = hex_byte(value);
        label.append(hex.as_str());
        let p = Payload { bytes, label };
        proof {
            reveal_strlit(" ");
            assert(" "@ =~= seq![' ']);
            assert(p.bytes@ =~= seq![value]);
        }
        p
    }

    /// The line that announces this send.
    pub fn announcement(&self) -> (line: String)
        ensures
            line@ == spec_announcement(self.label@),
    {
        let mut line = String::from_str("Sending ");
        line.append(self.label.as_str());
        line.append("...");
        line
    }
}

/// The line that closes a send. A send that failed is reported and nothing
/// more: the session goes on either way.
pub fn send_report(outcome: &Result<(), String>) -> (line: String)
    ensures
        line@ == spec_send_report(*outcome),
{
    match outcome {
        Ok(_) => String::from_str("done"),
        Err(e) => {
            let mut line = String::from_str("error, couldn't send: ");
            line.append(e.as_str());
            line
        },
    }
}

} // verus!
