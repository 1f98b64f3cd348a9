//! The control-code alphabet: every code's byte, its command word and its
//! protocol alias, and the lookup from a command token to a code.

use vstd::prelude::*;
use vstd::utf8::{encode_utf8, encode_utf8_decode_utf8};

verus! {

/// One reserved byte of the protocol.
#[derive(Clone, Copy, Debug, PartialEq, Eq, Structural, Hash)]
pub enum ControlCode {
    Syn,
    Ack,
    Nak,
    Enq,
    Dc1,
    Dc2,
    Dc3,
    Dc4,
    Eot,
    Sub,
    Dle,
    Stx,
    Etx,
}

impl ControlCode {
    /// The byte that stands for this code on the wire.
    pub open spec fn spec_byte(self) -> u8 {
        match self {
            ControlCode::Syn => 0x16u8,
            ControlCode::Ack => 0x06u8,
            ControlCode::Nak => 0x15u8,
            ControlCode::Enq => 0x05u8,
            ControlCode::Dc1 => 0x11u8,
            ControlCode::Dc2 => 0x12u8,
            ControlCode::Dc3 => 0x13u8,
            ControlCode::Dc4 => 0x14u8,
            ControlCode::Eot => 0x04u8,
            ControlCode::Sub => 0x1Au8,
            ControlCode::Dle => 0x10u8,
            ControlCode::Stx => 0x02u8,
            ControlCode::Etx => 0x03u8,
        }
    }

    /// The word by which the command line calls this code. The four codes
    /// that only ever answer the microcontroller have no word of their own
    /// and go by their alias.
    pub open spec fn spec_human_name(self) -> Seq<char> {
        match self {
            ControlCode::Syn => "test-comms"@,
            ControlCode::Ack => "ACK"@,
            ControlCode::Nak => "NAK"@,
            ControlCode::Enq => "query"@,
            ControlCode::Dc1 => "start"@,
            ControlCode::Dc2 => "recalibrate"@,
            ControlCode::Dc3 => "stop"@,
            ControlCode::Dc4 => "stop-all"@,
            ControlCode::Eot => "EOT"@,
            ControlCode::Sub => "SUB"@,
            ControlCode::Dle => "ble-command"@,
            ControlCode::Stx => "text-start"@,
            ControlCode::Etx => "text-end"@,
        }
    }

    /// The protocol's own three-letter name of this code.
    pub open spec fn spec_alias(self) -> Seq<char> {
        match self {
            ControlCode::Syn => "SYN"@,
            ControlCode::Ack => "ACK"@,
            ControlCode::Nak => "NAK"@,
            ControlCode::Enq => "ENQ"@,
            ControlCode::Dc1 => "DC1"@,
            ControlCode::Dc2 => "DC2"@,
            ControlCode::Dc3 => "DC3"@,
            ControlCode::Dc4 => "DC4"@,
            ControlCode::Eot => "EOT"@,
            ControlCode::Sub => "SUB"@,
            ControlCode::Dle => "DLE"@,
            ControlCode::Stx => "STX"@,
            ControlCode::Etx => "ETX"@,
        }
    }

    /// Whether `token` is, letter for letter, this code's word or its alias.
    pub open spec fn answers_to(self, token: Seq<char>) -> bool {
        token == self.spec_human_name() || token == self.spec_alias()
    }

    /// The byte that stands for this code on the wire.
    #[verifier::when_used_as_spec(spec_byte)]
    pub fn byte(self) -> (b: u8)
        ensures
            b == self.spec_byte(),
    {
        match self {
            ControlCode::Syn => 0x16,
            ControlCode::Ack => 0x06,
            ControlCode::Nak => 0x15,
            ControlCode::Enq => 0x05,
            ControlCode::Dc1 => 0x11,
            ControlCode::Dc2 => 0x12,
            ControlCode::Dc3 => 0x13,
            ControlCode::Dc4 => 0x14,
            ControlCode::Eot => 0x04,
            ControlCode::Sub => 0x1A,
            ControlCode::Dle => 0x10,
            ControlCode::Stx => 0x02,
            ControlCode::Etx => 0x03,
        }
    }

    /// The code that a byte stands for, if it stands for one.
    pub fn from_byte(b: u8) -> (r: Option<ControlCode>)
        ensures
            r matches Some(code) ==> code.spec_byte() == b,
            r is None ==> forall|c: ControlCode| c.spec_byte() != b,
    {
        match b {
            0x16 => Some(ControlCode::Syn),
            0x06 => Some(ControlCode::Ack),
            0x15 => Some(ControlCode::Nak),
            0x05 => Some(ControlCode::Enq),
            0x11 => Some(ControlCode::Dc1),
            0x12 => Some(ControlCode::Dc2),
            0x13 => Some(ControlCode::Dc3),
            0x14 => Some(ControlCode::Dc4),
            0x04 => Some(ControlCode::Eot),
            0x1A => Some(ControlCode::Sub),
            0x10 => Some(ControlCode::Dle),
            0x02 => Some(ControlCode::Stx),
            0x03 => Some(ControlCode::Etx),
            _ => None,
        }
    }

    /// The word by which the command line calls this code.
    pub fn human_name(self) -> (name: &'static str)
        ensures
            name@ == self.spec_human_name(),
    {
        match self {
            ControlCode::Syn => "test-comms",
            ControlCode::Ack => "ACK",
            ControlCode::Nak => "NAK",
            ControlCode::Enq => "query",
            ControlCode::Dc1 => "start",
            ControlCode::Dc2 => "recalibrate",
            ControlCode::Dc3 => "stop",
            ControlCode::Dc4 => "stop-all",
            ControlCode::Eot => "EOT",
            ControlCode::Sub => "SUB",
            ControlCode::Dle => "ble-command",
            ControlCode::Stx => "text-start",
            ControlCode::Etx => "text-end",
        }
    }

    /// The protocol's own three-letter name of this code.
    pub fn alias(self) -> (name: &'static str)
        ensures
            name@ == self.spec_alias(),
    {
        match self {
            ControlCode::Syn => "SYN",
            ControlCode::Ack => "ACK",
            ControlCode::Nak => "NAK",
            ControlCode::Enq => "ENQ",
            ControlCode::Dc1 => "DC1",
            ControlCode::Dc2 => "DC2",
            ControlCode::Dc3 => "DC3",
            ControlCode::Dc4 => "DC4",
            ControlCode::Eot => "EOT",
            ControlCode::Sub => "SUB",
            ControlCode::Dle => "DLE",
            ControlCode::Stx => "STX",
            ControlCode::Etx => "ETX",
        }
    }
}

/// The code that a token names, if it names one.
pub open spec fn spec_resolve(token: Seq<char>) -> Option<ControlCode> {
    if exists|c: ControlCode| c.answers_to(token) {
        Some(choose|c: ControlCode| c.answers_to(token))
    } else {
        None
    }
}

/// Whether a token asks to listen: any token whose first letter is `l`.
pub open spec fn spec_is_listen_token(token: Seq<char>) -> bool {
    token.len() > 0 && token[0] == 'l'
}

/// Whether a token closes text mode.
pub open spec fn spec_is_text_end(token: Seq<char>) -> bool {
    ControlCode::Etx.answers_to(token)
}

/// What tells the words and aliases apart: the length of each, and the
/// letters at the places where two of the same length differ.
pub proof fn lemma_reveal_names()
    ensures
        "test-comms"@.len() == 10,
        "test-comms"@[0] == 't',
        "test-comms"@[2] == 's',
        "query"@.len() == 5,
        "query"@[0] == 'q',
        "query"@[2] == 'e',
        "start"@.len() == 5,
        "start"@[0] == 's',
        "start"@[2] == 'a',
        "recalibrate"@.len() == 11,
        "recalibrate"@[0] == 'r',
        "recalibrate"@[2] == 'c',
        "stop"@.len() == 4,
        "stop"@[0] == 's',
        "stop"@[2] == 'o',
        "stop-all"@.len() == 8,
        "stop-all"@[0] == 's',
        "stop-all"@[2] == 'o',
        "ble-command"@.len() == 11,
        "ble-command"@[0] == 'b',
        "ble-command"@[2] == 'e',
        "text-start"@.len() == 10,
        "text-start"@[0] == 't',
        "text-start"@[2] == 'x',
        "text-end"@.len() == 8,
        "text-end"@[0] == 't',
        "text-end"@[2] == 'x',
        "SYN"@.len() == 3,
        "SYN"@[0] == 'S',
        "SYN"@[1] == 'Y',
        "SYN"@[2] == 'N',
        "ACK"@.len() == 3,
        "ACK"@[0] == 'A',
        "ACK"@[1] == 'C',
        "ACK"@[2] == 'K',
        "NAK"@.len() == 3,
        "NAK"@[0] == 'N',
        "NAK"@[1] == 'A',
        "NAK"@[2] == 'K',
        "ENQ"@.len() == 3,
        "ENQ"@[0] == 'E',
        "ENQ"@[1] == 'N',
        "ENQ"@[2] == 'Q',
        "DC1"@.len() == 3,
        "DC1"@[0] == 'D',
        "DC1"@[1] == 'C',
        "DC1"@[2] == '1',
        "DC2"@.len() == 3,
        "DC2"@[0] == 'D',
        "DC2"@[1] == 'C',
        "DC2"@[2] == '2',
        "DC3"@.len() == 3,
        "DC3"@[0] == 'D',
        "DC3"@[1] == 'C',
        "DC3"@[2] == '3',
        "DC4"@.len() == 3,
        "DC4"@[0] == 'D',
        "DC4"@[1] == 'C',
        "DC4"@[2] == '4',
        "EOT"@.len() == 3,
        "EOT"@[0] == 'E',
        "EOT"@[1] == 'O',
        "EOT"@[2] == 'T',
        "SUB"@.len() == 3,
        "SUB"@[0] == 'S',
        "SUB"@[1] == 'U',
        "SUB"@[2] == 'B',
        "DLE"@.len() == 3,
        "DLE"@[0] == 'D',
        "DLE"@[1] == 'L',
        "DLE"@[2] == 'E',
        "STX"@.len() == 3,
        "STX"@[0] == 'S',
        "STX"@[1] == 'T',
        "STX"@[2] == 'X',
        "ETX"@.len() == 3,
        "ETX"@[0] == 'E',
        "ETX"@[1] == 'T',
        "ETX"@[2] == 'X',
{
    reveal_strlit("test-comms");
    reveal_strlit("query");
    reveal_strlit("start");
    reveal_strlit("recalibrate");
    reveal_strlit("stop");
    reveal_strlit("stop-all");
    reveal_strlit("ble-command");
    reveal_strlit("text-start");
    reveal_strlit("text-end");
    reveal_strlit("SYN");
    reveal_strlit("ACK");
    reveal_strlit("NAK");
    reveal_strlit("ENQ");
    reveal_strlit("DC1");
    reveal_strlit("DC2");
    reveal_strlit("DC3");
    reveal_strlit("DC4");
    reveal_strlit("EOT");
    reveal_strlit("SUB");
    reveal_strlit("DLE");
    reveal_strlit("STX");
    reveal_strlit("ETX");
}

/// No two codes share a byte.
pub proof fn lemma_bytes_distinct(a: ControlCode, b: ControlCode)
    requires
        a.spec_byte() == b.spec_byte(),
    ensures
        a == b,
{
}

/// No token names two codes.
pub proof fn lemma_names_distinct(a: ControlCode, b: ControlCode, token: Seq<char>)
    requires
        a.answers_to(token),
        b.answers_to(token),
    ensures
        a == b,
{
    lemma_reveal_names();
}

/// A token resolves to a code exactly when it is that code's word or alias.
pub proof fn lemma_resolve_exact(token: Seq<char>, c: ControlCode)
    ensures
        spec_resolve(token) == Some(c) <==> c.answers_to(token),
{
    if c.answers_to(token) {
        let d = choose|d: ControlCode| d.answers_to(token);
        lemma_names_distinct(c, d, token);
    }
}

/// A code's word and its alias both resolve to that code.
pub proof fn lemma_word_and_alias_resolve_alike(c: ControlCode)
    ensures
        spec_resolve(c.spec_human_name()) == Some(c),
        spec_resolve(c.spec_alias()) == Some(c),
        spec_resolve(c.spec_human_name()) == spec_resolve(c.spec_alias()),
{
    lemma_resolve_exact(c.spec_human_name(), c);
    lemma_resolve_exact(c.spec_alias(), c);
}

/// Resolving depends on the token alone: the same token always gives the
/// same answer.
pub proof fn lemma_resolve_is_a_function(first: Seq<char>, second: Seq<char>)
    requires
        first == second,
    ensures
        spec_resolve(first) == spec_resolve(second),
{
}

/// A token that asks to listen names no code.
pub proof fn lemma_listen_names_no_code(token: Seq<char>)
    requires
        spec_is_listen_token(token),
    ensures
        spec_resolve(token) is None,
{
    lemma_reveal_names();
}

/// Two strings with the same UTF-8 bytes are the same string.
pub proof fn lemma_same_bytes_same_text(a: Seq<char>, b: Seq<char>)
    requires
        encode_utf8(a) == encode_utf8(b),
    ensures
        a == b,
{
    encode_utf8_decode_utf8(a);
    encode_utf8_decode_utf8(b);
}

/// Whether two strings are the same, letter for letter.
pub fn same_text(a: &str, b: &str) -> (r: bool)
    ensures
        r == (a@ == b@),
{
    let x = a.as_bytes();
    let y = b.as_bytes();
    if x.len() != y.len() {
        return false;
    }
    let mut i: usize = 0;
    while i < x.len()
        invariant
            i <= x.len(),
            x.len() == y.len(),
            x@ == encode_utf8(a@),
            y@ == encode_utf8(b@),
            forall|k: int| 0 <= k < i ==> x@[k] == y@[k],
        decreases x.len() - i,
    {
        if x[i] != y[i] {
            return false;
        }
        i += 1;
    }
    proof {
        assert(x@ =~= y@);
        lemma_same_bytes_same_text(a@, b@);
    }
    true
}

/// Whether a token asks to listen.
pub fn is_listen_token(token: &str) -> (r: bool)
    ensures
        r == spec_is_listen_token(token@),
{
    if token.is_empty() {
        false
    } else {
        token.get_char(0) == 'l'
    }
}

/// Whether a token closes text mode: `text-end` or `ETX`.
pub fn is_text_end(token: &str) -> (r: bool)
    ensures
        r == spec_is_text_end(token@),
{
    same_text(token, "text-end") || same_text(token, "ETX")
}

/// Looks a command token up: an exact, case-sensitive match against every
/// code's word and alias.
pub fn resolve(token: &str) -> (r: Option<ControlCode>)
    ensures
        r == spec_resolve(token@),
        forall|c: ControlCode| r == Some(c) <==> c.answers_to(token@),
{
    let r = if same_text(token, "query") || same_text(token, "ENQ") {
        Some(ControlCode::Enq)
    } else if same_text(token, "recalibrate") || same_text(token, "DC2") {
        Some(ControlCode::Dc2)
    } else if same_text(token, "start") || same_text(token, "DC1") {
        Some(ControlCode::Dc1)
    } else if same_text(token, "stop") || same_text(token, "DC3") {
        Some(ControlCode::Dc3)
    } else if same_text(token, "stop-all") || same_text(token, "DC4") {
        Some(ControlCode::Dc4)
    } else if same_text(token, "test-comms") || same_text(token, "SYN") {
        Some(ControlCode::Syn)
    } else if same_text(token, "ble-command") || same_text(token, "DLE") {
        Some(ControlCode::Dle)
    } else if same_text(token, "text-start") || same_text(token, "STX") {
        Some(ControlCode::Stx)
    } else if same_text(token, "text-end") || same_text(token, "ETX") {
        Some(ControlCode::Etx)
    } else if same_text(token, "ACK") {
        Some(ControlCode::Ack)
    } else if same_text(token, "NAK") {
        Some(ControlCode::Nak)
    } else if same_text(token, "EOT") {
        Some(ControlCode::Eot)
    } else if same_text(token, "SUB") {
        Some(ControlCode::Sub)
    } else {
        None
    };
    proof {
        assert forall|c: ControlCode| r == Some(c) <==> c.answers_to(token@) by {
            if let Some(d) = r {
                if c.answers_to(token@) {
                    lemma_names_distinct(c, d, token@);
                }
            }
        }
        if let Some(d) = r {
            lemma_resolve_exact(token@, d);
        }
    }
    r
}

} // verus!
