use inoctl::codes::{is_listen_token, is_text_end, resolve, same_text, ControlCode};

const ALPHABET: [ControlCode; 13] = [
    ControlCode::Syn,
    ControlCode::Ack,
    ControlCode::Nak,
    ControlCode::Enq,
    ControlCode::Dc1,
    ControlCode::Dc2,
    ControlCode::Dc3,
    ControlCode::Dc4,
    ControlCode::Eot,
    ControlCode::Sub,
    ControlCode::Dle,
    ControlCode::Stx,
    ControlCode::Etx,
];

#[test]
fn bytes_are_those_of_the_transmission_alphabet() {
    assert_eq!(ControlCode::Syn.byte(), 0x16);
    assert_eq!(ControlCode::Ack.byte(), 0x06);
    assert_eq!(ControlCode::Nak.byte(), 0x15);
    assert_eq!(ControlCode::Enq.byte(), 0x05);
    assert_eq!(ControlCode::Dc1.byte(), 0x11);
    assert_eq!(ControlCode::Dc2.byte(), 0x12);
    assert_eq!(ControlCode::Dc3.byte(), 0x13);
    assert_eq!(ControlCode::Dc4.byte(), 0x14);
    assert_eq!(ControlCode::Eot.byte(), 0x04);
    assert_eq!(ControlCode::Sub.byte(), 0x1A);
    assert_eq!(ControlCode::Dle.byte(), 0x10);
    assert_eq!(ControlCode::Stx.byte(), 0x02);
    assert_eq!(ControlCode::Etx.byte(), 0x03);
}

#[test]
fn no_two_codes_share_a_byte() {
    for (i, a) in ALPHABET.iter().enumerate() {
        for (j, b) in ALPHABET.iter().enumerate() {
            assert_eq!(a.byte() == b.byte(), i == j);
        }
    }
}

#[test]
fn from_byte_undoes_byte() {
    for code in ALPHABET {
        assert_eq!(ControlCode::from_byte(code.byte()), Some(code));
    }
}

#[test]
fn from_byte_knows_no_other_byte() {
    let mut known = 0;
    for b in 0..=255u8 {
        if ControlCode::from_byte(b).is_some() {
            known += 1;
        }
    }
    assert_eq!(known, 13);
    assert_eq!(ControlCode::from_byte(0x7F), None);
    assert_eq!(ControlCode::from_byte(0x00), None);
    assert_eq!(ControlCode::from_byte(0xFF), None);
}

#[test]
fn words_of_the_command_line() {
    assert_eq!(ControlCode::Enq.human_name(), "query");
    assert_eq!(ControlCode::Dc2.human_name(), "recalibrate");
    assert_eq!(ControlCode::Dc1.human_name(), "start");
    assert_eq!(ControlCode::Dc3.human_name(), "stop");
    assert_eq!(ControlCode::Dc4.human_name(), "stop-all");
    assert_eq!(ControlCode::Syn.human_name(), "test-comms");
    assert_eq!(ControlCode::Dle.human_name(), "ble-command");
    assert_eq!(ControlCode::Stx.human_name(), "text-start");
    assert_eq!(ControlCode::Etx.human_name(), "text-end");
}

#[test]
fn codes_without_a_word_go_by_their_alias() {
    for code in [ControlCode::Ack, ControlCode::Nak, ControlCode::Eot, ControlCode::Sub] {
        assert_eq!(code.human_name(), code.alias());
    }
}

#[test]
fn aliases_are_the_three_letter_names() {
    let names = [
        "SYN", "ACK", "NAK", "ENQ", "DC1", "DC2", "DC3", "DC4", "EOT", "SUB", "DLE", "STX", "ETX",
    ];
    for (code, name) in ALPHABET.iter().zip(names) {
        assert_eq!(code.alias(), name);
    }
}

#[test]
fn word_and_alias_resolve_to_the_same_code() {
    for code in ALPHABET {
        assert_eq!(resolve(code.human_name()), Some(code));
        assert_eq!(resolve(code.alias()), Some(code));
        assert_eq!(resolve(code.human_name()), resolve(code.alias()));
    }
}

#[test]
fn resolve_start_and_dc1() {
    assert_eq!(resolve("start"), Some(ControlCode::Dc1));
    assert_eq!(resolve("DC1"), Some(ControlCode::Dc1));
    assert_eq!(resolve("stop"), Some(ControlCode::Dc3));
    assert_eq!(resolve("stop-all"), Some(ControlCode::Dc4));
}

#[test]
fn resolve_is_exact_and_case_sensitive() {
    assert_eq!(resolve("frobnicate"), None);
    assert_eq!(resolve(""), None);
    assert_eq!(resolve("Start"), None);
    assert_eq!(resolve("START"), None);
    assert_eq!(resolve("dc1"), None);
    assert_eq!(resolve("start "), None);
    assert_eq!(resolve(" start"), None);
    assert_eq!(resolve("star"), None);
    assert_eq!(resolve("stop-al"), None);
    assert_eq!(resolve("DC5"), None);
}

#[test]
fn resolving_twice_gives_the_same_code() {
    for token in ["start", "DC4", "text-end", "frobnicate", "listen", ""] {
        assert_eq!(resolve(token), resolve(token));
    }
}

#[test]
fn listen_is_any_token_that_begins_with_l() {
    assert!(is_listen_token("listen"));
    assert!(is_listen_token("l"));
    assert!(is_listen_token("lorem"));
    assert!(!is_listen_token(""));
    assert!(!is_listen_token("Listen"));
    assert!(!is_listen_token("ble-command"));
    assert!(!is_listen_token(" listen"));
}

#[test]
fn a_listen_token_names_no_code() {
    for token in ["listen", "l", "lorem", "l-start"] {
        assert!(is_listen_token(token));
        assert_eq!(resolve(token), None);
    }
}

#[test]
fn text_end_is_the_word_or_the_alias() {
    assert!(is_text_end("text-end"));
    assert!(is_text_end("ETX"));
    assert!(!is_text_end("etx"));
    assert!(!is_text_end("text-start"));
    assert!(!is_text_end(""));
}

#[test]
fn same_text_compares_letter_for_letter() {
    assert!(same_text("", ""));
    assert!(same_text("abc", "abc"));
    assert!(!same_text("abc", "abd"));
    assert!(!same_text("abc", "ab"));
    assert!(!same_text("ab", "abc"));
    assert!(same_text("h\u{e9}llo", "h\u{e9}llo"));
    assert!(!same_text("h\u{e9}llo", "hello"));
}
