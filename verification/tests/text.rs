use argos_gui::syncher::{Call, Request};
use argos_gui::text::white_space;

#[test]
fn white_space_is_what_the_standard_library_takes_for_it() {
    for code in 0..=0x10ffffu32 {
        if let Some(c) = char::from_u32(code) {
            assert_eq!(white_space(c), c.is_whitespace(), "U+{code:04X}");
        }
    }
}

fn raw_call(raw: &str) -> Call {
    Request::SetupPipes {
        raw: raw.to_string(),
        ephemeride: String::new(),
        template: String::new(),
    }
    .handle()
    .1
}

#[test]
fn trimming_removes_white_space_at_both_ends_only() {
    assert_eq!(raw_call(""), Call::ParseRaw(String::new()));
    assert_eq!(raw_call(" \t\r\n"), Call::ParseRaw(String::new()));
    assert_eq!(raw_call("a b"), Call::ParseRaw("a b".to_string()));
    assert_eq!(raw_call("  a  b  "), Call::ParseRaw("a  b".to_string()));
    assert_eq!(raw_call("\u{3000}x\u{a0}"), Call::ParseRaw("x".to_string()));
    assert_eq!(raw_call("\u{200b}x"), Call::ParseRaw("\u{200b}x".to_string()));
}

fn pulsar_call(pulsar: &str) -> Call {
    Request::AddPar { path: String::new(), pulsar: pulsar.to_string(), master: false }.handle().1
}

#[test]
fn numbers_are_read_in_decimal_with_an_optional_sign() {
    assert_eq!(pulsar_call("0"), Call::AssertPulsar(0));
    assert_eq!(pulsar_call("007"), Call::AssertPulsar(7));
    assert_eq!(pulsar_call("-0"), Call::AssertPulsar(0));
    assert_eq!(pulsar_call("+12"), Call::AssertPulsar(12));
    assert_eq!(pulsar_call("-12"), Call::AssertPulsar(-12));
    assert_eq!(pulsar_call("2147483647"), Call::AssertPulsar(i32::MAX));
    assert_eq!(pulsar_call("-2147483648"), Call::AssertPulsar(i32::MIN));
    for text in ["", "+", "-", "--1", "+-1", "1-", "2147483648", "-2147483649", "1.0", "١٢", "1_000"] {
        assert_eq!(pulsar_call(text), Call::FindPulsar(format!("alias='{text}'")));
    }
}
