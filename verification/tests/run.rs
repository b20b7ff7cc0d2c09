use kb::echo::EchoError;
use kb::run;
use kb::text::decimal_string;
use kb::text::quote;

#[test]
fn run_echoes_then_demonstrates() {
    let argv = vec!["prog".to_string(), "alpha".to_string(), "beta".to_string()];
    let lines = run(&argv).unwrap();
    let expected = vec![
        "argv[0] = \"prog\"".to_string(),
        "argv[1] = \"alpha\"".to_string(),
        "argv[2] = \"beta\"".to_string(),
        "0 \"even\"".to_string(),
        "1 \"odd\"".to_string(),
        "2 \"even\"".to_string(),
        "3 \"odd\"".to_string(),
        "4 \"even\"".to_string(),
    ];
    assert_eq!(lines, expected);
}

#[test]
fn run_rejects_program_name_alone() {
    let argv = vec!["prog".to_string()];
    assert_eq!(run(&argv), Err(EchoError::MissingArguments));
}

#[test]
fn run_is_deterministic() {
    let argv = vec!["prog".to_string(), "one".to_string(), "two".to_string()];
    let first = run(&argv);
    let second = run(&argv);
    assert_eq!(first, second);
}

#[test]
fn decimal_rendering_is_exact() {
    assert_eq!(decimal_string(0), "0");
    assert_eq!(decimal_string(7), "7");
    assert_eq!(decimal_string(10), "10");
    assert_eq!(decimal_string(105), "105");
    assert_eq!(decimal_string(98760), "98760");
    assert_eq!(decimal_string(usize::MAX), format!("{}", usize::MAX));
}

#[test]
fn quoting_is_exact() {
    assert_eq!(quote(""), "\"\"");
    assert_eq!(quote("plain"), "\"plain\"");
    assert_eq!(quote("a\"b"), "\"a\\\"b\"");
    assert_eq!(quote("back\\slash"), "\"back\\\\slash\"");
    assert_eq!(quote("line\nbreak"), "\"line\\nbreak\"");
}

#[test]
fn quoting_escapes_every_control_character() {
    assert_eq!(quote("\0"), "\"\\0\"");
    assert_eq!(quote("\u{1}"), "\"\\u{1}\"");
    assert_eq!(quote("\u{b}"), "\"\\u{b}\"");
    assert_eq!(quote("\u{c}"), "\"\\u{c}\"");
    assert_eq!(quote("\u{e}"), "\"\\u{e}\"");
    assert_eq!(quote("\u{10}"), "\"\\u{10}\"");
    assert_eq!(quote("\u{1f}"), "\"\\u{1f}\"");
    assert_eq!(quote("\u{7f}"), "\"\\u{7f}\"");
    assert_eq!(quote("\u{80}"), "\"\\u{80}\"");
    assert_eq!(quote("\u{9f}"), "\"\\u{9f}\"");
    for v in 0u32..=0x9f {
        if v < 0x20 || v >= 0x7f {
            let c = char::from_u32(v).unwrap();
            let s = c.to_string();
            assert_eq!(quote(&s), format!("{:?}", s));
        }
    }
}

#[test]
fn quoting_keeps_printable_text_raw() {
    assert_eq!(quote("caf\u{e9}"), "\"caf\u{e9}\"");
    assert_eq!(quote(" ~"), "\" ~\"");
}
