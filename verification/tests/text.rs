use ffnodes::numbers::{i64_parse_failure, parse_i64, parse_u16, parse_u64, parse_u64_or_zero, IntErrorKind};
use ffnodes::process::{
    choose_binaries, command_line, failure_message, get_platform_string, OutputLines,
};
use ffnodes::text::{decimal_string, ellipsis_tail, last_piece, replace_str, signed_decimal_string, split_whitespace, trim};

#[test]
fn numbers_parse_like_std() {
    assert_eq!(parse_u64("42"), Some(42));
    assert_eq!(parse_u64("+42"), Some(42));
    assert_eq!(parse_u64("-1"), None);
    assert_eq!(parse_u64(""), None);
    assert_eq!(parse_u64("+"), None);
    assert_eq!(parse_u64(" 1"), None);
    assert_eq!(parse_u64("18446744073709551615"), Some(u64::MAX));
    assert_eq!(parse_u64("18446744073709551616"), None);
    assert_eq!(parse_u16("65535"), Some(65535));
    assert_eq!(parse_u16("65536"), None);
    assert_eq!(parse_i64("-9223372036854775808"), Some(i64::MIN));
    assert_eq!(parse_i64("9223372036854775808"), None);
    assert_eq!(parse_i64("-+1"), None);
    assert_eq!(parse_i64("-"), None);
    assert_eq!(parse_i64("-0"), Some(0));
    assert_eq!(parse_u64_or_zero("x"), 0);
    for s in ["0", "17", "+5", "-3", "", "a1", "99999999999999999999"] {
        assert_eq!(parse_i64(s), s.parse::<i64>().ok());
        assert_eq!(parse_u64(s), s.parse::<u64>().ok());
    }
}

#[test]
fn text_helpers() {
    assert_eq!(trim("  a b \n"), "a b");
    assert_eq!(trim(" \t "), "");
    assert_eq!(replace_str("aXbXc", "X", "--"), "a--b--c");
    assert_eq!(replace_str("abc", "", "-"), "-a-b-c-");
    assert_eq!(split_whitespace(" a  b\tc "), vec!["a", "b", "c"]);
    assert_eq!(last_piece("x=1 y=2", "="), "2");
    assert_eq!(last_piece("none", "="), "none");
    assert_eq!(signed_decimal_string(-42), "-42");
    assert_eq!(signed_decimal_string(i64::MIN), i64::MIN.to_string());
    assert_eq!(ellipsis_tail("abcdef", 3), "...def");
    assert_eq!(ellipsis_tail("abc", 3), "abc");
}

#[test]
fn platform_strings() {
    assert_eq!(get_platform_string("linux", "x86_64", 64), Ok("linux-64".to_string()));
    assert_eq!(get_platform_string("linux", "aarch64", 64), Ok("linux-arm-64".to_string()));
    assert_eq!(get_platform_string("windows", "x86", 32), Ok("windows-32".to_string()));
    assert_eq!(get_platform_string("macos", "aarch64", 64), Ok("osx-arm-64".to_string()));
    assert_eq!(get_platform_string("freebsd", "x86_64", 64), Err("Unsupported platform".to_string()));
}

#[test]
fn command_line_and_failure_report() {
    assert_eq!(command_line("/bin/ffmpeg", &["-i", "a.mp4", "b.mp4"]), "/bin/ffmpeg -i a.mp4 b.mp4");
    assert_eq!(command_line("ffprobe", &[]), "ffprobe ");
    let m = failure_message(Some(1), "ffmpeg -i x", "", "bad input");
    assert_eq!(m, "Process exited with code: 1\nCommand: ffmpeg -i x\n\nSTDERR:\nbad input");
    let long = "x".repeat(2500);
    let m = failure_message(None, "c", &long, "");
    assert_eq!(m, format!("Process exited with code: -1\nCommand: c\n\nSTDOUT:\n...{}", "x".repeat(2000)));
}

#[test]
fn output_lines_split_across_chunks() {
    let mut lines = OutputLines::new();
    assert_eq!(lines.push("frame=1\nfps="), vec!["frame=1\n".to_string()]);
    assert_eq!(lines.push("30\n  \nspe"), vec!["fps=30\n".to_string()]);
    assert_eq!(lines.finish(), Some("spe".to_string()));
    let whole = OutputLines::new().push("a\nb\n");
    let mut parts = OutputLines::new();
    let mut got = parts.push("a");
    got.extend(parts.push("\nb"));
    got.extend(parts.push("\n"));
    assert_eq!(got, whole);
    assert_eq!(OutputLines::new().finish(), None);
}

#[test]
fn binaries_choice() {
    let local = Some(("meta/ffmpeg".to_string(), "meta/ffprobe".to_string()));
    assert_eq!(choose_binaries(local.clone(), Some("a".to_string()), Some("b".to_string())), local);
    assert_eq!(
        choose_binaries(None, Some("a".to_string()), Some("b".to_string())),
        Some(("a".to_string(), "b".to_string()))
    );
    assert_eq!(choose_binaries(None, Some("a".to_string()), None), None);
}

#[test]
fn decimal_text_reads_back() {
    for n in [0u64, 7, 10, 99, 1000, 4294967296, u64::MAX] {
        let t = decimal_string(n);
        assert_eq!(t, n.to_string());
        assert_eq!(parse_u64(&t), Some(n));
    }
}

#[test]
fn i64_failures_match_std() {
    for s in ["", "+", "-", "--1", "a", "1a", "-1a", "٣", "9223372036854775807x", "9223372036854775808",
        "92233720368547758070", "-9223372036854775809", "-92233720368547758x", "123456789012345678901234x", "+-0"]
    {
        let e = s.parse::<i64>().unwrap_err();
        assert_eq!(i64_parse_failure(s).message(), e.to_string());
    }
    assert_eq!(i64_parse_failure("9223372036854775808"), IntErrorKind::PosOverflow);
    assert_eq!(i64_parse_failure("-9223372036854775809"), IntErrorKind::NegOverflow);
    assert_eq!(i64_parse_failure(""), IntErrorKind::Empty);
    assert_eq!(i64_parse_failure("1 "), IntErrorKind::InvalidDigit);
}
