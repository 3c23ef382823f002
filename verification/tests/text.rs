use hyper_headset::duration::Duration;
use hyper_headset::text::{
    bool_string, decimal_string, hex_byte_string, hex_word_string, join_lines, pad_right,
};

#[test]
fn decimals_match_std() {
    for n in [0u64, 7, 9, 10, 11, 99, 100, 255, 65535, 1_000_000, u64::MAX] {
        assert_eq!(decimal_string(n), n.to_string());
    }
}

#[test]
fn hexadecimals_match_std() {
    for n in 0..=255u8 {
        assert_eq!(hex_byte_string(n), format!("{:02x}", n));
    }
    for n in [0u16, 1, 0x0f, 0x10, 0x03f0, 0x0951, 0xabcd, 0xffff] {
        assert_eq!(hex_word_string(n), format!("{:04X}", n));
    }
}

#[test]
fn truth_values() {
    assert_eq!(bool_string(true), "true");
    assert_eq!(bool_string(false), "false");
}

#[test]
fn padding_matches_std() {
    for width in [0usize, 1, 5, 6, 7, 25] {
        for s in ["", "Muted:", "größe", "a"] {
            assert_eq!(pad_right(s, width), format!("{:<width$}", s));
        }
    }
    assert_eq!(pad_right("ab", 4), "ab  ");
    assert_eq!(pad_right("abcdef", 4), "abcdef");
}

#[test]
fn joining_matches_std() {
    let lines: Vec<String> = ["one", "", "three"].iter().map(|s| s.to_string()).collect();
    assert_eq!(join_lines(&lines, "\n"), "one\n\nthree");
    assert_eq!(join_lines(&lines[..1].to_vec(), "\n"), "one");
    assert_eq!(join_lines(&Vec::new(), "\n"), "");
}

#[test]
fn durations_match_std() {
    for millis in [0u64, 1, 50, 500, 999, 1000, 61_001, u64::MAX] {
        let d = Duration::from_millis(millis);
        let std = std::time::Duration::from_millis(millis);
        assert_eq!((d.secs, d.nanos), (std.as_secs(), std.subsec_nanos()));
        assert_eq!(d.as_millis(), std.as_millis());
        assert_eq!(d.as_secs(), std.as_secs());
    }
    assert!(Duration::from_secs(90) == Duration { secs: 90, nanos: 0 });
}

#[test]
fn time_that_remains() {
    let limit = Duration { secs: 2, nanos: 100 };
    assert!(limit.remaining_after(Duration { secs: 2, nanos: 100 }) == None);
    assert!(limit.remaining_after(Duration { secs: 3, nanos: 0 }) == None);
    let rest = limit.remaining_after(Duration { secs: 2, nanos: 40 });
    assert!(rest == Some(Duration { secs: 0, nanos: 60 }));
    let rest = limit.remaining_after(Duration { secs: 0, nanos: 200 });
    assert!(rest == Some(Duration { secs: 1, nanos: 999_999_900 }));
}
