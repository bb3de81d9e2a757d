use micloop::path::{append, copy, join};
use micloop::process::Command;
use micloop::text::{
    characters, decimal_text, parse_i32, read_printed, signed_decimal_text, starts_with,
    strip_prefix, trim, two_digits_text, white_space,
};

#[test]
fn numbers_in_decimal() {
    for n in [0, 1, 9, 10, 11, 99, 100, 600, 4294967295, u64::MAX] {
        assert_eq!(decimal_text(n), n.to_string());
    }
    for n in [0, 7, 10, -1, -10, i32::MAX, i32::MIN] {
        assert_eq!(signed_decimal_text(n), n.to_string());
        assert_eq!(parse_i32(&signed_decimal_text(n)), Some(n));
    }
}

#[test]
fn numbers_of_two_digits() {
    for n in -120..120 {
        assert_eq!(two_digits_text(n), format!("{n:02}"));
    }
}

#[test]
fn white_space_is_that_of_the_standard_library() {
    for c in '\0'..=char::MAX {
        assert_eq!(white_space(c), c.is_whitespace(), "{c:?}");
    }
}

#[test]
fn trimming() {
    for text in ["", " ", " a ", "a b", "\n\ta\u{3000}", "a", " \u{200b} ", "日本 "] {
        assert_eq!(trim(text), text.trim());
    }
    assert_eq!(characters("a日"), vec!['a', '日']);
}

#[test]
fn prefixes() {
    for (text, prefix) in [
        ("KEY_A", "KEY_"),
        ("KEY_", "KEY_"),
        ("KEY", "KEY_"),
        ("", ""),
        ("a", ""),
        ("日本語", "日"),
        ("BTN_LEFT", "KEY_"),
    ] {
        assert_eq!(starts_with(text, prefix), text.starts_with(prefix));
        assert_eq!(strip_prefix(text, prefix), text.strip_prefix(prefix).unwrap_or(text));
    }
}

#[test]
fn bytes_that_are_no_text() {
    for bytes in [&b"12\n"[..], b"", b" \xff ", b"a\xc3\xa9", b"\xe3\x80\x80x"] {
        assert_eq!(read_printed(bytes), String::from_utf8_lossy(bytes).trim());
    }
}

#[test]
fn paths_are_joined_like_those_of_the_standard_library() {
    for base in ["", "/", "a", "a/", "/a/b", "a//"] {
        for part in ["x", "x/y", "/x", "", ".config"] {
            let expected = std::path::Path::new(base).join(part);
            assert_eq!(
                join(base.as_bytes(), part),
                expected.to_str().unwrap().as_bytes().to_vec(),
                "{base:?} {part:?}"
            );
        }
    }
    let mut bytes = copy(b"\xffa");
    append(&mut bytes, b"b");
    assert_eq!(bytes, b"\xffab".to_vec());
}

#[test]
fn commands_keep_their_arguments_in_order() {
    let command = Command::new("run").arg("a").raw_arg(vec![255]).arg("é");
    assert_eq!(command.program, "run");
    assert_eq!(command.args, vec![b"a".to_vec(), vec![255], "é".as_bytes().to_vec()]);
}
