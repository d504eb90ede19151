use gpui_ios::font_names::insert_name;
use gpui_ios::text::{compare_text, decode_text, ns_string_to_str, TextError, TextOrder};

#[test]
fn text_is_decoded() {
    assert_eq!(decode_text(Some("h\u{00E9}llo".as_bytes())), Ok("h\u{00E9}llo".to_owned()));
    assert_eq!(decode_text(Some(b"")), Ok(String::new()));
}

#[test]
fn missing_text_is_told_apart() {
    assert_eq!(decode_text(None), Err(TextError::Missing));
    assert_eq!(
        decode_text(Some(&[0x41, 0xff, 0x41])),
        Err(TextError::NotUtf8 {
            reason: "invalid utf-8 sequence of 1 bytes from index 1".to_owned()
        })
    );
    assert_eq!(
        decode_text(Some(&[0xe2, 0x82])),
        Err(TextError::NotUtf8 {
            reason: "incomplete utf-8 byte sequence from index 0".to_owned()
        })
    );
}

#[test]
fn unreadable_text_has_the_reason_of_the_standard_library() {
    for bytes in [&[0xc0, 0x80][..], &[0xed, 0xa0, 0x80], &[0x61, 0xf4, 0x90], &[0x80]] {
        let reason = std::str::from_utf8(bytes).unwrap_err().to_string();
        assert_eq!(decode_text(Some(bytes)), Err(TextError::NotUtf8 { reason }));
    }
}

#[test]
fn unreadable_text_is_empty() {
    assert_eq!(ns_string_to_str(None), "");
    assert_eq!(ns_string_to_str(Some(&[0xc0, 0x80])), "");
    assert_eq!(ns_string_to_str(Some("key \u{1F511}".as_bytes())), "key \u{1F511}");
}

#[test]
fn text_is_ordered_like_strings() {
    let texts = ["", "a", "ab", "b", "B", "\u{00E9}", "\u{FFFD}", "\u{1F511}", "a\u{00E9}"];
    for a in texts {
        for b in texts {
            let expected = if a < b {
                TextOrder::Less
            } else if a == b {
                TextOrder::Equal
            } else {
                TextOrder::Greater
            };
            assert_eq!(compare_text(a, b), expected);
        }
    }
}

#[test]
fn names_are_inserted_in_order() {
    let mut names: Vec<String> = Vec::new();
    for name in ["m", "c", "z", "c", "a", "z"] {
        insert_name(&mut names, name.to_owned());
    }
    assert_eq!(names, ["a", "c", "m", "z"]);
}
