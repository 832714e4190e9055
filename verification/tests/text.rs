use historia::markup::{bold, code_inline, escape, link};
use historia::text::{
    chars_of, decimal_string, has_at, parse_u32, parse_u32_text, same_text, signed_decimal_string,
    string_of, trim,
};

#[test]
fn chars_and_strings_round_trip() {
    let v = chars_of("aé𝄞 z");
    assert_eq!(v, vec!['a', 'é', '𝄞', ' ', 'z']);
    assert_eq!(string_of(&v, 0, v.len()), "aé𝄞 z");
    assert_eq!(string_of(&v, 1, 3), "é𝄞");
    assert_eq!(string_of(&v, 2, 2), "");
    assert!(chars_of("").is_empty());
}

#[test]
fn pattern_is_found_only_where_it_stands() {
    let s = chars_of("hello world");
    assert!(has_at(&s, 0, &chars_of("hello")));
    assert!(has_at(&s, 6, &chars_of("world")));
    assert!(has_at(&s, 11, &chars_of("")));
    assert!(!has_at(&s, 12, &chars_of("")));
    assert!(!has_at(&s, 7, &chars_of("world")));
    assert!(!has_at(&s, 8, &chars_of("rldx")));
    assert!(!has_at(&s, usize::MAX, &chars_of("h")));
}

#[test]
fn numerals_are_written() {
    assert_eq!(decimal_string(0), "0");
    assert_eq!(decimal_string(7), "7");
    assert_eq!(decimal_string(10), "10");
    assert_eq!(decimal_string(4294967295), "4294967295");
    assert_eq!(signed_decimal_string(0), "0");
    assert_eq!(signed_decimal_string(-1), "-1");
    assert_eq!(signed_decimal_string(i64::MIN), "-9223372036854775808");
    assert_eq!(signed_decimal_string(i64::MAX), "9223372036854775807");
    assert_eq!(signed_decimal_string(-1001234567890), "-1001234567890");
}

#[test]
fn numerals_are_read_as_std_reads_them() {
    for text in [
        "0", "7", "007", "+7", "+", "", "-7", "4294967295", "4294967296", "42949672950", "1 ",
        " 1", "1_000", "١٢", "++1", "+0", "99999999999999999999999", "12a",
    ] {
        assert_eq!(parse_u32_text(text), text.parse::<u32>().ok(), "{:?}", text);
    }
    let v = chars_of("id=+15");
    assert_eq!(parse_u32(&v, 3), Some(15));
    assert_eq!(parse_u32(&v, 4), Some(15));
    assert_eq!(parse_u32(&v, 6), None);
    assert_eq!(parse_u32(&v, 0), None);
}

#[test]
fn trimming_removes_white_space_at_both_ends() {
    for text in [
        "", " ", "a", "  a b \n", "\t\r\n x", "x\u{a0}", "\u{2003}x y\u{3000}", "\u{200b}x ",
        " \n\t ",
    ] {
        assert_eq!(trim(text), text.trim(), "{:?}", text);
    }
}

#[test]
fn texts_are_compared_by_their_characters() {
    assert!(same_text("", ""));
    assert!(same_text("Present", "Present"));
    assert!(!same_text("Present", "Present "));
    assert!(!same_text("Present", "present"));
    assert!(!same_text("ab", "ba"));
}

#[test]
fn markup_is_escaped_where_it_must_be() {
    assert_eq!(escape("a<b>&\"c'"), "a&lt;b&gt;&amp;\"c'");
    assert_eq!(escape(""), "");
    assert_eq!(escape("&amp;"), "&amp;amp;");
    assert_eq!(bold("<i>x</i>"), "<b><i>x</i></b>");
    assert_eq!(code_inline("a<b"), "<code>a&lt;b</code>");
    assert_eq!(link("https://m/?a=1&b=2", "x > y"), "<a href=\"https://m/?a=1&amp;b=2\">x &gt; y</a>");
}

#[test]
fn markup_agrees_with_the_transport() {
    for text in ["", "plain", "a<b>&c", "<<>>&&", "пароль & <код>"] {
        assert_eq!(escape(text), teloxide::utils::html::escape(text));
        assert_eq!(bold(text), teloxide::utils::html::bold(text));
        assert_eq!(code_inline(text), teloxide::utils::html::code_inline(text));
        assert_eq!(link(text, "t&t"), teloxide::utils::html::link(text, "t&t"));
    }
}

#[test]
fn white_space_is_what_unicode_lists() {
    let listed = |c: char| {
        let n = c as u32;
        (0x09..=0x0d).contains(&n)
            || n == 0x20
            || n == 0x85
            || n == 0xa0
            || n == 0x1680
            || (0x2000..=0x200a).contains(&n)
            || n == 0x2028
            || n == 0x2029
            || n == 0x202f
            || n == 0x205f
            || n == 0x3000
    };
    for n in 0u32..=0x10ffff {
        if let Some(c) = char::from_u32(n) {
            assert_eq!(c.is_whitespace(), listed(c), "{:x}", n);
            if listed(c) || n % 4099 == 0 {
                let padded = format!("{}x{}", c, c);
                assert_eq!(trim(&padded) == "x", listed(c), "{:x}", n);
            }
        }
    }
}
