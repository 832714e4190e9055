use historia::moodle::profile::find_quoted;
use historia::text::chars_of;
use regex::Regex;

fn email_link(page: &str) -> Option<String> {
    let heads = vec![
        chars_of("<dt>Email address</dt><dd><a href=\""),
        chars_of("<dt>Адрес электронной почты</dt><dd><a href=\""),
    ];
    find_quoted(&chars_of(page), &heads, &chars_of("\">"))
}

fn session_key(page: &str) -> Option<String> {
    find_quoted(&chars_of(page), &vec![chars_of("\"sesskey\":\"")], &chars_of("\""))
}

fn pages() -> Vec<&'static str> {
    vec![
        "",
        "<dt>Email address</dt><dd><a href=\"mailto:a@b.example\">",
        "<dt>Email address</dt><dd><a href=\"mailto:a@b.example\" >",
        "<dt>Email address</dt><dd><a href=\"\">",
        "<dt>Email address</dt><dd><a href=\"x",
        "<dt>Email address</dt><dd><a href=\"x\"",
        "<dt>Email address</dt><dd><a href=\"x\n y\">",
        "<dt>email address</dt><dd><a href=\"x\">",
        "<dt>Адрес электронной почты</dt><dd><a href=\"почта\">",
        "<dt>Email address</dt><dd><a href=\"\"><dt>Адрес электронной почты</dt><dd><a href=\"second\">",
        "<dt>Адрес электронной почты</dt><dd><a href=\"one\"><dt>Email address</dt><dd><a href=\"two\">",
        "<dt>Email address</dt><dd><a href=\"<dt>Email address</dt><dd><a href=\"inner\">",
        "xx<dt>Email address</dt><dd><a href=\"a\"><dt>Email address</dt><dd><a href=\"b\">yy",
        "\"sesskey\":\"abc\"",
        "\"sesskey\":\"\"",
        "\"sesskey\":\"abc",
        "\"sesskey\": \"abc\"",
        "{\"x\":1,\"sesskey\":\"\",\"sesskey\":\"k2\",\"sesskey\":\"k3\"}",
        "\"sesskey\":\"ключ 𝄞\"",
        "\"\"sesskey\":\"\"sesskey\":\"z\"",
    ]
}

#[test]
fn email_link_agrees_with_its_pattern() {
    let pattern = Regex::new(
        r#"<dt>(?:Email address|Адрес электронной почты)</dt><dd><a href="([^"]+)">"#,
    )
    .unwrap();
    for page in pages() {
        let expected = pattern.captures(page).map(|c| c[1].to_string());
        assert_eq!(email_link(page), expected, "{:?}", page);
    }
}

#[test]
fn session_key_agrees_with_its_pattern() {
    let pattern = Regex::new(r#""sesskey":"([^"]+)""#).unwrap();
    for page in pages() {
        let expected = pattern.captures(page).map(|c| c[1].to_string());
        assert_eq!(session_key(page), expected, "{:?}", page);
    }
}

#[test]
fn quoted_values_are_found_leftmost() {
    assert_eq!(email_link("<dt>Email address</dt><dd><a href=\"a\">"), Some("a".to_string()));
    assert_eq!(session_key("\"sesskey\":\"\"\"sesskey\":\"k\""), Some("k".to_string()));
    assert_eq!(session_key("no key"), None);
    assert_eq!(find_quoted(&chars_of("ab\"c\""), &vec![], &chars_of("\"")), None);
    assert_eq!(
        find_quoted(&chars_of("ab\"c\""), &vec![chars_of("")], &chars_of("\"")),
        Some("ab".to_string())
    );
}
