use historia::moodle::listing::{parse_session_date, read_listing};
use historia::moodle::marking::{classify_path, make_mark_form, read_mark_response, MarkOutcome};
use historia::moodle::profile::{decode_email_link, read_profile};
use historia::moodle::statuses::{find_present, read_statuses};
use historia::moodle::{AttendanceSession, Date, MoodleError, SessionProbeResult};

const LISTING: &str = "https://m.example/mod/attendance/view.php?id=42&view=5";
const FORM: &str = "https://m.example/mod/attendance/attendance.php";

fn listing_page(rows: &str) -> String {
    format!(
        "<html><body><table class=\"generaltable attwidth boxaligncenter\"><tbody>{}</tbody></table></body></html>",
        rows
    )
}

#[test]
fn date_in_short_format() {
    assert_eq!(
        parse_session_date("23.01.23 (Mon)"),
        Some(Date { year: 2023, month: 1, day: 23 })
    );
}

#[test]
fn date_in_long_format() {
    assert_eq!(
        parse_session_date("Mon 23 Jan 2023"),
        Some(Date { year: 2023, month: 1, day: 23 })
    );
}

#[test]
fn date_in_other_formats_is_rejected() {
    assert_eq!(parse_session_date("2023-01-23"), None);
    assert_eq!(parse_session_date("23/01/2023"), None);
    assert_eq!(parse_session_date(""), None);
    assert_eq!(parse_session_date("23.01.23"), None);
}

#[test]
fn date_with_wrong_weekday_is_rejected() {
    assert_eq!(parse_session_date("23.01.23 (Tue)"), None);
}

#[test]
fn listing_reads_rows_in_order() {
    let page = listing_page(
        "<tr><td> 23.01.23 (Mon) </td><td>10:00</td><td><a href=\"https://m.example/mod/attendance/attendance.php?sessid=7&amp;sesskey=abc\">Submit</a></td></tr>\
         <tr><td>Tue 24 Jan 2023</td><td>10:00</td><td><a href=\"https://m.example/mod/attendance/attendance.php?sessid=12\">Submit</a></td></tr>",
    );
    assert_eq!(
        read_listing(LISTING, &page),
        Ok(vec![
            AttendanceSession { id: 7, date: Date { year: 2023, month: 1, day: 23 } },
            AttendanceSession { id: 12, date: Date { year: 2023, month: 1, day: 24 } },
        ])
    );
}

#[test]
fn listing_skips_rows_without_link() {
    let page = listing_page(
        "<tr><td>23.01.23 (Mon)</td><td>10:00</td><td>closed</td></tr>\
         <tr><td>24.01.23 (Tue)</td><td>10:00</td><td><a href=\"https://m.example/a?sessid=12\">Submit</a></td></tr>\
         <tr><td>no date here</td><td></td><td></td></tr>",
    );
    assert_eq!(
        read_listing(LISTING, &page),
        Ok(vec![AttendanceSession { id: 12, date: Date { year: 2023, month: 1, day: 24 } }])
    );
}

#[test]
fn listing_without_table_is_an_error() {
    assert_eq!(read_listing(LISTING, "<html><body><p>nothing</p></body></html>"), Err(MoodleError::TableNotFound));
}

#[test]
fn listing_with_empty_table_is_empty() {
    assert_eq!(read_listing(LISTING, &listing_page("")), Ok(vec![]));
}

#[test]
fn listing_row_errors() {
    let bad_date = listing_page("<tr><td>soon</td><td></td><td><a href=\"https://m.example/a?sessid=1\">x</a></td></tr>");
    assert_eq!(read_listing(LISTING, &bad_date), Err(MoodleError::DateUnreadable));
    let no_date = listing_page("<tr><td></td><td></td><td><a href=\"https://m.example/a?sessid=1\">x</a></td></tr>");
    assert_eq!(read_listing(LISTING, &no_date), Err(MoodleError::DateNotFound));
    let no_href = listing_page("<tr><td>23.01.23 (Mon)</td><td></td><td><a>x</a></td></tr>");
    assert_eq!(read_listing(LISTING, &no_href), Err(MoodleError::LinkWithoutTarget));
    let unreadable = listing_page("<tr><td>23.01.23 (Mon)</td><td></td><td><a href=\"https://[::1/a?sessid=1\">x</a></td></tr>");
    assert_eq!(read_listing(LISTING, &unreadable), Err(MoodleError::LinkUnreadable));
    let links = listing_page("<tr><td>23.01.23 (Mon)</td><td></td><td><a href=\"/a?sessid=1\">x</a></td></tr>");
    assert_eq!(read_listing("mailto:nobody@m.example", &links), Err(MoodleError::LinkUnreadable));
    assert_eq!(read_listing("", &links), Err(MoodleError::LinkUnreadable));
    let no_id = listing_page("<tr><td>23.01.23 (Mon)</td><td></td><td><a href=\"https://m.example/a?id=1\">x</a></td></tr>");
    assert_eq!(read_listing(LISTING, &no_id), Err(MoodleError::SessionIdMissing));
    let bad_id = listing_page("<tr><td>23.01.23 (Mon)</td><td></td><td><a href=\"https://m.example/a?sessid=x1\">x</a></td></tr>");
    assert_eq!(read_listing(LISTING, &bad_id), Err(MoodleError::SessionIdUnreadable));
    let big_id = listing_page("<tr><td>23.01.23 (Mon)</td><td></td><td><a href=\"https://m.example/a?sessid=4294967296\">x</a></td></tr>");
    assert_eq!(read_listing(LISTING, &big_id), Err(MoodleError::SessionIdUnreadable));
}

#[test]
fn listing_takes_first_session_parameter() {
    let page = listing_page("<tr><td>23.01.23 (Mon)</td><td></td><td><a href=\"https://m.example/a?x=1&amp;sessid=4294967295&amp;sessid=2\">x</a></td></tr>");
    assert_eq!(
        read_listing(LISTING, &page),
        Ok(vec![AttendanceSession { id: 4294967295, date: Date { year: 2023, month: 1, day: 23 } }])
    );
}

fn status_page(labels: &str) -> String {
    format!(
        "<html><body><form><div id=\"fgroup_id_statusarray\">{}</div></form></body></html>",
        labels
    )
}

#[test]
fn statuses_are_read_in_order() {
    let page = status_page(
        "<label><input type=\"radio\" name=\"status\" value=\"501\"> Present </label>\
         <label>\n  <input type=\"radio\" name=\"status\" value=\"502\">\n  Absent\n</label>",
    );
    assert_eq!(
        read_statuses(&page),
        Ok(vec![(501, "Present".to_string()), (502, "Absent".to_string())])
    );
}

#[test]
fn statuses_outside_the_group_are_ignored() {
    let page = "<html><body><label><input value=\"1\">Present</label></body></html>";
    assert_eq!(read_statuses(page), Ok(vec![]));
}

#[test]
fn status_errors() {
    assert_eq!(
        read_statuses(&status_page("<label><input value=\"1\">   </label>")),
        Err(MoodleError::LabelTextMissing)
    );
    assert_eq!(read_statuses(&status_page("<label>Present</label>")), Err(MoodleError::InputMissing));
    assert_eq!(
        read_statuses(&status_page("<label><input>Present</label>")),
        Err(MoodleError::InputValueMissing)
    );
    assert_eq!(
        read_statuses(&status_page("<label><input value=\"one\">Present</label>")),
        Err(MoodleError::InputValueUnreadable)
    );
}

#[test]
fn present_is_found_by_exact_name() {
    let statuses = vec![
        (500, "present".to_string()),
        (502, "Present ".to_string()),
        (501, "Present".to_string()),
        (503, "Present".to_string()),
    ];
    assert_eq!(find_present(&statuses), Some(501));
    assert_eq!(find_present(&vec![(1, "Late".to_string())]), None);
    assert_eq!(find_present(&vec![]), None);
}

#[test]
fn form_fields_in_order() {
    let form = make_mark_form("abc", 7, "secret", 501);
    let expected: Vec<(String, String)> = vec![
        ("sesskey", "abc"),
        ("sessid", "7"),
        ("_qf__mod_attendance_form_studentattendance", "1"),
        ("mform_isexpanded_id_session", "1"),
        ("studentpassword", "secret"),
        ("submitbutton", "Save changes"),
        ("status", "501"),
    ]
    .into_iter()
    .map(|(k, v)| (k.to_string(), v.to_string()))
    .collect();
    assert_eq!(form, expected);
}

#[test]
fn redirect_paths_are_told_apart() {
    assert_eq!(classify_path("/mod/attendance/view.php"), MarkOutcome::Success);
    assert_eq!(classify_path("/mod/attendance/attendance.php"), MarkOutcome::Rejected);
    assert_eq!(classify_path("/login/index.php"), MarkOutcome::Error(MoodleError::UnknownRedirect));
    assert_eq!(classify_path(""), MarkOutcome::Error(MoodleError::UnknownRedirect));
}

#[test]
fn mark_response_is_read_from_status_and_target() {
    let view = Some("https://m.example/mod/attendance/view.php?id=3".to_string());
    let form = Some("https://m.example/mod/attendance/attendance.php?sessid=7".to_string());
    let other = Some("https://m.example/login/index.php".to_string());
    assert_eq!(read_mark_response(FORM, 303, &view), MarkOutcome::Success);
    assert_eq!(read_mark_response(FORM, 302, &form), MarkOutcome::Rejected);
    assert_eq!(read_mark_response(FORM, 303, &other), MarkOutcome::Error(MoodleError::UnknownRedirect));
    assert_eq!(read_mark_response(FORM, 200, &view), MarkOutcome::Error(MoodleError::NotRedirected(200)));
    assert_eq!(read_mark_response(FORM, 404, &view), MarkOutcome::Error(MoodleError::BadStatus(404)));
    assert_eq!(read_mark_response(FORM, 500, &None), MarkOutcome::Error(MoodleError::BadStatus(500)));
    assert_eq!(read_mark_response(FORM, 303, &None), MarkOutcome::Error(MoodleError::LocationUnreadable));
    assert_eq!(
        read_mark_response(FORM, 303, &Some("https://[::1/mod/attendance/view.php".to_string())),
        MarkOutcome::Error(MoodleError::LocationUnreadable)
    );
    assert_eq!(
        read_mark_response("not a url", 303, &Some("/mod/attendance/view.php".to_string())),
        MarkOutcome::Error(MoodleError::LocationUnreadable)
    );
}

fn profile_page(label: &str, href: &str, key: &str) -> String {
    format!(
        "<html><head><script>M.cfg = {{\"wwwroot\":\"https://m.example\",\"sesskey\":\"{}\",\"x\":\"y\"}};</script></head>\
         <body><dl><dt>{}</dt><dd><a href=\"{}\">mail</a></dd></dl></body></html>",
        key, label, href
    )
}

fn valid(probe: Result<SessionProbeResult, MoodleError>) -> (String, String) {
    match probe {
        Ok(SessionProbeResult::Valid { email, csrf_session }) => (email, csrf_session),
        other => panic!("not valid: {:?}", other),
    }
}

#[test]
fn profile_gives_email_and_key() {
    let page = profile_page(
        "Email address",
        "&#109;&#97;&#105;&#108;&#116;&#111;&#58;%73%74%75%64%65%6e%74%40%65%78%61%6d%70%6c%65%2e%6f%72%67",
        "k3y",
    );
    assert_eq!(valid(read_profile(200, &page)), ("student@example.org".to_string(), "k3y".to_string()));
}

#[test]
fn profile_in_russian() {
    let page = profile_page("Адрес электронной почты", "mailto:a.b@example.org", "Zx9");
    assert_eq!(valid(read_profile(200, &page)), ("a.b@example.org".to_string(), "Zx9".to_string()));
}

#[test]
fn profile_redirect_is_invalid_whatever_the_body() {
    let page = profile_page("Email address", "mailto:a.b@example.org", "Zx9");
    for status in [300u16, 301, 302, 303, 307, 308, 399] {
        assert!(matches!(read_profile(status, &page), Ok(SessionProbeResult::Invalid)));
        assert!(matches!(read_profile(status, ""), Ok(SessionProbeResult::Invalid)));
    }
}

#[test]
fn profile_errors() {
    assert!(matches!(read_profile(200, "<html></html>"), Err(MoodleError::EmailNotFound)));
    assert!(matches!(read_profile(400, ""), Err(MoodleError::EmailNotFound)));
    assert!(matches!(
        read_profile(200, &profile_page("Email address", "mailto:%ff", "k")),
        Err(MoodleError::EmailEncoding)
    ));
    assert!(matches!(
        read_profile(200, &profile_page("Email address", "a.b@example.org", "k")),
        Err(MoodleError::MailtoMissing)
    ));
    assert!(matches!(
        read_profile(200, &profile_page("Email address", "mailto:not an address", "k")),
        Err(MoodleError::EmailInvalid)
    ));
    let no_key = "<dt>Email address</dt><dd><a href=\"mailto:a.b@example.org\">x</a>";
    assert!(matches!(read_profile(200, no_key), Err(MoodleError::SesskeyNotFound)));
    let empty_key = profile_page("Email address", "mailto:a.b@example.org", "");
    assert!(matches!(read_profile(200, &empty_key), Err(MoodleError::SesskeyNotFound)));
}

#[test]
fn profile_takes_the_leftmost_link() {
    let page = "<dt>Email address</dt><dd><a href=\"\"><dt>Email address</dt><dd><a href=\"mailto:first@example.org\">\
                <dt>Email address</dt><dd><a href=\"mailto:second@example.org\">\"sesskey\":\"\"\"sesskey\":\"one\"\"sesskey\":\"two\"";
    assert_eq!(valid(read_profile(200, page)), ("first@example.org".to_string(), "one".to_string()));
}

#[test]
fn email_link_is_decoded_in_two_steps() {
    assert_eq!(decode_email_link("mailto:a%40b.example"), Ok("a@b.example".to_string()));
    assert_eq!(decode_email_link("mailto:a&#64;b.example"), Ok("a@b.example".to_string()));
    assert_eq!(decode_email_link("%26%2364%3B"), Err(MoodleError::MailtoMissing));
    assert_eq!(decode_email_link("mailto:a%26%2364%3Bb.example"), Ok("a@b.example".to_string()));
}

#[test]
fn relative_redirect_is_resolved_against_the_form() {
    let to = |target: &str| read_mark_response(FORM, 303, &Some(target.to_string()));
    assert_eq!(to("/mod/attendance/view.php?id=42&view=5"), MarkOutcome::Success);
    assert_eq!(to("/mod/attendance/view.php"), MarkOutcome::Success);
    assert_eq!(to("view.php?id=42"), MarkOutcome::Success);
    assert_eq!(to("//m.example/mod/attendance/view.php"), MarkOutcome::Success);
    assert_eq!(to("/mod/attendance/attendance.php?sessid=7"), MarkOutcome::Rejected);
    assert_eq!(to("attendance.php"), MarkOutcome::Rejected);
    assert_eq!(to("?sessid=7"), MarkOutcome::Rejected);
    assert_eq!(to(""), MarkOutcome::Rejected);
    assert_eq!(to("/login/index.php"), MarkOutcome::Error(MoodleError::UnknownRedirect));
    assert_eq!(to("../attendance/view.php"), MarkOutcome::Success);
    assert_eq!(to("/view.php"), MarkOutcome::Error(MoodleError::UnknownRedirect));
}

#[test]
fn relative_links_are_resolved_against_the_listing() {
    let page = listing_page(
        "<tr><td>23.01.23 (Mon)</td><td></td><td><a href=\"/mod/attendance/attendance.php?sessid=7\">x</a></td></tr>\
         <tr><td>24.01.23 (Tue)</td><td></td><td><a href=\"attendance.php?sessid=8&amp;sesskey=k\">x</a></td></tr>\
         <tr><td>25.01.23 (Wed)</td><td></td><td><a href=\"?sessid=9\">x</a></td></tr>",
    );
    assert_eq!(
        read_listing(LISTING, &page),
        Ok(vec![
            AttendanceSession { id: 7, date: Date { year: 2023, month: 1, day: 23 } },
            AttendanceSession { id: 8, date: Date { year: 2023, month: 1, day: 24 } },
            AttendanceSession { id: 9, date: Date { year: 2023, month: 1, day: 25 } },
        ])
    );
}

#[test]
fn the_first_of_each_is_read() {
    let page = "<table class=\"generaltable attwidth boxaligncenter\"><tbody>\
         <tr><td><b>23.01.23 (Mon)</b> later</td><td></td><td><a href=\"/a?sessid=1\">x</a><a href=\"/a?sessid=2\">y</a></td></tr>\
         </tbody></table>\
         <table class=\"generaltable attwidth boxaligncenter\"><tbody>\
         <tr><td>24.01.23 (Tue)</td><td></td><td><a href=\"/a?sessid=3\">x</a></td></tr>\
         </tbody></table>";
    assert_eq!(
        read_listing(LISTING, page),
        Ok(vec![AttendanceSession { id: 1, date: Date { year: 2023, month: 1, day: 23 } }])
    );
    let labels = status_page(
        "<label><input value=\"501\"><input value=\"502\"> <span> </span>Present<i>really</i></label>",
    );
    assert_eq!(read_statuses(&labels), Ok(vec![(501, "Present".to_string())]));
}
