use historia::attendance::Attendance;
use historia::config;
use historia::moodle::web::{Method, Request, Response};
use historia::moodle::{AttendanceSession, Date, Moodle, MoodleUser};
use historia::router::channel_post::{
    channel_post, handle_answer, handle_user, parse_attendance, sweep_chats,
};
use historia::router::notices::{format_failure_message, format_success_message, Solutions};
use historia::router::sweep::{Answer, Effect, Stage, StageKind, Turn};
use historia::router::State;

fn moodle() -> Moodle {
    match Moodle::new(&config::Moodle {
        base_url: "https://moodle.example/".to_string(),
        rpm: 30,
        max_burst: 5,
        user_agent: "historia".to_string(),
        activity_id: 42,
    }) {
        Ok(m) => m,
        Err(e) => panic!("{:?}", e),
    }
}

fn user() -> MoodleUser {
    MoodleUser { session: "s3ss".to_string(), email: "student@example.org".to_string() }
}

fn announced() -> Attendance {
    match parse_attendance("Attendance password for 5.3: abc123") {
        Some(a) => a,
        None => panic!("not an announcement"),
    }
}

fn ok(body: &str) -> Answer {
    Answer::Response(Response { status: 200, location: None, body: body.to_string() })
}

fn redirect(to: &str) -> Answer {
    Answer::Response(Response { status: 303, location: Some(to.to_string()), body: String::new() })
}

fn profile_page() -> String {
    "<script>{\"sesskey\":\"k3y\"}</script><dl><dt>Email address</dt><dd><a href=\"mailto:student%40example.org\">m</a></dd></dl>"
        .to_string()
}

fn listing_page() -> String {
    "<table class=\"generaltable attwidth boxaligncenter\"><tbody>\
     <tr><td>04.03.24 (Mon)</td><td></td><td><a href=\"https://moodle.example/mod/attendance/attendance.php?sessid=6\">go</a></td></tr>\
     <tr><td>05.03.24 (Tue)</td><td></td><td><a href=\"https://moodle.example/mod/attendance/attendance.php?sessid=7\">go</a></td></tr>\
     <tr><td>Wed 5 Mar 2025</td><td></td><td><a href=\"https://moodle.example/mod/attendance/attendance.php?sessid=9\">go</a></td></tr>\
     </tbody></table>"
        .to_string()
}

fn status_page() -> String {
    "<div id=\"fgroup_id_statusarray\"><label><input value=\"500\">Late</label><label><input value=\"501\">Present</label></div>"
        .to_string()
}

fn only_fetch(turn: &Turn) -> &Request {
    assert_eq!(turn.effects.len(), 1);
    match &turn.effects[0] {
        Effect::Fetch(r) => r,
        _ => panic!("no request"),
    }
}

fn texts(turn: &Turn) -> Vec<String> {
    let mut out = Vec::new();
    for e in &turn.effects {
        if let Effect::Notify(t) = e {
            out.push(t.clone());
        }
    }
    out
}

fn fetches(turn: &Turn) -> usize {
    turn.effects.iter().filter(|e| matches!(e, Effect::Fetch(_))).count()
}

fn pairs(form: &[(&str, &str)]) -> Vec<(String, String)> {
    form.iter().map(|(k, v)| (k.to_string(), v.to_string())).collect()
}

#[test]
fn registered_chat_is_marked() {
    let m = moodle();
    let a = announced();
    let u = user();
    let state = State::Registered(user());

    let turn = handle_user(&m, 42, &state, &a);
    assert_eq!(turn.stage.kind, StageKind::Probing);
    let probe = only_fetch(&turn);
    assert_eq!(probe.method, Method::Get);
    assert_eq!(probe.url, "https://moodle.example/user/profile.php");
    assert_eq!(probe.cookie, "MoodleSession=s3ss");
    assert!(probe.form.is_empty());

    let turn = handle_answer(&m, 42, &u, &a, turn.stage, &ok(&profile_page()));
    assert_eq!(turn.stage.kind, StageKind::Listing);
    assert_eq!(turn.stage.csrf_session, "k3y");
    let listing = only_fetch(&turn);
    assert_eq!(listing.method, Method::Get);
    assert_eq!(listing.url, "https://moodle.example/mod/attendance/view.php?id=42&view=5");
    assert_eq!(listing.cookie, "MoodleSession=s3ss");

    let turn = handle_answer(&m, 42, &u, &a, turn.stage, &ok(&listing_page()));
    assert_eq!(turn.stage.kind, StageKind::FetchingStatuses);
    assert_eq!(
        turn.stage.sessions,
        vec![
            AttendanceSession { id: 7, date: Date { year: 2024, month: 3, day: 5 } },
            AttendanceSession { id: 9, date: Date { year: 2025, month: 3, day: 5 } },
        ]
    );
    assert_eq!(turn.stage.at, 0);
    let statuses = only_fetch(&turn);
    assert_eq!(statuses.method, Method::Get);
    assert_eq!(statuses.url, "https://moodle.example/mod/attendance/attendance.php?sessid=7");

    let turn = handle_answer(&m, 42, &u, &a, turn.stage, &ok(&status_page()));
    assert_eq!(turn.stage.kind, StageKind::Marking);
    let post = only_fetch(&turn);
    assert_eq!(post.method, Method::Post);
    assert_eq!(post.url, "https://moodle.example/mod/attendance/attendance.php");
    assert_eq!(post.cookie, "MoodleSession=s3ss");
    assert_eq!(
        post.form,
        pairs(&[
            ("sesskey", "k3y"),
            ("sessid", "7"),
            ("_qf__mod_attendance_form_studentattendance", "1"),
            ("mform_isexpanded_id_session", "1"),
            ("studentpassword", "abc123"),
            ("submitbutton", "Save changes"),
            ("status", "501"),
        ])
    );

    let turn = handle_answer(
        &m,
        42,
        &u,
        &a,
        turn.stage,
        &redirect("https://moodle.example/mod/attendance/view.php?id=42"),
    );
    assert_eq!(turn.effects.len(), 2);
    match &turn.effects[0] {
        Effect::Notify(t) => assert_eq!(t, "Attendance on <b>05.03</b> marked successfully!"),
        _ => panic!("no confirmation"),
    }
    assert_eq!(turn.stage.kind, StageKind::FetchingStatuses);
    assert_eq!(turn.stage.at, 1);
    match &turn.effects[1] {
        Effect::Fetch(r) => {
            assert_eq!(r.url, "https://moodle.example/mod/attendance/attendance.php?sessid=9")
        }
        _ => panic!("no request for the next session"),
    }

    let turn = handle_answer(&m, 42, &u, &a, turn.stage, &ok(&status_page()));
    let turn = handle_answer(
        &m,
        42,
        &u,
        &a,
        turn.stage,
        &redirect("https://moodle.example/mod/attendance/attendance.php?sessid=9"),
    );
    assert_eq!(turn.stage.kind, StageKind::Finished);
    assert_eq!(fetches(&turn), 0);
    assert_eq!(
        texts(&turn),
        vec![
            "I could not put an attendance mark for <b>05.03</b> because some error occurred, possibly wrong password or already marked.\n\n\
             Please do it manually, the password is <code>abc123</code>\n\n\
             <a href=\"https://moodle.example/mod/attendance/attendance.php?sessid=9\">https://moodle.example/mod/attendance/attendance.php?sessid=9</a>"
                .to_string()
        ]
    );
}

fn not_registered_text() -> String {
    "I could not put an attendance mark for <b>05.03</b> because you are not registered.\n\n\
     You should register with /start command to not miss further attendance marks.\n\n\
     For now you can do it manually, the password is <code>abc123</code>\n\n\
     <a href=\"https://moodle.example/mod/attendance/view.php?id=42&amp;view=5\">https://moodle.example/mod/attendance/view.php?id=42&amp;view=5</a>"
        .to_string()
}

#[test]
fn chat_awaiting_token_is_told_to_register() {
    let turn = handle_user(&moodle(), 42, &State::ReceiveSession, &announced());
    assert_eq!(turn.stage.kind, StageKind::Finished);
    assert_eq!(turn.effects.len(), 1);
    assert_eq!(texts(&turn), vec![not_registered_text()]);
    assert!(texts(&turn)[0].contains("abc123"));
}

#[test]
fn unregistered_chat_is_told_to_register() {
    let turn = handle_user(&moodle(), 42, &State::Start, &announced());
    assert_eq!(turn.stage.kind, StageKind::Finished);
    assert_eq!(turn.effects.len(), 1);
    assert_eq!(texts(&turn), vec![not_registered_text()]);
}

#[test]
fn invalid_session_ends_registration() {
    let m = moodle();
    let a = announced();
    let u = user();
    let turn = handle_user(&m, 42, &State::Registered(user()), &a);
    let turn = handle_answer(
        &m,
        42,
        &u,
        &a,
        turn.stage,
        &redirect("https://moodle.example/login/index.php"),
    );
    assert_eq!(turn.stage.kind, StageKind::Finished);
    assert_eq!(turn.effects.len(), 2);
    assert!(matches!(&turn.effects[0], Effect::Store(State::Start)));
    match &turn.effects[1] {
        Effect::Notify(t) => assert_eq!(
            t,
            "I could not put an attendance mark for <b>05.03</b> because your session has become invalid.\n\n\
             You should re-register with /start command to not miss further attendance marks.\n\n\
             For now you can do it manually, the password is <code>abc123</code>\n\n\
             <a href=\"https://moodle.example/mod/attendance/view.php?id=42&amp;view=5\">https://moodle.example/mod/attendance/view.php?id=42&amp;view=5</a>"
        ),
        _ => panic!("no notice"),
    }
    assert_eq!(fetches(&turn), 0);
}

#[test]
fn probe_that_fails_breaks_down() {
    let m = moodle();
    let a = announced();
    let u = user();
    for answer in [Answer::Failed, ok("<html>no profile here</html>")] {
        let turn = handle_user(&m, 42, &State::Registered(user()), &a);
        let turn = handle_answer(&m, 42, &u, &a, turn.stage, &answer);
        assert_eq!(turn.stage.kind, StageKind::Finished);
        assert_eq!(
            texts(&turn),
            vec!["Some really nasty error happened when trying to mark attendance for you. You should go & check your attendance".to_string()]
        );
        assert_eq!(turn.effects.len(), 1);
    }
}

fn listing_stage() -> Stage {
    Stage { kind: StageKind::Listing, csrf_session: "k3y".to_string(), sessions: vec![], at: 0 }
}

#[test]
fn listing_that_cannot_be_read_is_reported() {
    let m = moodle();
    let a = announced();
    let u = user();
    for answer in [
        Answer::Failed,
        ok("<html>no table</html>"),
        Answer::Response(Response { status: 500, location: None, body: listing_page() }),
    ] {
        let turn = handle_answer(&m, 42, &u, &a, listing_stage(), &answer);
        assert_eq!(turn.stage.kind, StageKind::Finished);
        assert_eq!(
            texts(&turn),
            vec![format_failure_message(
                &a,
                "I failed to get attendance sessions",
                Solutions::ManuallyMarkAt,
                "https://moodle.example/mod/attendance/view.php?id=42&view=5"
            )]
        );
    }
}

#[test]
fn listing_without_matching_session_is_reported() {
    let m = moodle();
    let u = user();
    let a = match parse_attendance("Attendance password for 6.3: abc123") {
        Some(a) => a,
        None => panic!("not an announcement"),
    };
    let turn = handle_answer(&m, 42, &u, &a, listing_stage(), &ok(&listing_page()));
    assert_eq!(turn.stage.kind, StageKind::Finished);
    assert_eq!(
        texts(&turn),
        vec!["I could not put an attendance mark for <b>06.03</b> because I failed to find matching attendance sessions (or you are already marked).\n\n\
              Please do it manually, the password is <code>abc123</code>\n\n\
              <a href=\"https://moodle.example/mod/attendance/view.php?id=42&amp;view=5\">https://moodle.example/mod/attendance/view.php?id=42&amp;view=5</a>".to_string()]
    );
}

fn session_stage(kind: StageKind, at: usize) -> Stage {
    Stage {
        kind,
        csrf_session: "k3y".to_string(),
        sessions: vec![
            AttendanceSession { id: 7, date: Date { year: 2024, month: 3, day: 5 } },
            AttendanceSession { id: 8, date: Date { year: 2024, month: 3, day: 5 } },
        ],
        at,
    }
}

fn nasty(a: &Attendance, id: u32) -> String {
    format_failure_message(
        a,
        "of some nasty error",
        Solutions::ManuallyMarkAt,
        &format!("https://moodle.example/mod/attendance/attendance.php?sessid={}", id),
    )
}

#[test]
fn statuses_without_present_skip_to_the_next_session() {
    let m = moodle();
    let a = announced();
    let u = user();
    let page = "<div id=\"fgroup_id_statusarray\"><label><input value=\"500\">Late</label></div>";
    for answer in [ok(page), Answer::Failed, ok("<html></html>")] {
        let turn =
            handle_answer(&m, 42, &u, &a, session_stage(StageKind::FetchingStatuses, 0), &answer);
        assert_eq!(turn.stage.kind, StageKind::FetchingStatuses);
        assert_eq!(turn.stage.at, 1);
        assert_eq!(texts(&turn), vec![nasty(&a, 7)]);
        assert_eq!(turn.effects.len(), 2);
        match &turn.effects[1] {
            Effect::Fetch(r) => {
                assert_eq!(r.url, "https://moodle.example/mod/attendance/attendance.php?sessid=8")
            }
            _ => panic!("no request"),
        }
    }
}

#[test]
fn mark_errors_are_reported_per_session() {
    let m = moodle();
    let a = announced();
    let u = user();
    for answer in [
        Answer::Failed,
        ok("done"),
        redirect("https://moodle.example/login/index.php"),
        redirect("https://[::1/mod/attendance/view.php"),
        Answer::Response(Response { status: 303, location: None, body: String::new() }),
        Answer::Response(Response { status: 403, location: None, body: String::new() }),
    ] {
        let turn = handle_answer(&m, 42, &u, &a, session_stage(StageKind::Marking, 1), &answer);
        assert_eq!(turn.stage.kind, StageKind::Finished);
        assert_eq!(turn.effects.len(), 1);
        assert_eq!(texts(&turn), vec![nasty(&a, 8)]);
    }
}

#[test]
fn stage_out_of_range_or_finished_does_nothing() {
    let m = moodle();
    let a = announced();
    let u = user();
    for stage in [
        session_stage(StageKind::Marking, 2),
        session_stage(StageKind::FetchingStatuses, 7),
        session_stage(StageKind::Finished, 0),
    ] {
        let turn = handle_answer(&m, 42, &u, &a, stage, &ok(&status_page()));
        assert_eq!(turn.stage.kind, StageKind::Finished);
        assert!(turn.effects.is_empty());
    }
}

#[test]
fn channel_post_starts_a_sweep_only_for_announcements_in_known_channels() {
    let bot = config::Bot {
        update_channels: vec![
            config::BotChannel { id: -1001, activity_id: 42 },
            config::BotChannel { id: -1002, activity_id: 43 },
            config::BotChannel { id: -1001, activity_id: 44 },
        ],
        super_users: vec![5, 7],
    };
    match channel_post(&bot, -1001, Some("Attendance password for 5.3: abc123")) {
        Some(s) => {
            assert_eq!(s.activity_id, 42);
            assert_eq!((s.attendance.day, s.attendance.month), (5, 3));
            assert_eq!(s.attendance.password, "abc123");
        }
        None => panic!("no sweep"),
    }
    assert!(matches!(
        channel_post(&bot, -1002, Some("Attendance password for 15.12: x")),
        Some(s) if s.activity_id == 43
    ));
    assert!(channel_post(&bot, -1003, Some("Attendance password for 5.3: abc123")).is_none());
    assert!(channel_post(&bot, -1001, None).is_none());
    assert!(channel_post(&bot, -1001, Some("attendance password for 5.3: abc123")).is_none());
}

#[test]
fn messages_are_written_in_full() {
    let a = Attendance { day: 5, month: 12, password: "a<b>&c".to_string() };
    assert_eq!(format_success_message(&a), "Attendance on <b>05.12</b> marked successfully!");
    assert_eq!(
        format_failure_message(&a, "r", Solutions::ManuallyMarkAt, "https://m/?a=1&b=2"),
        "I could not put an attendance mark for <b>05.12</b> because r.\n\nPlease do it manually, the password is <code>a&lt;b&gt;&amp;c</code>\n\n<a href=\"https://m/?a=1&amp;b=2\">https://m/?a=1&amp;b=2</a>"
    );
    let big = Attendance { day: 123, month: 10, password: String::new() };
    assert_eq!(format_success_message(&big), "Attendance on <b>123.10</b> marked successfully!");
}

#[test]
fn relative_redirect_to_the_listing_is_a_success() {
    let m = moodle();
    let a = announced();
    let u = user();
    let turn = handle_answer(
        &m,
        42,
        &u,
        &a,
        session_stage(StageKind::Marking, 1),
        &redirect("/mod/attendance/view.php?id=42&view=5"),
    );
    assert_eq!(turn.stage.kind, StageKind::Finished);
    assert_eq!(texts(&turn), vec!["Attendance on <b>05.03</b> marked successfully!".to_string()]);
}

#[test]
fn relative_links_in_the_listing_are_followed() {
    let m = moodle();
    let a = announced();
    let u = user();
    let page = "<table class=\"generaltable attwidth boxaligncenter\"><tbody>\
        <tr><td>05.03.24 (Tue)</td><td></td><td><a href=\"attendance.php?sessid=7\">go</a></td></tr>\
        </tbody></table>";
    let turn = handle_answer(&m, 42, &u, &a, listing_stage(), &ok(page));
    assert_eq!(turn.stage.kind, StageKind::FetchingStatuses);
    assert_eq!(only_fetch(&turn).url, "https://moodle.example/mod/attendance/attendance.php?sessid=7");
}

#[test]
fn a_sweep_goes_over_the_private_chats_in_order() {
    let snapshot = vec![
        (12, State::Registered(user())),
        (-100123, State::Registered(user())),
        (5, State::Start),
        (1 << 40, State::ReceiveSession),
        (0, State::ReceiveSession),
        (12, State::Start),
    ];
    let chats = sweep_chats(&snapshot);
    let ids: Vec<i64> = chats.iter().map(|c| c.0).collect();
    assert_eq!(ids, vec![12, 5, 0, 12]);
    assert!(matches!(&chats[0].1, State::Registered(u) if u.session == "s3ss"));
    assert!(matches!(&chats[1].1, State::Start));
    assert!(matches!(&chats[2].1, State::ReceiveSession));
    assert!(matches!(&chats[3].1, State::Start));
    assert!(sweep_chats(&vec![]).is_empty());
}
