//! The sweep that an attendance announcement starts: reading the
//! announcement, and taking each chat through its part step by step.

use vstd::prelude::*;
use crate::attendance::{Attendance, AttendanceView};
use crate::config::{activity_of, Bot};
use crate::moodle::client::url_view;
use crate::moodle::marking::MarkOutcome;
use crate::moodle::{
    matching_sessions,
    AttendanceSession,
    Moodle,
    MoodleError,
    MoodleUser,
    SessionProbeResult,
};
use crate::router::notices::{format_failure_message, format_success_message, Solutions};
use crate::router::sweep::{
    after_listing,
    after_mark,
    after_probe,
    after_statuses,
    breakdown_text,
    effects_view,
    finished,
    last_turn,
    listed,
    notice,
    offered,
    proceed,
    session_notice,
    sweep_after,
    sweep_begin,
    Answer,
    Effect,
    EffectView,
    Stage,
    StageKind,
    StageView,
    Turn,
};
use crate::router::{is_private_chat, is_user_chat, DialogueEvent, State, StateView};
use crate::text::{all_digits, chars_of, digits_value, has_at, is_digit, occurs_at, string_of};

verus! {


/// The words that open an announcement, up to the day.
pub open spec fn announcement_head() -> Seq<char> {
    "Attendance password for "@
}

/// How many digits the number field at `at` has: none, one or two.
pub open spec fn field_len(s: Seq<char>, at: int) -> int {
    if 0 <= at < s.len() && is_digit(s[at]) {
        if at + 1 < s.len() && is_digit(s[at + 1]) {
            2
        } else {
            1
        }
    } else {
        0
    }
}

/// What an announcement says: the head, a day and a month of one or two
/// digits each, separated by a dot, then a colon, a space and the password,
/// which runs to the end of the text and holds no line break.
pub open spec fn parsed_announcement(s: Seq<char>) -> Option<AttendanceView> {
    let day_at = announcement_head().len() as int;
    let day_len = field_len(s, day_at);
    let month_at = day_at + day_len + 1;
    let month_len = field_len(s, month_at);
    let password_at = month_at + month_len + 2;
    if occurs_at(s, 0, announcement_head()) && day_len > 0 && occurs_at(
        s,
        day_at + day_len,
        seq!['.'],
    ) && month_len > 0 && occurs_at(s, month_at + month_len, seq![':', ' ']) && !s.skip(
        password_at,
    ).contains('\n') {
        Some(
            AttendanceView {
                day: digits_value(s.subrange(day_at, day_at + day_len)) as u8,
                month: digits_value(s.subrange(month_at, month_at + month_len)) as u8,
                password: s.skip(password_at),
            },
        )
    } else {
        None
    }
}

/// The text of an announcement, by its parts.
pub open spec fn announcement(day: Seq<char>, month: Seq<char>, password: Seq<char>) -> Seq<char> {
    announcement_head() + day + seq!['.'] + month + seq![':', ' '] + password
}

/// Whether a run of characters can stand for a day or a month: one or two
/// digits.
pub open spec fn is_number_field(digits: Seq<char>) -> bool {
    1 <= digits.len() <= 2 && all_digits(digits)
}

/// Every announcement is read as what it says.
pub proof fn lemma_announcement_is_read(day: Seq<char>, month: Seq<char>, password: Seq<char>)
    requires
        is_number_field(day),
        is_number_field(month),
        !password.contains('\n'),
    ensures
        parsed_announcement(announcement(day, month, password)) == Some(
            AttendanceView {
                day: digits_value(day) as u8,
                month: digits_value(month) as u8,
                password,
            },
        ),
{
    let s = announcement(day, month, password);
    let head = announcement_head();
    let day_at = head.len() as int;
    let month_at = day_at + day.len() + 1;
    let password_at = month_at + month.len() + 2;
    assert(s.subrange(0, day_at) =~= head);
    assert(forall|k: int| 0 <= k < day.len() ==> s[day_at + k] == day[k]);
    assert(s[day_at + day.len()] == '.');
    assert(forall|k: int| 0 <= k < month.len() ==> s[month_at + k] == month[k]);
    assert(s[month_at + month.len()] == ':');
    assert(s[day_at] == day[0]);
    assert(s[month_at] == month[0]);
    if day.len() == 2 {
        assert(s[day_at + 1] == day[1]);
    }
    if month.len() == 2 {
        assert(s[month_at + 1] == month[1]);
    }
    assert(field_len(s, day_at) == day.len());
    assert(field_len(s, month_at) == month.len());
    assert(s.subrange(day_at, day_at + day.len()) =~= day);
    assert(s.subrange(month_at, month_at + month.len()) =~= month);
    assert(s.subrange(day_at + day.len(), day_at + day.len() + 1) =~= seq!['.']);
    assert(s.subrange(month_at + month.len(), month_at + month.len() + 2) =~= seq![':', ' ']);
    assert(s.skip(password_at) =~= password);
}

/// Whatever is read as an announcement is one: the head, a day and a month of
/// one or two digits, and a password without a line break.
pub proof fn lemma_read_is_announcement(text: Seq<char>)
    requires
        parsed_announcement(text) is Some,
    ensures
        exists|day: Seq<char>, month: Seq<char>|
            #![trigger announcement(day, month, parsed_announcement(text)->0.password)]
            {
                &&& is_number_field(day)
                &&& is_number_field(month)
                &&& text == announcement(day, month, parsed_announcement(text)->0.password)
                &&& parsed_announcement(text)->0.day == digits_value(day)
                &&& parsed_announcement(text)->0.month == digits_value(month)
            },
        !parsed_announcement(text)->0.password.contains('\n'),
{
    let head = announcement_head();
    let day_at = head.len() as int;
    let day_len = field_len(text, day_at);
    let month_at = day_at + day_len + 1;
    let month_len = field_len(text, month_at);
    let password_at = month_at + month_len + 2;
    let day = text.subrange(day_at, day_at + day_len);
    let month = text.subrange(month_at, month_at + month_len);
    let password = text.skip(password_at);
    assert(text.subrange(0, day_at) == head);
    assert(text.subrange(day_at + day_len, day_at + day_len + 1) == seq!['.']);
    assert(text.subrange(month_at + month_len, month_at + month_len + 2) == seq![':', ' ']);
    assert(text.subrange(day_at + day_len, day_at + day_len + 1)[0] == '.');
    assert(text.subrange(month_at + month_len, month_at + month_len + 2)[0] == ':');
    assert(text.subrange(month_at + month_len, month_at + month_len + 2)[1] == ' ');
    assert(text =~= announcement(day, month, password)) by {
        assert(forall|k: int| 0 <= k < day_at ==> text[k] == text.subrange(0, day_at)[k]);
    }
    assert(all_digits(day)) by {
        assert(forall|k: int| 0 <= k < day.len() ==> day[k] == text[day_at + k]);
    }
    assert(all_digits(month)) by {
        assert(forall|k: int| 0 <= k < month.len() ==> month[k] == text[month_at + k]);
    }
    lemma_field_value(day);
    lemma_field_value(month);
    assert(is_number_field(day));
    assert(is_number_field(month));
    assert(parsed_announcement(text)->0.password == password);
    assert(parsed_announcement(text)->0.day == digits_value(day));
    assert(parsed_announcement(text)->0.month == digits_value(month));
    assert(text == announcement(day, month, parsed_announcement(text)->0.password));
}

/// A run of one or two digits stands for a number below one hundred.
pub proof fn lemma_field_value(s: Seq<char>)
    requires
        1 <= s.len() <= 2,
        all_digits(s),
    ensures
        s.len() == 1 ==> digits_value(s) == crate::text::digit_value(s[0]),
        s.len() == 2 ==> digits_value(s) == crate::text::digit_value(s[0]) * 10
            + crate::text::digit_value(s[1]),
        digits_value(s) <= 99,
{
    reveal_with_fuel(digits_value, 3);
    if s.len() == 1 {
        assert(s.drop_last().len() == 0);
    } else {
        assert(s.drop_last().drop_last().len() == 0);
        assert(s.drop_last().last() == s[0]);
    }
}

/// Reads the number field at `at`: its length and its value.
fn read_field(s: &Vec<char>, at: usize) -> (r: (usize, u8))
    requires
        at <= s.len(),
    ensures
        r.0 == field_len(s@, at as int),
        r.0 > 0 ==> r.1 == digits_value(s@.subrange(at as int, at + r.0)),
        r.0 > 0 ==> r.1 <= 99,
        at + r.0 <= s.len(),
{
    if at < s.len() && s[at] >= '0' && s[at] <= '9' {
        let first: u8 = (s[at] as u32 - '0' as u32) as u8;
        if at + 1 < s.len() && s[at + 1] >= '0' && s[at + 1] <= '9' {
            let second: u8 = (s[at + 1] as u32 - '0' as u32) as u8;
            proof {
                let f = s@.subrange(at as int, at + 2);
                assert(f[0] == s@[at as int] && f[1] == s@[at + 1]);
                lemma_field_value(f);
            }
            (2, first * 10 + second)
        } else {
            proof {
                let f = s@.subrange(at as int, at + 1);
                assert(f[0] == s@[at as int]);
                lemma_field_value(f);
            }
            (1, first)
        }
    } else {
        (0, 0)
    }
}

/// Whether a character of `s[from..]` is `c`.
fn holds_from(s: &Vec<char>, from: usize, c: char) -> (found: bool)
    requires
        from <= s.len(),
    ensures
        found == s@.skip(from as int).contains(c),
{
    let mut i: usize = from;
    while i < s.len()
        invariant
            from <= i <= s.len(),
            forall|k: int| from <= k < i ==> s@[k] != c,
        decreases s.len() - i,
    {
        if s[i] == c {
            assert(s@.skip(from as int)[i - from] == c);
            return true;
        }
        i += 1;
    }
    assert forall|k: int| 0 <= k < s@.skip(from as int).len() implies s@.skip(from as int)[k]
        != c by {
        assert(s@.skip(from as int)[k] == s@[from + k]);
    }
    false
}

/// Reads an announcement of an attendance password.
pub fn parse_attendance(text: &str) -> (res: Option<Attendance>)
    ensures
        res is Some <==> parsed_announcement(text@) is Some,
        res matches Some(a) ==> Some(a@) == parsed_announcement(text@),
{
    let s = chars_of(text);
    let head = chars_of("Attendance password for ");
    if !has_at(&s, 0, &head) {
        return None;
    }
    let day_at = head.len();
    let (day_len, day) = read_field(&s, day_at);
    if day_len == 0 {
        return None;
    }
    let dot_at = day_at + day_len;
    if !(dot_at < s.len() && s[dot_at] == '.') {
        assert(!occurs_at(s@, dot_at as int, seq!['.'])) by {
            if occurs_at(s@, dot_at as int, seq!['.']) {
                assert(s@.subrange(dot_at as int, dot_at + 1)[0] == '.');
            }
        }
        return None;
    }
    assert(occurs_at(s@, dot_at as int, seq!['.'])) by {
        assert(s@.subrange(dot_at as int, dot_at + 1) =~= seq!['.']);
    }
    let month_at = dot_at + 1;
    let (month_len, month) = read_field(&s, month_at);
    if month_len == 0 {
        return None;
    }
    let colon_at = month_at + month_len;
    if !(s.len() - colon_at >= 2 && s[colon_at] == ':' && s[colon_at + 1] == ' ') {
        assert(!occurs_at(s@, colon_at as int, seq![':', ' '])) by {
            if occurs_at(s@, colon_at as int, seq![':', ' ']) {
                let t = s@.subrange(colon_at as int, colon_at + 2);
                assert(t[0] == ':' && t[1] == ' ');
            }
        }
        return None;
    }
    assert(occurs_at(s@, colon_at as int, seq![':', ' '])) by {
        assert(s@.subrange(colon_at as int, colon_at + 2) =~= seq![':', ' ']);
    }
    let password_at = colon_at + 2;
    if holds_from(&s, password_at, '\n') {
        return None;
    }
    let password = string_of(&s, password_at, s.len());
    assert(s@.subrange(password_at as int, s.len() as int) =~= s@.skip(password_at as int));
    Some(Attendance { day, month, password })
}

/// What an announcement in a channel starts: a sweep over all chats for one
/// activity.
pub struct Sweep {
    pub activity_id: u32,
    pub attendance: Attendance,
}

/// Reads a post in a channel. A sweep starts where the channel is one that
/// the bot listens to and the post is the text of an announcement.
pub fn channel_post(config: &Bot, chat_id: i64, text: Option<&str>) -> (sweep: Option<Sweep>)
    ensures
        sweep is Some <==> activity_of(config.update_channels@, chat_id) is Some && text is Some
            && parsed_announcement(text->0@) is Some,
        sweep matches Some(s) ==> Some(s.activity_id) == activity_of(
            config.update_channels@,
            chat_id,
        ) && Some(s.attendance@) == parsed_announcement(text->0@),
{
    let activity_id = match config.activity_for(chat_id) {
        None => {
            return None;
        },
        Some(id) => id,
    };
    let text = match text {
        None => {
            return None;
        },
        Some(text) => text,
    };
    match parse_attendance(text) {
        None => None,
        Some(attendance) => Some(Sweep { activity_id, attendance }),
    }
}

fn finished_stage() -> (stage: Stage)
    ensures
        stage@ == finished(),
{
    Stage {
        kind: StageKind::Finished,
        csrf_session: String::new(),
        sessions: Vec::new(),
        at: 0,
    }
}

/// The text for a user whose part of the sweep broke down.
pub fn breakdown() -> (text: String)
    ensures
        text@ == breakdown_text(),
{
    "Some really nasty error happened when trying to mark attendance for you. You should go & check your attendance".to_owned()
}

fn with_effect(effects: Vec<Effect>, effect: Effect) -> (all: Vec<Effect>)
    ensures
        effects_view(all@) == effects_view(effects@).push(effect@),
{
    let mut all = effects;
    all.push(effect);
    assert(effects_view(all@) =~= effects_view(effects@).push(effect@));
    all
}

fn no_effects() -> (effects: Vec<Effect>)
    ensures
        effects_view(effects@) == Seq::<EffectView>::empty(),
{
    let effects: Vec<Effect> = Vec::new();
    assert(effects_view(effects@) =~= Seq::<EffectView>::empty());
    effects
}

fn end_with(effects: Vec<Effect>, text: String) -> (turn: Turn)
    ensures
        turn@ == last_turn(effects_view(effects@), text@),
{
    Turn { stage: finished_stage(), effects: with_effect(effects, Effect::Notify(text)) }
}

fn notice_text(
    url: Result<String, MoodleError>,
    attendance: &Attendance,
    reason: &str,
    solutions: Solutions,
) -> (text: String)
    ensures
        text@ == notice(url_view(url), attendance@, reason@, solutions),
{
    match url {
        Ok(u) => format_failure_message(attendance, reason, solutions, u.as_str()),
        Err(_) => breakdown(),
    }
}

fn go_on(
    moodle: &Moodle,
    user: &MoodleUser,
    csrf_session: String,
    sessions: Vec<AttendanceSession>,
    at: usize,
    effects: Vec<Effect>,
) -> (turn: Turn)
    ensures
        turn@ == proceed(
            moodle.base_url@,
            user@,
            csrf_session@,
            sessions@,
            at as nat,
            effects_view(effects@),
        ),
{
    if at >= sessions.len() {
        return Turn { stage: finished_stage(), effects };
    }
    match moodle.get_session_statuses_request(user, sessions[at].id) {
        Err(_) => end_with(effects, breakdown()),
        Ok(request) => Turn {
            stage: Stage { kind: StageKind::FetchingStatuses, csrf_session, sessions, at },
            effects: with_effect(effects, Effect::Fetch(request)),
        },
    }
}

/// Begins one chat's part of a sweep.
pub fn handle_user(moodle: &Moodle, activity_id: u32, state: &State, attendance: &Attendance) -> (turn:
    Turn)
    ensures
        turn@ == sweep_begin(moodle.base_url@, activity_id, state@, attendance@),
{
    match state {
        State::Registered(user) => match moodle.check_user_request(user) {
            Err(_) => end_with(no_effects(), breakdown()),
            Ok(request) => {
                let turn = Turn {
                    stage: Stage {
                        kind: StageKind::Probing,
                        csrf_session: String::new(),
                        sessions: Vec::new(),
                        at: 0,
                    },
                    effects: with_effect(no_effects(), Effect::Fetch(request)),
                };
                assert(turn@.effects =~= seq![EffectView::Fetch(request@)]);
                turn
            },
        },
        _ => end_with(
            no_effects(),
            notice_text(
                moodle.make_attendance_url(activity_id),
                attendance,
                "you are not registered",
                Solutions::Register,
            ),
        ),
    }
}

fn probed(
    moodle: &Moodle,
    activity_id: u32,
    user: &MoodleUser,
    attendance: &Attendance,
    answer: &Answer,
) -> (turn: Turn)
    ensures
        turn@ == after_probe(moodle.base_url@, activity_id, user@, attendance@, answer@),
{
    let response = match answer {
        Answer::Failed => {
            return end_with(no_effects(), breakdown());
        },
        Answer::Response(response) => response,
    };
    match moodle.check_user(response) {
        Err(_) => end_with(no_effects(), breakdown()),
        Ok(SessionProbeResult::Invalid) => {
            let next = State::Registered(user.copy()).after(DialogueEvent::SessionExpired);
            let effects = with_effect(no_effects(), Effect::Store(next));
            assert(effects_view(effects@) =~= seq![EffectView::Store(next@)]);
            end_with(
                effects,
                notice_text(
                    moodle.make_attendance_url(activity_id),
                    attendance,
                    "your session has become invalid",
                    Solutions::ReRegister,
                ),
            )
        },
        Ok(SessionProbeResult::Valid { email, csrf_session }) => {
            match moodle.get_attendance_sessions_request(activity_id, user) {
                Err(_) => end_with(no_effects(), breakdown()),
                Ok(request) => {
                    let turn = Turn {
                        stage: Stage {
                            kind: StageKind::Listing,
                            csrf_session,
                            sessions: Vec::new(),
                            at: 0,
                        },
                        effects: with_effect(no_effects(), Effect::Fetch(request)),
                    };
                    assert(turn@.effects =~= seq![EffectView::Fetch(request@)]);
                    turn
                },
            }
        },
    }
}

fn listing_read(
    moodle: &Moodle,
    activity_id: u32,
    user: &MoodleUser,
    attendance: &Attendance,
    csrf_session: String,
    answer: &Answer,
) -> (turn: Turn)
    ensures
        turn@ == after_listing(
            moodle.base_url@,
            activity_id,
            user@,
            attendance@,
            csrf_session@,
            answer@,
        ),
{
    let sessions = match answer {
        Answer::Failed => Err(MoodleError::Transport),
        Answer::Response(response) => moodle.get_attendance_sessions(activity_id, response),
    };
    assert(crate::moodle::listing::sessions_view(sessions) == listed(
        moodle.base_url@,
        activity_id,
        answer@,
    ));
    match sessions {
        Err(_) => end_with(
            no_effects(),
            notice_text(
                moodle.make_attendance_url(activity_id),
                attendance,
                "I failed to get attendance sessions",
                Solutions::ManuallyMarkAt,
            ),
        ),
        Ok(all) => {
            let found = matching_sessions(&all, attendance);
            if found.len() == 0 {
                end_with(
                    no_effects(),
                    notice_text(
                        moodle.make_attendance_url(activity_id),
                        attendance,
                        "I failed to find matching attendance sessions (or you are already marked)",
                        Solutions::ManuallyMarkAt,
                    ),
                )
            } else {
                go_on(moodle, user, csrf_session, found, 0, no_effects())
            }
        },
    }
}

fn session_notice_text(
    moodle: &Moodle,
    attendance: &Attendance,
    session_id: u32,
    reason: &str,
) -> (text: String)
    ensures
        text@ == session_notice(moodle.base_url@, attendance@, session_id, reason@),
{
    notice_text(
        moodle.make_session_url(session_id),
        attendance,
        reason,
        Solutions::ManuallyMarkAt,
    )
}

fn statuses_read(
    moodle: &Moodle,
    user: &MoodleUser,
    attendance: &Attendance,
    stage: Stage,
    answer: &Answer,
) -> (turn: Turn)
    requires
        stage.at < stage.sessions.len(),
    ensures
        turn@ == after_statuses(moodle.base_url@, user@, attendance@, stage@, answer@),
{
    let ghost before = stage@;
    let Stage { kind: _, csrf_session, sessions, at } = stage;
    let session_id = sessions[at].id;
    let statuses = match answer {
        Answer::Failed => Err(MoodleError::Transport),
        Answer::Response(response) => moodle.get_session_statuses(response),
    };
    assert(crate::moodle::statuses::statuses_view(statuses) == offered(answer@));
    let request = match statuses {
        Err(e) => Err(e),
        Ok(list) => moodle.mark_attendance_session_request(
            user,
            csrf_session.as_str(),
            session_id,
            attendance.password.as_str(),
            &list,
        ),
    };
    match request {
        Err(_) => {
            let text = session_notice_text(moodle, attendance, session_id, "of some nasty error");
            let effects = with_effect(no_effects(), Effect::Notify(text));
            assert(effects_view(effects@) =~= seq![EffectView::Notify(text@)]);
            go_on(moodle, user, csrf_session, sessions, at + 1, effects)
        },
        Ok(r) => {
            let turn = Turn {
                stage: Stage { kind: StageKind::Marking, csrf_session, sessions, at },
                effects: with_effect(no_effects(), Effect::Fetch(r)),
            };
            assert(turn@.effects =~= seq![EffectView::Fetch(r@)]);
            assert(turn@.stage == StageView { kind: StageKind::Marking, ..before });
            turn
        },
    }
}

fn mark_read(
    moodle: &Moodle,
    user: &MoodleUser,
    attendance: &Attendance,
    stage: Stage,
    answer: &Answer,
) -> (turn: Turn)
    requires
        stage.at < stage.sessions.len(),
    ensures
        turn@ == after_mark(moodle.base_url@, user@, attendance@, stage@, answer@),
{
    let Stage { kind: _, csrf_session, sessions, at } = stage;
    let session_id = sessions[at].id;
    let outcome = match answer {
        Answer::Failed => MarkOutcome::Error(MoodleError::Transport),
        Answer::Response(response) => moodle.mark_attendance_session(response),
    };
    let text = match outcome {
        MarkOutcome::Success => format_success_message(attendance),
        MarkOutcome::Rejected => session_notice_text(
            moodle,
            attendance,
            session_id,
            "some error occurred, possibly wrong password or already marked",
        ),
        MarkOutcome::Error(_) => session_notice_text(
            moodle,
            attendance,
            session_id,
            "of some nasty error",
        ),
    };
    let effects = with_effect(no_effects(), Effect::Notify(text));
    assert(effects_view(effects@) =~= seq![EffectView::Notify(text@)]);
    go_on(moodle, user, csrf_session, sessions, at + 1, effects)
}

/// Takes one chat's part of a sweep one step further, on the answer to the
/// request that the last turn asked for.
pub fn handle_answer(
    moodle: &Moodle,
    activity_id: u32,
    user: &MoodleUser,
    attendance: &Attendance,
    stage: Stage,
    answer: &Answer,
) -> (turn: Turn)
    ensures
        turn@ == sweep_after(
            moodle.base_url@,
            activity_id,
            user@,
            attendance@,
            stage@,
            answer@,
        ),
{
    match stage.kind {
        StageKind::Probing => probed(moodle, activity_id, user, attendance, answer),
        StageKind::Listing => listing_read(
            moodle,
            activity_id,
            user,
            attendance,
            stage.csrf_session,
            answer,
        ),
        StageKind::FetchingStatuses => {
            if stage.at < stage.sessions.len() {
                statuses_read(moodle, user, attendance, stage, answer)
            } else {
                Turn { stage: finished_stage(), effects: no_effects() }
            }
        },
        StageKind::Marking => {
            if stage.at < stage.sessions.len() {
                mark_read(moodle, user, attendance, stage, answer)
            } else {
                Turn { stage: finished_stage(), effects: no_effects() }
            }
        },
        StageKind::Finished => Turn { stage: finished_stage(), effects: no_effects() },
    }
}

/// The views of a snapshot of the dialogue store.
pub open spec fn dialogues_view(dialogues: Seq<(i64, State)>) -> Seq<(i64, StateView)> {
    dialogues.map_values(|d: (i64, State)| (d.0, d.1@))
}

/// The test that picks the dialogues of private chats.
pub open spec fn in_private() -> spec_fn((i64, StateView)) -> bool {
    |d: (i64, StateView)| is_private_chat(d.0)
}

/// The chats that a sweep goes over: those of the snapshot that are private,
/// each with its state, in the snapshot's order.
pub fn sweep_chats(dialogues: &Vec<(i64, State)>) -> (chats: Vec<(i64, State)>)
    ensures
        dialogues_view(chats@) == dialogues_view(dialogues@).filter(in_private()),
{
    let ghost all = dialogues_view(dialogues@);
    let mut chats: Vec<(i64, State)> = Vec::new();
    let mut i: usize = 0;
    proof {
        assert(all.take(0) =~= Seq::<(i64, StateView)>::empty());
        assert(dialogues_view(chats@) =~= Seq::<(i64, StateView)>::empty());
        reveal(Seq::filter);
    }
    while i < dialogues.len()
        invariant
            i <= dialogues.len(),
            all == dialogues_view(dialogues@),
            dialogues_view(chats@) == all.take(i as int).filter(in_private()),
        decreases dialogues.len() - i,
    {
        proof {
            let t = all.take(i + 1);
            assert(t.drop_last() =~= all.take(i as int));
            assert(t.last() == (dialogues@[i as int].0, dialogues@[i as int].1@));
            reveal(Seq::filter);
        }
        if is_user_chat(dialogues[i].0) {
            let ghost before = dialogues_view(chats@);
            let entry = (dialogues[i].0, dialogues[i].1.copy());
            chats.push(entry);
            assert(dialogues_view(chats@) =~= before.push((entry.0, entry.1@)));
        }
        i += 1;
    }
    assert(all.take(i as int) =~= all);
    chats
}

} // verus!
