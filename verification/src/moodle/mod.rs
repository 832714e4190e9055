//! The Moodle side: users, sessions and what the pages say.

pub mod client;
pub mod listing;
pub mod marking;
pub mod outside;
pub mod profile;
pub mod statuses;
pub mod web;

use vstd::prelude::*;
pub use client::{ConfigError, Moodle};
pub use marking::MarkOutcome;
use crate::attendance::Attendance;

verus! {

/// A calendar date: year, month from 1 and day of the month from 1.
#[derive(Clone, Copy, Debug, PartialEq, Eq, Structural)]
pub struct Date {
    pub year: i32,
    pub month: u32,
    pub day: u32,
}

/// A registered user: the delegated session, which is a secret, and the
/// account it belongs to.
#[derive(Clone)]
pub struct MoodleUser {
    pub session: String,
    pub email: String,
}

/// The mathematical value of a [`MoodleUser`].
pub ghost struct MoodleUserView {
    pub session: Seq<char>,
    pub email: Seq<char>,
}

impl View for MoodleUser {
    type V = MoodleUserView;

    open spec fn view(&self) -> MoodleUserView {
        MoodleUserView { session: self.session@, email: self.email@ }
    }
}

impl Default for MoodleUser {
    /// The user with no session and no email.
    fn default() -> (user: MoodleUser)
        ensures
            user@ == (MoodleUserView { session: Seq::empty(), email: Seq::empty() }),
    {
        MoodleUser { session: String::new(), email: String::new() }
    }
}

impl MoodleUser {
    /// The user as shown to people: the email, never the session.
    pub fn to_text(&self) -> (s: String)
        ensures
            s@ == self.email@,
    {
        self.email.clone()
    }

    /// A copy of the user.
    pub fn copy(&self) -> (u: MoodleUser)
        ensures
            u@ == self@,
    {
        MoodleUser { session: self.session.clone(), email: self.email.clone() }
    }
}

/// What a probe of the profile page says about a session.
#[derive(Debug)]
pub enum SessionProbeResult {
    Invalid,
    Valid { email: String, csrf_session: String },
}

/// The mathematical value of a [`SessionProbeResult`].
pub ghost enum SessionProbeView {
    Invalid,
    Valid { email: Seq<char>, csrf_session: Seq<char> },
}

impl View for SessionProbeResult {
    type V = SessionProbeView;

    open spec fn view(&self) -> SessionProbeView {
        match self {
            SessionProbeResult::Invalid => SessionProbeView::Invalid,
            SessionProbeResult::Valid { email, csrf_session } => SessionProbeView::Valid {
                email: email@,
                csrf_session: csrf_session@,
            },
        }
    }
}

/// Why a page or a response could not be used.
#[derive(Clone, Copy, Debug, PartialEq, Eq, Structural)]
pub enum MoodleError {
    /// The request could not be sent, or no answer came.
    Transport,
    /// The server answered with a client or server error status.
    BadStatus(u16),
    /// A URL could not be built from the base URL.
    BadUrl,
    /// The profile page shows no email link.
    EmailNotFound,
    /// The email link is not percent-encoded UTF-8.
    EmailEncoding,
    /// The email link does not start with `mailto:`.
    MailtoMissing,
    /// The email link holds no valid address.
    EmailInvalid,
    /// The profile page holds no session key.
    SesskeyNotFound,
    /// The listing page holds no attendance table.
    TableNotFound,
    /// A row with a link shows no date.
    DateNotFound,
    /// A row's date fits neither date format.
    DateUnreadable,
    /// A row's link has no target.
    LinkWithoutTarget,
    /// A row's link target is no URL.
    LinkUnreadable,
    /// A row's link target names no session.
    SessionIdMissing,
    /// A row's link target names a session that is no number.
    SessionIdUnreadable,
    /// The status form could not be searched.
    StatusesUnreadable,
    /// A status label shows no text.
    LabelTextMissing,
    /// A status label has no input.
    InputMissing,
    /// A status input has no value.
    InputValueMissing,
    /// A status input's value is no number.
    InputValueUnreadable,
    /// No status is labelled `Present`.
    PresentMissing,
    /// The form was answered without a redirect.
    NotRedirected(u16),
    /// The redirect names no target, or one that is no URL.
    LocationUnreadable,
    /// The redirect leads somewhere unexpected.
    UnknownRedirect,
}

/// One dated occurrence that can be marked.
#[derive(Clone, Copy, Debug, PartialEq, Eq, Structural)]
pub struct AttendanceSession {
    pub id: u32,
    pub date: Date,
}

impl AttendanceSession {
    /// Whether the session falls on the announced day and month; the year
    /// plays no part.
    pub open spec fn spec_matches(self, day: u8, month: u8) -> bool {
        self.date.day == day as u32 && self.date.month == month as u32
    }

    /// Tests whether the session falls on the day and month of `attendance`.
    pub fn matches(&self, attendance: &Attendance) -> (m: bool)
        ensures
            m == self.spec_matches(attendance.day, attendance.month),
    {
        self.date.day == attendance.day as u32 && self.date.month == attendance.month as u32
    }
}

/// The test that picks the sessions of a day and month.
pub open spec fn on_day(day: u8, month: u8) -> spec_fn(AttendanceSession) -> bool {
    |s: AttendanceSession| s.spec_matches(day, month)
}

/// The sessions among `sessions` that fall on the announced day and month, in
/// their order.
pub fn matching_sessions(sessions: &Vec<AttendanceSession>, attendance: &Attendance) -> (found:
    Vec<AttendanceSession>)
    ensures
        found@ == sessions@.filter(on_day(attendance.day, attendance.month)),
{
    let ghost pred = on_day(attendance.day, attendance.month);
    let mut found: Vec<AttendanceSession> = Vec::new();
    let mut i: usize = 0;
    proof {
        assert(sessions@.take(0) =~= Seq::<AttendanceSession>::empty());
        reveal(Seq::filter);
    }
    while i < sessions.len()
        invariant
            i <= sessions.len(),
            pred == on_day(attendance.day, attendance.month),
            found@ == sessions@.take(i as int).filter(pred),
        decreases sessions.len() - i,
    {
        let s = sessions[i];
        proof {
            let t = sessions@.take(i + 1);
            assert(t.drop_last() =~= sessions@.take(i as int));
            assert(t.last() == s);
            reveal(Seq::filter);
        }
        if s.matches(attendance) {
            found.push(s);
        }
        i += 1;
    }
    assert(sessions@.take(i as int) =~= sessions@);
    found
}

/// Whether a session is chosen for an announcement does not depend on the
/// year of its date.
pub proof fn lemma_matching_ignores_year(session: AttendanceSession, year: i32, day: u8, month: u8)
    ensures
        on_day(day, month)(session) == on_day(day, month)(
            AttendanceSession { date: Date { year, ..session.date }, ..session },
        ),
{
}

/// The sessions chosen for an announcement are exactly those of the listing
/// that fall on the announced day and month.
pub proof fn lemma_matching_is_exact(sessions: Seq<AttendanceSession>, day: u8, month: u8)
    ensures
        forall|s: AttendanceSession| #[trigger]
            sessions.filter(on_day(day, month)).contains(s) <==> (sessions.contains(s)
                && s.spec_matches(day, month)),
{
    let pred = on_day(day, month);
    assert forall|s: AttendanceSession| #[trigger]
        sessions.filter(pred).contains(s) <==> (sessions.contains(s) && s.spec_matches(
            day,
            month,
        )) by {
        if sessions.filter(pred).contains(s) {
            sessions.lemma_filter_contains_rev(pred, s);
            let i = choose|i: int|
                0 <= i < sessions.filter(pred).len() && sessions.filter(pred)[i] == s;
            sessions.lemma_filter_pred(pred, i);
        }
        if sessions.contains(s) && pred(s) {
            let i = choose|i: int| 0 <= i < sessions.len() && sessions[i] == s;
            sessions.lemma_filter_contains(pred, i);
        }
    }
}

/// The sessions chosen keep the listing's order: a listing extended by one
/// session has its choice extended by that session where it falls on the day,
/// and left as it is where it does not; an empty listing gives no choice.
pub proof fn lemma_matching_keeps_order(
    sessions: Seq<AttendanceSession>,
    next: AttendanceSession,
    day: u8,
    month: u8,
)
    ensures
        sessions.push(next).filter(on_day(day, month)) == if next.spec_matches(day, month) {
            sessions.filter(on_day(day, month)).push(next)
        } else {
            sessions.filter(on_day(day, month))
        },
        Seq::<AttendanceSession>::empty().filter(on_day(day, month)) == Seq::<
            AttendanceSession,
        >::empty(),
{
    assert(sessions.push(next).drop_last() =~= sessions);
    reveal(Seq::filter);
}

} // verus!
