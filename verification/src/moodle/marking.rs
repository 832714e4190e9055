//! Putting the mark: the form that is sent and what its answer means.

use vstd::prelude::*;
use crate::moodle::outside::{join_url, pairs_view, path_of_url, url_joined, url_path};
use crate::moodle::web::{is_failure, is_redirect};
use crate::moodle::MoodleError;
use crate::text::{decimal, decimal_string, same_text};

verus! {

/// How an attempt to put a mark ended.
#[derive(Clone, Copy, Debug, PartialEq, Eq, Structural)]
pub enum MarkOutcome {
    /// The mark was put: the server sent the browser on to the listing.
    Success,
    /// The server sent the browser back to the form: the password was wrong,
    /// or the mark was there already.
    Rejected,
    /// Anything else.
    Error(MoodleError),
}

/// The path that a successful submission is redirected to.
pub open spec fn view_path() -> Seq<char> {
    "/mod/attendance/view.php"@
}

/// The path that the form is submitted to.
pub open spec fn form_path() -> Seq<char> {
    "/mod/attendance/attendance.php"@
}

/// The fields of the form that puts a mark, in the order they are sent.
pub open spec fn mark_form(
    csrf_session: Seq<char>,
    session_id: u32,
    password: Seq<char>,
    status_id: u32,
) -> Seq<(Seq<char>, Seq<char>)> {
    seq![
        ("sesskey"@, csrf_session),
        ("sessid"@, decimal(session_id as nat)),
        ("_qf__mod_attendance_form_studentattendance"@, "1"@),
        ("mform_isexpanded_id_session"@, "1"@),
        ("studentpassword"@, password),
        ("submitbutton"@, "Save changes"@),
        ("status"@, decimal(status_id as nat)),
    ]
}

fn field(name: &str, value: &str) -> (f: (String, String))
    ensures
        f.0@ == name@,
        f.1@ == value@,
{
    (name.to_owned(), value.to_owned())
}

/// Builds the form that puts a mark.
pub fn make_mark_form(csrf_session: &str, session_id: u32, password: &str, status_id: u32) -> (form:
    Vec<(String, String)>)
    ensures
        pairs_view(form@) == mark_form(csrf_session@, session_id, password@, status_id),
{
    let mut form: Vec<(String, String)> = Vec::new();
    form.push(field("sesskey", csrf_session));
    form.push(field("sessid", decimal_string(session_id).as_str()));
    form.push(field("_qf__mod_attendance_form_studentattendance", "1"));
    form.push(field("mform_isexpanded_id_session", "1"));
    form.push(field("studentpassword", password));
    form.push(field("submitbutton", "Save changes"));
    form.push(field("status", decimal_string(status_id).as_str()));
    assert(pairs_view(form@) =~= mark_form(csrf_session@, session_id, password@, status_id));
    form
}

/// What a redirect to `path` means.
pub open spec fn path_outcome(path: Seq<char>) -> MarkOutcome {
    if path == view_path() {
        MarkOutcome::Success
    } else if path == form_path() {
        MarkOutcome::Rejected
    } else {
        MarkOutcome::Error(MoodleError::UnknownRedirect)
    }
}

/// Tells what a redirect to `path` means.
pub fn classify_path(path: &str) -> (outcome: MarkOutcome)
    ensures
        outcome == path_outcome(path@),
{
    if same_text(path, "/mod/attendance/view.php") {
        MarkOutcome::Success
    } else if same_text(path, "/mod/attendance/attendance.php") {
        MarkOutcome::Rejected
    } else {
        MarkOutcome::Error(MoodleError::UnknownRedirect)
    }
}

/// The path that a redirect leads to: that of its target, resolved against
/// the URL that was requested, as a browser resolves it. `None` where the
/// target cannot be resolved.
pub open spec fn redirect_path(page: Seq<char>, target: Seq<char>) -> Option<Seq<char>> {
    match url_joined(page, target) {
        None => None,
        Some(url) => url_path(url),
    }
}

/// What the answer to the form means, the form posted to `page`. An error
/// status, or any status that is no redirect, is an error; so is a redirect
/// without a target that can be resolved. Otherwise the path that the redirect
/// leads to decides, whether the target is written in full or relative to the
/// page.
pub open spec fn mark_outcome(page: Seq<char>, status: u16, location: Option<Seq<char>>) -> MarkOutcome {
    if is_failure(status) {
        MarkOutcome::Error(MoodleError::BadStatus(status))
    } else if !is_redirect(status) {
        MarkOutcome::Error(MoodleError::NotRedirected(status))
    } else {
        match location {
            None => MarkOutcome::Error(MoodleError::LocationUnreadable),
            Some(target) => match redirect_path(page, target) {
                None => MarkOutcome::Error(MoodleError::LocationUnreadable),
                Some(path) => path_outcome(path),
            },
        }
    }
}

/// Reads the answer to the form that was posted to `page`.
pub fn read_mark_response(page: &str, status: u16, location: &Option<String>) -> (outcome:
    MarkOutcome)
    ensures
        outcome == mark_outcome(page@, status, crate::moodle::outside::text_view(*location)),
{
    if status >= 400 && status < 600 {
        return MarkOutcome::Error(MoodleError::BadStatus(status));
    }
    if !(status >= 300 && status < 400) {
        return MarkOutcome::Error(MoodleError::NotRedirected(status));
    }
    let target = match location {
        None => {
            return MarkOutcome::Error(MoodleError::LocationUnreadable);
        },
        Some(target) => target,
    };
    let url = match join_url(page, target.as_str()) {
        None => {
            return MarkOutcome::Error(MoodleError::LocationUnreadable);
        },
        Some(url) => url,
    };
    match path_of_url(url.as_str()) {
        None => MarkOutcome::Error(MoodleError::LocationUnreadable),
        Some(path) => classify_path(path.as_str()),
    }
}

/// The answer to the form means success exactly where it is a redirect that
/// leads to the listing's path, and a rejection exactly where it is a redirect
/// that leads to the form's own path; every other redirect, and every answer
/// that is no redirect, is an error.
pub proof fn lemma_mark_outcome(page: Seq<char>, status: u16, location: Option<Seq<char>>)
    ensures
        mark_outcome(page, status, location) == MarkOutcome::Success <==> is_redirect(status)
            && location is Some && redirect_path(page, location->0) == Some(view_path()),
        mark_outcome(page, status, location) == MarkOutcome::Rejected <==> is_redirect(status)
            && location is Some && redirect_path(page, location->0) == Some(form_path()),
        !is_redirect(status) ==> mark_outcome(page, status, location) is Error,
        is_redirect(status) && !(location is Some && (redirect_path(page, location->0) == Some(
            view_path(),
        ) || redirect_path(page, location->0) == Some(form_path()))) ==> mark_outcome(
            page,
            status,
            location,
        ) is Error,
{
    reveal_strlit("/mod/attendance/view.php");
    reveal_strlit("/mod/attendance/attendance.php");
    assert(view_path().len() != form_path().len());
}

} // verus!
