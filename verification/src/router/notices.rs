//! The texts that tell a user how the attempt to put a mark ended.

use vstd::prelude::*;
use crate::attendance::{Attendance, AttendanceView};
use crate::markup::{bold, code_inline, link, spec_bold, spec_code_inline, spec_link};
use crate::text::{decimal_two, push_decimal_two};

verus! {

/// What a user can do about a mark that was not put.
#[derive(Clone, Copy, Debug, PartialEq, Eq, Structural)]
pub enum Solutions {
    /// Put the mark by hand.
    ManuallyMarkAt,
    /// Register again, and put this mark by hand.
    ReRegister,
    /// Register, and put this mark by hand.
    Register,
}

/// The announced day as shown to users: day and month, two places each.
pub open spec fn date_label(day: u8, month: u8) -> Seq<char> {
    decimal_two(day as nat) + "."@ + decimal_two(month as nat)
}

/// The way to put the mark by hand: the password, ready to copy, and a link
/// to the page.
pub open spec fn manual_way(password: Seq<char>, url: Seq<char>) -> Seq<char> {
    spec_code_inline(password) + "\n\n"@ + spec_link(url, url)
}

/// The advice that closes a failure message.
pub open spec fn advice(solutions: Solutions, password: Seq<char>, url: Seq<char>) -> Seq<char> {
    match solutions {
        Solutions::ManuallyMarkAt => "Please do it manually, the password is "@ + manual_way(
            password,
            url,
        ),
        Solutions::ReRegister => "You should re-register with /start command to not miss further attendance marks.\n\nFor now you can do it manually, the password is "@
            + manual_way(password, url),
        Solutions::Register => "You should register with /start command to not miss further attendance marks.\n\nFor now you can do it manually, the password is "@
            + manual_way(password, url),
    }
}

/// The message that tells a user that a mark was not put, why, and what to
/// do about it.
pub open spec fn failure_message(
    attendance: AttendanceView,
    reason: Seq<char>,
    solutions: Solutions,
    url: Seq<char>,
) -> Seq<char> {
    "I could not put an attendance mark for "@ + spec_bold(
        date_label(attendance.day, attendance.month),
    ) + " because "@ + reason + ".\n\n"@ + advice(solutions, attendance.password, url)
}

/// The message that tells a user that a mark was put.
pub open spec fn success_message(attendance: AttendanceView) -> Seq<char> {
    "Attendance on "@ + spec_bold(date_label(attendance.day, attendance.month))
        + " marked successfully!"@
}

fn label_of(attendance: &Attendance) -> (label: String)
    ensures
        label@ == spec_bold(date_label(attendance.day, attendance.month)),
{
    let mut date = String::new();
    push_decimal_two(&mut date, attendance.day);
    date.append(".");
    push_decimal_two(&mut date, attendance.month);
    assert(date@ =~= date_label(attendance.day, attendance.month));
    bold(date.as_str())
}

/// Writes the message about a mark that was not put.
pub fn format_failure_message(
    attendance: &Attendance,
    reason: &str,
    solutions: Solutions,
    manual_url: &str,
) -> (message: String)
    ensures
        message@ == failure_message(attendance@, reason@, solutions, manual_url@),
{
    let mut m = String::new();
    m.append("I could not put an attendance mark for ");
    m.append(label_of(attendance).as_str());
    m.append(" because ");
    m.append(reason);
    m.append(".\n\n");
    match solutions {
        Solutions::ManuallyMarkAt => {
            m.append("Please do it manually, the password is ");
        },
        Solutions::ReRegister => {
            m.append(
                "You should re-register with /start command to not miss further attendance marks.\n\nFor now you can do it manually, the password is ",
            );
        },
        Solutions::Register => {
            m.append(
                "You should register with /start command to not miss further attendance marks.\n\nFor now you can do it manually, the password is ",
            );
        },
    }
    m.append(code_inline(attendance.password.as_str()).as_str());
    m.append("\n\n");
    m.append(link(manual_url, manual_url).as_str());
    assert(m@ =~= failure_message(attendance@, reason@, solutions, manual_url@));
    m
}

/// Writes the message about a mark that was put.
pub fn format_success_message(attendance: &Attendance) -> (message: String)
    ensures
        message@ == success_message(attendance@),
{
    let mut m = String::new();
    m.append("Attendance on ");
    m.append(label_of(attendance).as_str());
    m.append(" marked successfully!");
    assert(m@ =~= success_message(attendance@));
    m
}

} // verus!
