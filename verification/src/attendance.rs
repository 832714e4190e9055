//! The announced attendance password.

use vstd::prelude::*;
use crate::text::push_decimal;

verus! {

/// An attendance password announced for one day of the year.
#[derive(Debug)]
pub struct Attendance {
    pub day: u8,
    pub month: u8,
    pub password: String,
}

/// The mathematical value of an [`Attendance`].
pub ghost struct AttendanceView {
    pub day: u8,
    pub month: u8,
    pub password: Seq<char>,
}

impl View for Attendance {
    type V = AttendanceView;

    open spec fn view(&self) -> AttendanceView {
        AttendanceView { day: self.day, month: self.month, password: self.password@ }
    }
}

impl Attendance {
    /// The text `day.month: password`, the numbers without padding.
    pub open spec fn spec_text(self) -> Seq<char> {
        crate::text::decimal(self.day as nat) + seq!['.'] + crate::text::decimal(
            self.month as nat,
        ) + seq![':', ' '] + self.password@
    }

    /// Renders the announcement as `day.month: password`.
    pub fn to_text(&self) -> (s: String)
        ensures
            s@ == self.spec_text(),
    {
        let mut s = String::new();
        push_decimal(&mut s, self.day as u64);
        s.push('.');
        push_decimal(&mut s, self.month as u64);
        s.push(':');
        s.push(' ');
        s.append(self.password.as_str());
        assert(s@ =~= self.spec_text());
        s
    }
}

} // verus!
