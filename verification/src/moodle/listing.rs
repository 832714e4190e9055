//! The attendance listing: which sessions the page offers.

use vstd::prelude::*;
use crate::moodle::outside::{
    join_url,
    parse_date,
    parsed_date,
    query_of_url,
    rows_view,
    scrape_rows,
    scraped_rows,
    url_joined,
    url_query,
    RawRow,
    RawRowView,
};
use crate::moodle::{AttendanceSession, Date, MoodleError};
use crate::text::{parse_u32_text, parsed_u32, same_text, trim, trimmed};

verus! {

/// The first accepted way of writing a date, as in `23.01.23 (Mon)`.
pub open spec fn short_date_format() -> Seq<char> {
    "%d.%m.%y (%a)"@
}

/// The second accepted way of writing a date, as in `Mon 23 Jan 2023`.
pub open spec fn long_date_format() -> Seq<char> {
    "%a %d %b %Y"@
}

/// The date that a cell's text gives: read in the short format, or else in
/// the long one.
pub open spec fn session_date(text: Seq<char>) -> Option<Date> {
    match parsed_date(text, short_date_format()) {
        Some(d) => Some(d),
        None => parsed_date(text, long_date_format()),
    }
}

/// Reads a date in either accepted format.
pub fn parse_session_date(text: &str) -> (date: Option<Date>)
    ensures
        date == session_date(text@),
{
    match parse_date(text, "%d.%m.%y (%a)") {
        Some(d) => Some(d),
        None => parse_date(text, "%a %d %b %Y"),
    }
}

/// The value of the first pair whose key is `key`.
pub open spec fn first_value(pairs: Seq<(Seq<char>, Seq<char>)>, key: Seq<char>) -> Option<
    Seq<char>,
>
    decreases pairs.len(),
{
    if pairs.len() == 0 {
        None
    } else if pairs.first().0 == key {
        Some(pairs.first().1)
    } else {
        first_value(pairs.drop_first(), key)
    }
}

/// Looks up the first pair whose key is `key`.
pub fn find_value(pairs: &Vec<(String, String)>, key: &str) -> (value: Option<String>)
    ensures
        crate::moodle::outside::text_view(value) == first_value(
            crate::moodle::outside::pairs_view(pairs@),
            key@,
        ),
{
    let ghost all = crate::moodle::outside::pairs_view(pairs@);
    let mut i: usize = 0;
    assert(all.skip(0) =~= all);
    while i < pairs.len()
        invariant
            i <= pairs.len(),
            all == crate::moodle::outside::pairs_view(pairs@),
            first_value(all, key@) == first_value(all.skip(i as int), key@),
        decreases pairs.len() - i,
    {
        assert(all.skip(i as int).first() == (pairs@[i as int].0@, pairs@[i as int].1@));
        if same_text(pairs[i].0.as_str(), key) {
            return Some(pairs[i].1.clone());
        }
        assert(all.skip(i as int).drop_first() =~= all.skip(i + 1));
        i += 1;
    }
    None
}

/// The name of the query parameter that carries a session's number.
pub open spec fn session_key() -> Seq<char> {
    "sessid"@
}

/// The query of a link's target, the target resolved against the URL of the
/// page that holds the link, as a browser resolves it; `None` where it cannot
/// be resolved.
pub open spec fn link_query(page: Seq<char>, href: Seq<char>) -> Option<
    Seq<(Seq<char>, Seq<char>)>,
> {
    match url_joined(page, href) {
        None => None,
        Some(url) => url_query(url),
    }
}

/// What one row of the listing gives, on a page fetched from `page`. A row
/// without a link is passed over, whatever else it holds. A row with a link
/// must show a date in one of the two formats, in the first text of its first
/// date cell, and its first link must have a target whose query names a
/// session by number.
pub open spec fn row_outcome(page: Seq<char>, row: RawRowView) -> Result<
    Option<AttendanceSession>,
    MoodleError,
> {
    if row.links.len() == 0 {
        Ok(None)
    } else if row.cells.len() == 0 || row.cells[0].len() == 0 {
        Err(MoodleError::DateNotFound)
    } else {
        match session_date(trimmed(row.cells[0][0])) {
            None => Err(MoodleError::DateUnreadable),
            Some(date) => match row.links[0] {
                None => Err(MoodleError::LinkWithoutTarget),
                Some(href) => match link_query(page, href) {
                    None => Err(MoodleError::LinkUnreadable),
                    Some(query) => match first_value(query, session_key()) {
                        None => Err(MoodleError::SessionIdMissing),
                        Some(number) => match parsed_u32(number) {
                            None => Err(MoodleError::SessionIdUnreadable),
                            Some(id) => Ok(Some(AttendanceSession { id, date })),
                        },
                    },
                },
            },
        }
    }
}

/// Reads one row of the listing of the page fetched from `page`.
pub fn session_of_row(page: &str, row: &RawRow) -> (outcome: Result<
    Option<AttendanceSession>,
    MoodleError,
>)
    ensures
        outcome == row_outcome(page@, row@),
{
    if row.links.len() == 0 {
        return Ok(None);
    }
    if row.cells.len() == 0 || row.cells[0].len() == 0 {
        return Err(MoodleError::DateNotFound);
    }
    assert(row@.cells[0][0] == row.cells@[0]@[0]@);
    assert(row@.links[0] == crate::moodle::outside::text_view(row.links@[0]));
    let date = match parse_session_date(trim(row.cells[0][0].as_str()).as_str()) {
        None => {
            return Err(MoodleError::DateUnreadable);
        },
        Some(date) => date,
    };
    let href = match &row.links[0] {
        None => {
            return Err(MoodleError::LinkWithoutTarget);
        },
        Some(href) => href,
    };
    let url = match join_url(page, href.as_str()) {
        None => {
            return Err(MoodleError::LinkUnreadable);
        },
        Some(url) => url,
    };
    let query = match query_of_url(url.as_str()) {
        None => {
            return Err(MoodleError::LinkUnreadable);
        },
        Some(query) => query,
    };
    let number = match find_value(&query, "sessid") {
        None => {
            return Err(MoodleError::SessionIdMissing);
        },
        Some(number) => number,
    };
    match parse_u32_text(number.as_str()) {
        None => Err(MoodleError::SessionIdUnreadable),
        Some(id) => Ok(Some(AttendanceSession { id, date })),
    }
}

/// The sessions that a run of rows gives, in the rows' order; the first row
/// that cannot be read decides the error.
pub open spec fn sessions_of(page: Seq<char>, rows: Seq<RawRowView>) -> Result<
    Seq<AttendanceSession>,
    MoodleError,
>
    decreases rows.len(),
{
    if rows.len() == 0 {
        Ok(Seq::empty())
    } else {
        match sessions_of(page, rows.drop_last()) {
            Err(e) => Err(e),
            Ok(before) => match row_outcome(page, rows.last()) {
                Err(e) => Err(e),
                Ok(None) => Ok(before),
                Ok(Some(session)) => Ok(before.push(session)),
            },
        }
    }
}

/// The view of what [`sessions_of_rows`] and [`read_listing`] return.
pub open spec fn sessions_view(r: Result<Vec<AttendanceSession>, MoodleError>) -> Result<
    Seq<AttendanceSession>,
    MoodleError,
> {
    match r {
        Ok(v) => Ok(v@),
        Err(e) => Err(e),
    }
}

/// Reads the rows of the listing in order, on a page fetched from `page`.
pub fn sessions_of_rows(page: &str, rows: &Vec<RawRow>) -> (sessions: Result<
    Vec<AttendanceSession>,
    MoodleError,
>)
    ensures
        sessions_view(sessions) == sessions_of(page@, rows_view(rows@)),
{
    let ghost all = rows_view(rows@);
    let mut found: Vec<AttendanceSession> = Vec::new();
    let mut i: usize = 0;
    while i < rows.len()
        invariant
            i <= rows.len(),
            all == rows_view(rows@),
            sessions_of(page@, all.take(i as int)) == Ok::<Seq<AttendanceSession>, MoodleError>(
                found@,
            ),
        decreases rows.len() - i,
    {
        proof {
            let t = all.take(i + 1);
            assert(t.drop_last() =~= all.take(i as int));
            assert(t.last() == rows@[i as int]@);
        }
        match session_of_row(page, &rows[i]) {
            Err(e) => {
                proof {
                    lemma_error_stays(page@, all, i + 1);
                }
                return Err(e);
            },
            Ok(None) => {},
            Ok(Some(session)) => {
                found.push(session);
            },
        }
        i += 1;
    }
    assert(all.take(i as int) =~= all);
    Ok(found)
}

/// Once a prefix of the rows fails, the whole run fails in the same way.
pub proof fn lemma_error_stays(page: Seq<char>, rows: Seq<RawRowView>, n: int)
    requires
        0 <= n <= rows.len(),
        sessions_of(page, rows.take(n)) is Err,
    ensures
        sessions_of(page, rows) == sessions_of(page, rows.take(n)),
    decreases rows.len(),
{
    if n == rows.len() {
        assert(rows.take(n) =~= rows);
    } else {
        assert(rows.drop_last().take(n) =~= rows.take(n));
        lemma_error_stays(page, rows.drop_last(), n);
    }
}

/// Where the listing page keeps its table.
pub open spec fn table_selector() -> Seq<char> {
    "table.generaltable.attwidth.boxaligncenter > tbody"@
}

/// Where a row keeps its date.
pub open spec fn date_selector() -> Seq<char> {
    "td:nth-of-type(1)"@
}

/// Where a row keeps the link to its session.
pub open spec fn link_selector() -> Seq<char> {
    "td:nth-of-type(3) > a"@
}

/// The sessions that a listing page offers, the page fetched from `page`:
/// those of the rows of its first attendance table.
pub open spec fn listing_sessions(page: Seq<char>, html: Seq<char>) -> Result<
    Seq<AttendanceSession>,
    MoodleError,
> {
    match scraped_rows(html, table_selector(), date_selector(), link_selector(), "href"@) {
        None => Err(MoodleError::TableNotFound),
        Some(tables) => if tables.len() == 0 {
            Err(MoodleError::TableNotFound)
        } else {
            sessions_of(page, tables[0])
        },
    }
}

/// Reads the sessions off a listing page that was fetched from `page`.
pub fn read_listing(page: &str, html: &str) -> (sessions: Result<
    Vec<AttendanceSession>,
    MoodleError,
>)
    ensures
        sessions_view(sessions) == listing_sessions(page@, html@),
{
    match scrape_rows(
        html,
        "table.generaltable.attwidth.boxaligncenter > tbody",
        "td:nth-of-type(1)",
        "td:nth-of-type(3) > a",
        "href",
    ) {
        None => Err(MoodleError::TableNotFound),
        Some(tables) => {
            if tables.len() == 0 {
                return Err(MoodleError::TableNotFound);
            }
            sessions_of_rows(page, &tables[0])
        },
    }
}

/// A date is read where it fits one of the two formats, and only there; the
/// short format is tried first.
pub proof fn lemma_date_formats(text: Seq<char>)
    ensures
        session_date(text) is Some <==> parsed_date(text, short_date_format()) is Some
            || parsed_date(text, long_date_format()) is Some,
        parsed_date(text, short_date_format()) is Some ==> session_date(text) == parsed_date(
            text,
            short_date_format(),
        ),
        parsed_date(text, short_date_format()) is None ==> session_date(text) == parsed_date(
            text,
            long_date_format(),
        ),
{
}

/// A row without a link is passed over: it raises no error, whatever else it
/// holds, and the listing gives what it would give without that row.
pub proof fn lemma_row_without_link_is_skipped(
    page: Seq<char>,
    before: Seq<RawRowView>,
    row: RawRowView,
    after: Seq<RawRowView>,
)
    requires
        row.links.len() == 0,
    ensures
        row_outcome(page, row) == Ok::<Option<AttendanceSession>, MoodleError>(None),
        sessions_of(page, before.push(row) + after) == sessions_of(page, before + after),
    decreases after.len(),
{
    if after.len() == 0 {
        assert(before.push(row) + after =~= before.push(row));
        assert(before + after =~= before);
        assert(before.push(row).drop_last() =~= before);
    } else {
        lemma_row_without_link_is_skipped(page, before, row, after.drop_last());
        assert((before.push(row) + after).drop_last() =~= before.push(row) + after.drop_last());
        assert((before + after).drop_last() =~= before + after.drop_last());
        assert((before.push(row) + after).last() == after.last());
        assert((before + after).last() == after.last());
    }
}

} // verus!
