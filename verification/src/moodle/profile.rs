//! The profile page: whose session it is, and the key that forms need.

use vstd::prelude::*;
use crate::moodle::outside::{
    decode_entities,
    entities_decoded,
    is_valid_email,
    percent_decode,
    percent_decoded,
    text_view,
    valid_email,
};
use crate::moodle::web::is_redirect;
use crate::moodle::{MoodleError, SessionProbeResult, SessionProbeView};
use crate::text::{chars_of, has_at, occurs_at, string_of};

verus! {

/// Where the run of characters other than `stop` that starts at `from` ends:
/// at the first `stop`, or at the end of `s`.
pub open spec fn run_end(s: Seq<char>, from: int, stop: char) -> int
    decreases s.len() - from,
{
    if from < 0 || from >= s.len() || s[from] == stop {
        from
    } else {
        run_end(s, from + 1, stop)
    }
}

/// The quoted value that `head` introduces at position `at`: `head`, then one
/// or more characters other than a double quote, then `tail`.
pub open spec fn quoted_at(s: Seq<char>, at: int, head: Seq<char>, tail: Seq<char>) -> Option<
    Seq<char>,
> {
    let from = at + head.len();
    let to = run_end(s, from, '"');
    if occurs_at(s, at, head) && to > from && occurs_at(s, to, tail) {
        Some(s.subrange(from, to))
    } else {
        None
    }
}

/// The quoted value at position `at` under the first of `heads` that
/// introduces one there.
pub open spec fn quoted_among(s: Seq<char>, at: int, heads: Seq<Seq<char>>, tail: Seq<char>) -> Option<
    Seq<char>,
>
    decreases heads.len(),
{
    if heads.len() == 0 {
        None
    } else {
        match quoted_at(s, at, heads.first(), tail) {
            Some(v) => Some(v),
            None => quoted_among(s, at, heads.drop_first(), tail),
        }
    }
}

/// The quoted value at the leftmost position, from `at` on, where one of
/// `heads` introduces one.
pub open spec fn first_quoted(s: Seq<char>, at: int, heads: Seq<Seq<char>>, tail: Seq<char>) -> Option<
    Seq<char>,
>
    decreases s.len() - at,
{
    if at < 0 || at >= s.len() {
        None
    } else {
        match quoted_among(s, at, heads, tail) {
            Some(v) => Some(v),
            None => first_quoted(s, at + 1, heads, tail),
        }
    }
}

/// The value found from `from` on is the one at the leftmost position where
/// one of the heads introduces one; none is found exactly where none is
/// introduced anywhere from `from` on.
pub proof fn lemma_first_quoted_is_leftmost(
    s: Seq<char>,
    from: int,
    heads: Seq<Seq<char>>,
    tail: Seq<char>,
)
    requires
        0 <= from,
    ensures
        match first_quoted(s, from, heads, tail) {
            Some(v) => exists|at: int|
                {
                    &&& from <= at < s.len()
                    &&& #[trigger] quoted_among(s, at, heads, tail) == Some(v)
                    &&& forall|j: int|
                        from <= j < at ==> (#[trigger] quoted_among(s, j, heads, tail)) is None
                },
            None => forall|j: int|
                from <= j < s.len() ==> (#[trigger] quoted_among(s, j, heads, tail)) is None,
        },
    decreases s.len() - from,
{
    if from < s.len() {
        match quoted_among(s, from, heads, tail) {
            Some(v) => {
                assert(quoted_among(s, from, heads, tail) == Some(v));
            },
            None => {
                lemma_first_quoted_is_leftmost(s, from + 1, heads, tail);
                match first_quoted(s, from + 1, heads, tail) {
                    Some(v) => {
                        let at = choose|at: int|
                            {
                                &&& from + 1 <= at < s.len()
                                &&& #[trigger] quoted_among(s, at, heads, tail) == Some(v)
                                &&& forall|j: int|
                                    from + 1 <= j < at ==> (#[trigger] quoted_among(
                                        s,
                                        j,
                                        heads,
                                        tail,
                                    )) is None
                            };
                        assert forall|j: int| from <= j < at implies (#[trigger] quoted_among(
                            s,
                            j,
                            heads,
                            tail,
                        )) is None by {
                            if j > from {
                            }
                        }
                        assert(quoted_among(s, at, heads, tail) == Some(v));
                    },
                    None => {
                        assert forall|j: int| from <= j < s.len() implies (#[trigger] quoted_among(
                            s,
                            j,
                            heads,
                            tail,
                        )) is None by {
                            if j > from {
                            }
                        }
                    },
                }
            },
        }
    }
}

/// The views of a list of patterns.
pub open spec fn patterns_view(heads: Seq<Vec<char>>) -> Seq<Seq<char>> {
    heads.map_values(|h: Vec<char>| h@)
}

fn end_of_run(s: &Vec<char>, from: usize, stop: char) -> (to: usize)
    requires
        from <= s.len(),
    ensures
        to == run_end(s@, from as int, stop),
        from <= to <= s.len(),
{
    let mut to: usize = from;
    while to < s.len() && s[to] != stop
        invariant
            from <= to <= s.len(),
            run_end(s@, from as int, stop) == run_end(s@, to as int, stop),
        decreases s.len() - to,
    {
        to += 1;
    }
    to
}

fn value_at(s: &Vec<char>, at: usize, head: &Vec<char>, tail: &Vec<char>) -> (value: Option<String>)
    requires
        at <= s.len(),
    ensures
        text_view(value) == quoted_at(s@, at as int, head@, tail@),
{
    if !has_at(s, at, head) {
        return None;
    }
    let from = at + head.len();
    let to = end_of_run(s, from, '"');
    if to > from && has_at(s, to, tail) {
        Some(string_of(s, from, to))
    } else {
        None
    }
}

fn value_among(s: &Vec<char>, at: usize, heads: &Vec<Vec<char>>, tail: &Vec<char>) -> (value:
    Option<String>)
    requires
        at <= s.len(),
    ensures
        text_view(value) == quoted_among(s@, at as int, patterns_view(heads@), tail@),
{
    let ghost all = patterns_view(heads@);
    let mut i: usize = 0;
    assert(all.skip(0) =~= all);
    while i < heads.len()
        invariant
            at <= s.len(),
            i <= heads.len(),
            all == patterns_view(heads@),
            quoted_among(s@, at as int, all, tail@) == quoted_among(
                s@,
                at as int,
                all.skip(i as int),
                tail@,
            ),
        decreases heads.len() - i,
    {
        assert(all.skip(i as int).first() == heads@[i as int]@);
        match value_at(s, at, &heads[i], tail) {
            Some(v) => {
                return Some(v);
            },
            None => {},
        }
        assert(all.skip(i as int).drop_first() =~= all.skip(i + 1));
        i += 1;
    }
    None
}

/// Finds the leftmost quoted value that one of `heads` introduces and `tail`
/// closes.
pub fn find_quoted(s: &Vec<char>, heads: &Vec<Vec<char>>, tail: &Vec<char>) -> (value: Option<
    String,
>)
    ensures
        text_view(value) == first_quoted(s@, 0, patterns_view(heads@), tail@),
{
    let mut at: usize = 0;
    while at < s.len()
        invariant
            at <= s.len(),
            first_quoted(s@, 0, patterns_view(heads@), tail@) == first_quoted(
                s@,
                at as int,
                patterns_view(heads@),
                tail@,
            ),
        decreases s.len() - at,
    {
        match value_among(s, at, heads, tail) {
            Some(v) => {
                return Some(v);
            },
            None => {},
        }
        at += 1;
    }
    None
}

/// What introduces the email link on the profile page, in the two languages
/// that the page comes in.
pub open spec fn email_heads() -> Seq<Seq<char>> {
    seq![
        "<dt>Email address</dt><dd><a href=\""@,
        "<dt>Адрес электронной почты</dt><dd><a href=\""@,
    ]
}

/// What introduces the session key in the page's start-up data.
pub open spec fn sesskey_heads() -> Seq<Seq<char>> {
    seq!["\"sesskey\":\""@]
}

/// The prefix of a mail link.
pub open spec fn mail_prefix() -> Seq<char> {
    "mailto:"@
}

/// The address that an email link stands for: percent-decoded, then its
/// character references resolved, then without the `mailto:` that must open
/// it; the rest must be a valid address.
pub open spec fn email_of_link(link: Seq<char>) -> Result<Seq<char>, MoodleError> {
    match percent_decoded(link) {
        None => Err(MoodleError::EmailEncoding),
        Some(decoded) => {
            let plain = entities_decoded(decoded);
            if !occurs_at(plain, 0, mail_prefix()) {
                Err(MoodleError::MailtoMissing)
            } else if !valid_email(plain.skip(mail_prefix().len() as int)) {
                Err(MoodleError::EmailInvalid)
            } else {
                Ok(plain.skip(mail_prefix().len() as int))
            }
        },
    }
}

/// The view of an address, or of the error in its place.
pub open spec fn address_view(r: Result<String, MoodleError>) -> Result<Seq<char>, MoodleError> {
    match r {
        Ok(s) => Ok(s@),
        Err(e) => Err(e),
    }
}

/// Decodes the target of the email link into an address.
pub fn decode_email_link(link: &str) -> (email: Result<String, MoodleError>)
    ensures
        address_view(email) == email_of_link(link@),
{
    let decoded = match percent_decode(link) {
        None => {
            return Err(MoodleError::EmailEncoding);
        },
        Some(decoded) => decoded,
    };
    let plain = chars_of(decode_entities(decoded.as_str()).as_str());
    let prefix = chars_of("mailto:");
    if !has_at(&plain, 0, &prefix) {
        return Err(MoodleError::MailtoMissing);
    }
    let address = string_of(&plain, prefix.len(), plain.len());
    assert(plain@.subrange(prefix.len() as int, plain.len() as int) =~= plain@.skip(
        prefix.len() as int,
    ));
    if !is_valid_email(address.as_str()) {
        return Err(MoodleError::EmailInvalid);
    }
    Ok(address)
}

/// What a profile page says about the session that fetched it. A redirect
/// means that the session is not valid, whatever the body holds. Any other
/// page must show the account's email link and the session key.
pub open spec fn probe_outcome(status: u16, body: Seq<char>) -> Result<
    SessionProbeView,
    MoodleError,
> {
    if is_redirect(status) {
        Ok(SessionProbeView::Invalid)
    } else {
        match first_quoted(body, 0, email_heads(), "\">"@) {
            None => Err(MoodleError::EmailNotFound),
            Some(link) => match email_of_link(link) {
                Err(e) => Err(e),
                Ok(email) => match first_quoted(body, 0, sesskey_heads(), "\""@) {
                    None => Err(MoodleError::SesskeyNotFound),
                    Some(key) => Ok(SessionProbeView::Valid { email, csrf_session: key }),
                },
            },
        }
    }
}

/// The view of a probe's result, or of the error in its place.
pub open spec fn probe_view(r: Result<SessionProbeResult, MoodleError>) -> Result<
    SessionProbeView,
    MoodleError,
> {
    match r {
        Ok(p) => Ok(p@),
        Err(e) => Err(e),
    }
}

/// Reads a profile page fetched with a session.
pub fn read_profile(status: u16, body: &str) -> (probe: Result<SessionProbeResult, MoodleError>)
    ensures
        probe_view(probe) == probe_outcome(status, body@),
{
    if status >= 300 && status < 400 {
        return Ok(SessionProbeResult::Invalid);
    }
    let page = chars_of(body);
    let mut heads: Vec<Vec<char>> = Vec::new();
    heads.push(chars_of("<dt>Email address</dt><dd><a href=\""));
    heads.push(chars_of("<dt>Адрес электронной почты</dt><dd><a href=\""));
    assert(patterns_view(heads@) =~= email_heads());
    let link = match find_quoted(&page, &heads, &chars_of("\">")) {
        None => {
            return Err(MoodleError::EmailNotFound);
        },
        Some(link) => link,
    };
    let email = match decode_email_link(link.as_str()) {
        Err(e) => {
            return Err(e);
        },
        Ok(email) => email,
    };
    let mut keys: Vec<Vec<char>> = Vec::new();
    keys.push(chars_of("\"sesskey\":\""));
    assert(patterns_view(keys@) =~= sesskey_heads());
    match find_quoted(&page, &keys, &chars_of("\"")) {
        None => Err(MoodleError::SesskeyNotFound),
        Some(key) => Ok(SessionProbeResult::Valid { email, csrf_session: key }),
    }
}

/// A redirect in answer to the probe means that the session is not valid,
/// whatever the body holds.
pub proof fn lemma_redirect_means_invalid(status: u16, body: Seq<char>)
    requires
        is_redirect(status),
    ensures
        probe_outcome(status, body) == Ok::<SessionProbeView, MoodleError>(
            SessionProbeView::Invalid,
        ),
{
}

} // verus!
