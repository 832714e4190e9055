//! The calls that leave this library: decoding, validation, dates, URLs and
//! HTML documents. Each contract here is taken on trust from the crate that
//! does the work.

use vstd::prelude::*;
use chrono::Datelike;
use governor::Quota;
use scraper::{Html, Selector};
use crate::moodle::Date;

verus! {

/// What percent-decoding makes of a text; `None` where the decoded bytes are
/// not UTF-8.
pub uninterp spec fn percent_decoded(text: Seq<char>) -> Option<Seq<char>>;

/// `urlencoding::decode`: replaces each `%XY` escape by its byte and reads the
/// bytes as UTF-8. The result depends on the text alone.
#[verifier::external_body]
pub(crate) fn percent_decode(text: &str) -> (decoded: Option<String>)
    ensures
        decoded is Some <==> percent_decoded(text@) is Some,
        decoded matches Some(s) ==> percent_decoded(text@) == Some(s@),
{
    urlencoding::decode(text).ok().map(|s| s.into_owned())
}

/// A text with its HTML character references replaced by what they stand for.
pub uninterp spec fn entities_decoded(text: Seq<char>) -> Seq<char>;

/// `html_escape::decode_html_entities`: replaces named and numeric character
/// references that end in `;`. The result depends on the text alone.
#[verifier::external_body]
pub(crate) fn decode_entities(text: &str) -> (decoded: String)
    ensures
        decoded@ == entities_decoded(text@),
{
    html_escape::decode_html_entities(text).into_owned()
}

/// Whether a text is a syntactically valid email address.
pub uninterp spec fn valid_email(text: Seq<char>) -> bool;

/// `email_address::EmailAddress::is_valid`: whether the text parses as an
/// address. The result depends on the text alone.
#[verifier::external_body]
pub(crate) fn is_valid_email(text: &str) -> (valid: bool)
    ensures
        valid == valid_email(text@),
{
    email_address::EmailAddress::is_valid(text)
}

/// The date that a text gives when read by a `strftime` format; `None` where
/// the text does not fit the format or names no real date.
pub uninterp spec fn parsed_date(text: Seq<char>, format: Seq<char>) -> Option<Date>;

/// `chrono::NaiveDate::parse_from_str`, the date handed out as year, month
/// and day. The result depends on the text and the format alone.
#[verifier::external_body]
pub(crate) fn parse_date(text: &str, format: &str) -> (date: Option<Date>)
    ensures
        date == parsed_date(text@, format@),
{
    chrono::NaiveDate::parse_from_str(text, format).ok().map(
        |d| Date { year: d.year(), month: d.month(), day: d.day() },
    )
}

/// The view of an optional string.
pub open spec fn text_view(text: Option<String>) -> Option<Seq<char>> {
    match text {
        Some(t) => Some(t@),
        None => None,
    }
}

/// The path of an absolute URL; `None` where the text is no such URL.
pub uninterp spec fn url_path(text: Seq<char>) -> Option<Seq<char>>;

/// `url::Url::parse`, then `Url::path`: the path component of the URL that
/// the text spells. The result depends on the text alone.
#[verifier::external_body]
pub(crate) fn path_of_url(text: &str) -> (path: Option<String>)
    ensures
        text_view(path) == url_path(text@),
{
    url::Url::parse(text).ok().map(|u| u.path().to_string())
}

/// The key and value pairs in the query of an absolute URL, in order; `None`
/// where the text is no such URL.
pub uninterp spec fn url_query(text: Seq<char>) -> Option<Seq<(Seq<char>, Seq<char>)>>;

/// The view of a list of pairs of strings.
pub open spec fn pairs_view(pairs: Seq<(String, String)>) -> Seq<(Seq<char>, Seq<char>)> {
    pairs.map_values(|p: (String, String)| (p.0@, p.1@))
}

/// `url::Url::parse`, then `Url::query_pairs`: the query read as form data.
/// The result depends on the text alone.
#[verifier::external_body]
pub(crate) fn query_of_url(text: &str) -> (pairs: Option<Vec<(String, String)>>)
    ensures
        pairs is Some <==> url_query(text@) is Some,
        pairs matches Some(p) ==> url_query(text@) == Some(pairs_view(p@)),
{
    url::Url::parse(text).ok().map(
        |u| u.query_pairs().map(|(k, v)| (k.into_owned(), v.into_owned())).collect(),
    )
}

/// The URL that a reference resolves to against a base; `None` where the base
/// is no absolute URL or the reference cannot be resolved.
pub uninterp spec fn url_joined(base: Seq<char>, reference: Seq<char>) -> Option<Seq<char>>;

/// `url::Url::parse` of the base, then `Url::join`: the resolved URL, as
/// text. The result depends on the two texts alone.
#[verifier::external_body]
pub(crate) fn join_url(base: &str, reference: &str) -> (joined: Option<String>)
    ensures
        text_view(joined) == url_joined(base@, reference@),
{
    url::Url::parse(base).ok()?.join(reference).ok().map(String::from)
}

/// The views of a list of strings.
pub open spec fn texts_view(texts: Seq<String>) -> Seq<Seq<char>> {
    texts.map_values(|t: String| t@)
}

/// The views of a list of attribute values, each of which may be missing.
pub open spec fn values_view(values: Seq<Option<String>>) -> Seq<Option<Seq<char>>> {
    values.map_values(|v: Option<String>| text_view(v))
}

/// What one row of a table shows: for each of its chosen cells the cell's
/// text nodes, and for each of its chosen links the link's chosen attribute
/// (`None` where the link lacks it).
pub struct RawRow {
    pub cells: Vec<Vec<String>>,
    pub links: Vec<Option<String>>,
}

/// The mathematical value of a [`RawRow`].
pub ghost struct RawRowView {
    pub cells: Seq<Seq<Seq<char>>>,
    pub links: Seq<Option<Seq<char>>>,
}

impl View for RawRow {
    type V = RawRowView;

    open spec fn view(&self) -> RawRowView {
        RawRowView {
            cells: self.cells@.map_values(|c: Vec<String>| texts_view(c@)),
            links: values_view(self.links@),
        }
    }
}

/// The views of the rows of one table.
pub open spec fn rows_view(rows: Seq<RawRow>) -> Seq<RawRowView> {
    rows.map_values(|row: RawRow| row@)
}

/// The views of the rows of each of a list of tables.
pub open spec fn tables_view(tables: Seq<Vec<RawRow>>) -> Seq<Seq<RawRowView>> {
    tables.map_values(|rows: Vec<RawRow>| rows_view(rows@))
}

/// What a document shows under each element that matches `table`: one row for
/// each element directly under it, with all matches of `cell` and of `anchor`
/// below that row. Matches come in the order in which the document's tree
/// holds its nodes. `None` where one of the three selectors is not a
/// selector.
pub uninterp spec fn scraped_rows(
    html: Seq<char>,
    table: Seq<char>,
    cell: Seq<char>,
    anchor: Seq<char>,
    attr: Seq<char>,
) -> Option<Seq<Seq<RawRowView>>>;

/// `scraper`: parses the document (`Html::parse_document`) and the selectors
/// (`Selector::parse`); for every match of `table` (`Html::select`) and each
/// of its child elements (`ElementRef::child_elements`) it hands out the text
/// nodes of every match of `cell` and the attribute `attr` of every match of
/// `anchor` (`ElementRef::select`, `text`, `attr`). Nothing is picked here.
/// The result depends on the five texts alone.
#[verifier::external_body]
pub(crate) fn scrape_rows(html: &str, table: &str, cell: &str, anchor: &str, attr: &str) -> (tables:
    Option<Vec<Vec<RawRow>>>)
    ensures
        tables is Some <==> scraped_rows(html@, table@, cell@, anchor@, attr@) is Some,
        tables matches Some(t) ==> scraped_rows(html@, table@, cell@, anchor@, attr@) == Some(
            tables_view(t@),
        ),
{
    let table = Selector::parse(table).ok()?;
    let cell = Selector::parse(cell).ok()?;
    let anchor = Selector::parse(anchor).ok()?;
    let document = Html::parse_document(html);
    Some(document.select(&table).map(|t| t.child_elements().map(|row| RawRow {
        cells: row.select(&cell).map(|c| c.text().map(String::from).collect()).collect(),
        links: row.select(&anchor).map(|a| a.attr(attr).map(String::from)).collect(),
    }).collect()).collect())
}

/// What one label of a form shows: its text nodes, and for each of its chosen
/// inputs the input's chosen attribute (`None` where the input lacks it).
pub struct RawLabel {
    pub texts: Vec<String>,
    pub values: Vec<Option<String>>,
}

/// The mathematical value of a [`RawLabel`].
pub ghost struct RawLabelView {
    pub texts: Seq<Seq<char>>,
    pub values: Seq<Option<Seq<char>>>,
}

impl View for RawLabel {
    type V = RawLabelView;

    open spec fn view(&self) -> RawLabelView {
        RawLabelView { texts: texts_view(self.texts@), values: values_view(self.values@) }
    }
}

/// The views of a list of labels.
pub open spec fn labels_view(labels: Seq<RawLabel>) -> Seq<RawLabelView> {
    labels.map_values(|label: RawLabel| label@)
}

/// What a document shows at each element that matches `label`: its text
/// nodes, and all matches of `input` below it. Matches come in the order in
/// which the document's tree holds its nodes. `None` where one of the two
/// selectors is not a selector.
pub uninterp spec fn scraped_labels(
    html: Seq<char>,
    label: Seq<char>,
    input: Seq<char>,
    attr: Seq<char>,
) -> Option<Seq<RawLabelView>>;

/// `scraper`: parses the document (`Html::parse_document`) and the selectors
/// (`Selector::parse`); for every match of `label` (`Html::select`) it hands
/// out the text nodes (`ElementRef::text`) and the attribute `attr` of every
/// match of `input` under it (`ElementRef::select`, `attr`). Nothing is
/// picked here. The result depends on the four texts alone.
#[verifier::external_body]
pub(crate) fn scrape_labels(html: &str, label: &str, input: &str, attr: &str) -> (labels: Option<
    Vec<RawLabel>,
>)
    ensures
        labels is Some <==> scraped_labels(html@, label@, input@, attr@) is Some,
        labels matches Some(l) ==> scraped_labels(html@, label@, input@, attr@) == Some(
            labels_view(l@),
        ),
{
    let label = Selector::parse(label).ok()?;
    let input = Selector::parse(input).ok()?;
    let document = Html::parse_document(html);
    Some(document.select(&label).map(|l| RawLabel {
        texts: l.text().map(String::from).collect(),
        values: l.select(&input).map(|i| i.attr(attr).map(String::from)).collect(),
    }).collect())
}

/// `governor::Quota`: how fast a rate limiter lets requests through.
#[verifier::external_type_specification]
#[verifier::external_body]
pub struct ExQuota(Quota);

/// The time, in nanoseconds, after which a quota lets one more request
/// through.
pub uninterp spec fn quota_interval_nanos(quota: Quota) -> nat;

/// How many requests a quota lets through at once.
pub uninterp spec fn quota_burst(quota: Quota) -> nat;

/// `governor::Quota::with_period` on a period of whole milliseconds: a quota
/// that lets one request through per period, with a burst of one; `None`
/// exactly where the period is zero.
#[verifier::external_body]
pub(crate) fn quota_with_period(period_ms: u64) -> (quota: Option<Quota>)
    ensures
        quota is Some <==> period_ms > 0,
        quota matches Some(q) ==> quota_interval_nanos(q) == period_ms * 1_000_000
            && quota_burst(q) == 1,
{
    Quota::with_period(std::time::Duration::from_millis(period_ms))
}

/// `governor::Quota::allow_burst`: the same quota with another burst size,
/// which must not be zero.
#[verifier::external_body]
pub(crate) fn quota_allow_burst(quota: Quota, max_burst: u32) -> (adjusted: Quota)
    requires
        max_burst > 0,
    ensures
        quota_interval_nanos(adjusted) == quota_interval_nanos(quota),
        quota_burst(adjusted) == max_burst,
{
    quota.allow_burst(std::num::NonZeroU32::new(max_burst).unwrap())
}

} // verus!
