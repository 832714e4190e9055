//! The statuses that a session's form offers.

use vstd::prelude::*;
use crate::moodle::outside::{
    labels_view,
    scrape_labels,
    scraped_labels,
    texts_view,
    RawLabel,
    RawLabelView,
};
use crate::moodle::MoodleError;
use crate::text::{parse_u32_text, parsed_u32, same_text, trim, trimmed};

verus! {

/// The name that a label shows: its first text that is more than white space,
/// trimmed.
pub open spec fn label_name(texts: Seq<Seq<char>>) -> Option<Seq<char>>
    decreases texts.len(),
{
    if texts.len() == 0 {
        None
    } else if trimmed(texts.first()).len() > 0 {
        Some(trimmed(texts.first()))
    } else {
        label_name(texts.drop_first())
    }
}

/// Finds the name that a label shows.
pub fn name_of_label(texts: &Vec<String>) -> (name: Option<String>)
    ensures
        crate::moodle::outside::text_view(name) == label_name(texts_view(texts@)),
{
    let ghost all = texts_view(texts@);
    let mut i: usize = 0;
    assert(all.skip(0) =~= all);
    while i < texts.len()
        invariant
            i <= texts.len(),
            all == texts_view(texts@),
            label_name(all) == label_name(all.skip(i as int)),
        decreases texts.len() - i,
    {
        assert(all.skip(i as int).first() == texts@[i as int]@);
        let t = trim(texts[i].as_str());
        proof {
            reveal_strlit("");
            assert(""@ =~= Seq::<char>::empty());
        }
        if !same_text(t.as_str(), "") {
            assert(t@.len() > 0) by {
                if t@.len() == 0 {
                    assert(t@ =~= Seq::<char>::empty());
                }
            }
            return Some(t);
        }
        proof {
            assert(all.skip(i as int).drop_first() =~= all.skip(i + 1));
        }
        i += 1;
    }
    None
}

/// What one label of the status form gives: its name and the number that is
/// the value of its first input.
pub open spec fn label_outcome(label: RawLabelView) -> Result<(u32, Seq<char>), MoodleError> {
    match label_name(label.texts) {
        None => Err(MoodleError::LabelTextMissing),
        Some(name) => if label.values.len() == 0 {
            Err(MoodleError::InputMissing)
        } else {
            match label.values[0] {
                None => Err(MoodleError::InputValueMissing),
                Some(value) => match parsed_u32(value) {
                    None => Err(MoodleError::InputValueUnreadable),
                    Some(id) => Ok((id, name)),
                },
            }
        },
    }
}

/// The view of one status, or of the error in its place.
pub open spec fn status_view(r: Result<(u32, String), MoodleError>) -> Result<
    (u32, Seq<char>),
    MoodleError,
> {
    match r {
        Ok(s) => Ok((s.0, s.1@)),
        Err(e) => Err(e),
    }
}

/// Reads one label of the status form.
pub fn status_of_label(label: &RawLabel) -> (status: Result<(u32, String), MoodleError>)
    ensures
        status_view(status) == label_outcome(label@),
{
    let name = match name_of_label(&label.texts) {
        None => {
            return Err(MoodleError::LabelTextMissing);
        },
        Some(name) => name,
    };
    if label.values.len() == 0 {
        return Err(MoodleError::InputMissing);
    }
    assert(label@.values[0] == crate::moodle::outside::text_view(label.values@[0]));
    let value = match &label.values[0] {
        None => {
            return Err(MoodleError::InputValueMissing);
        },
        Some(value) => value,
    };
    match parse_u32_text(value.as_str()) {
        None => Err(MoodleError::InputValueUnreadable),
        Some(id) => Ok((id, name)),
    }
}

/// The statuses that a run of labels gives, in the labels' order; the first
/// label that cannot be read decides the error.
pub open spec fn statuses_of(labels: Seq<RawLabelView>) -> Result<
    Seq<(u32, Seq<char>)>,
    MoodleError,
>
    decreases labels.len(),
{
    if labels.len() == 0 {
        Ok(Seq::empty())
    } else {
        match statuses_of(labels.drop_last()) {
            Err(e) => Err(e),
            Ok(before) => match label_outcome(labels.last()) {
                Err(e) => Err(e),
                Ok(status) => Ok(before.push(status)),
            },
        }
    }
}

/// The view of a list of statuses.
pub open spec fn list_view(statuses: Seq<(u32, String)>) -> Seq<(u32, Seq<char>)> {
    statuses.map_values(|s: (u32, String)| (s.0, s.1@))
}

/// The view of what [`statuses_of_labels`] and [`read_statuses`] return.
pub open spec fn statuses_view(r: Result<Vec<(u32, String)>, MoodleError>) -> Result<
    Seq<(u32, Seq<char>)>,
    MoodleError,
> {
    match r {
        Ok(v) => Ok(list_view(v@)),
        Err(e) => Err(e),
    }
}

/// Once a prefix of the labels fails, the whole run fails in the same way.
pub proof fn lemma_status_error_stays(labels: Seq<RawLabelView>, n: int)
    requires
        0 <= n <= labels.len(),
        statuses_of(labels.take(n)) is Err,
    ensures
        statuses_of(labels) == statuses_of(labels.take(n)),
    decreases labels.len(),
{
    if n == labels.len() {
        assert(labels.take(n) =~= labels);
    } else {
        assert(labels.drop_last().take(n) =~= labels.take(n));
        lemma_status_error_stays(labels.drop_last(), n);
    }
}

/// Reads the labels of the status form in order.
pub fn statuses_of_labels(labels: &Vec<RawLabel>) -> (statuses: Result<
    Vec<(u32, String)>,
    MoodleError,
>)
    ensures
        statuses_view(statuses) == statuses_of(labels_view(labels@)),
{
    let ghost all = labels_view(labels@);
    let mut found: Vec<(u32, String)> = Vec::new();
    let mut i: usize = 0;
    assert(list_view(found@) =~= Seq::<(u32, Seq<char>)>::empty());
    while i < labels.len()
        invariant
            i <= labels.len(),
            all == labels_view(labels@),
            statuses_of(all.take(i as int)) == Ok::<Seq<(u32, Seq<char>)>, MoodleError>(
                list_view(found@),
            ),
        decreases labels.len() - i,
    {
        proof {
            let t = all.take(i + 1);
            assert(t.drop_last() =~= all.take(i as int));
            assert(t.last() == labels@[i as int]@);
        }
        match status_of_label(&labels[i]) {
            Err(e) => {
                proof {
                    lemma_status_error_stays(all, i + 1);
                }
                return Err(e);
            },
            Ok(status) => {
                let ghost before = list_view(found@);
                let ghost added = (status.0, status.1@);
                found.push(status);
                assert(list_view(found@) =~= before.push(added));
            },
        }
        i += 1;
    }
    assert(all.take(i as int) =~= all);
    Ok(found)
}

/// Where the status form keeps its labels.
pub open spec fn label_selector() -> Seq<char> {
    "#fgroup_id_statusarray label"@
}

/// The statuses that a session's page offers.
pub open spec fn page_statuses(html: Seq<char>) -> Result<Seq<(u32, Seq<char>)>, MoodleError> {
    match scraped_labels(html, label_selector(), "input"@, "value"@) {
        None => Err(MoodleError::StatusesUnreadable),
        Some(labels) => statuses_of(labels),
    }
}

/// Reads the statuses off a session's page.
pub fn read_statuses(html: &str) -> (statuses: Result<Vec<(u32, String)>, MoodleError>)
    ensures
        statuses_view(statuses) == page_statuses(html@),
{
    match scrape_labels(html, "#fgroup_id_statusarray label", "input", "value") {
        None => Err(MoodleError::StatusesUnreadable),
        Some(labels) => statuses_of_labels(&labels),
    }
}

/// The number of the first status with the given name.
pub open spec fn status_named(statuses: Seq<(u32, Seq<char>)>, name: Seq<char>) -> Option<u32>
    decreases statuses.len(),
{
    if statuses.len() == 0 {
        None
    } else if statuses.first().1 == name {
        Some(statuses.first().0)
    } else {
        status_named(statuses.drop_first(), name)
    }
}

/// Finds the status that marks a student present: the first one labelled
/// exactly `Present`.
pub fn find_present(statuses: &Vec<(u32, String)>) -> (id: Option<u32>)
    ensures
        id == status_named(list_view(statuses@), "Present"@),
{
    let ghost all = list_view(statuses@);
    let mut i: usize = 0;
    assert(all.skip(0) =~= all);
    while i < statuses.len()
        invariant
            i <= statuses.len(),
            all == list_view(statuses@),
            status_named(all, "Present"@) == status_named(all.skip(i as int), "Present"@),
        decreases statuses.len() - i,
    {
        assert(all.skip(i as int).first() == (statuses@[i as int].0, statuses@[i as int].1@));
        if same_text(statuses[i].1.as_str(), "Present") {
            return Some(statuses[i].0);
        }
        assert(all.skip(i as int).drop_first() =~= all.skip(i + 1));
        i += 1;
    }
    None
}

} // verus!
