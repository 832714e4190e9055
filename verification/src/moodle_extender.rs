//! The service that holds the delegated sessions: given a session, it names
//! the account that the session belongs to.

use vstd::prelude::*;
use crate::config;
use crate::moodle::client::{resolved, url_view};
use crate::moodle::outside::{join_url, path_of_url, url_path};
use crate::moodle::web::is_failure;
use crate::moodle::{ConfigError, MoodleError};

verus! {

/// What the extender said of a session.
pub enum Extended {
    /// It knows the session; this is the account's email.
    Known(String),
    /// It does not know the session.
    Unknown,
    /// It could not be asked, or its answer could not be read.
    Failed,
}

/// The mathematical value of an [`Extended`].
pub ghost enum ExtendedView {
    Known(Seq<char>),
    Unknown,
    Failed,
}

impl View for Extended {
    type V = ExtendedView;

    open spec fn view(&self) -> ExtendedView {
        match self {
            Extended::Known(email) => ExtendedView::Known(email@),
            Extended::Unknown => ExtendedView::Unknown,
            Extended::Failed => ExtendedView::Failed,
        }
    }
}

/// The view of the `email` field of the extender's document, where the
/// document and the field may each be missing.
pub open spec fn document_view(document: Option<Option<String>>) -> Option<Option<Seq<char>>> {
    match document {
        Some(email) => Some(crate::moodle::outside::text_view(email)),
        None => None,
    }
}

/// What an answer of the extender means. An error status, or a body that is
/// not the expected document, is a failure; a document without an email means
/// that the session is not known.
pub open spec fn extension(status: u16, document: Option<Option<Seq<char>>>) -> ExtendedView {
    if is_failure(status) {
        ExtendedView::Failed
    } else {
        match document {
            None => ExtendedView::Failed,
            Some(None) => ExtendedView::Unknown,
            Some(Some(email)) => ExtendedView::Known(email),
        }
    }
}

/// The client of the extender.
pub struct MoodleExtender {
    pub base_url: String,
}

impl MoodleExtender {
    /// Sets the client up; the base URL must be an absolute URL.
    pub fn new(config: &config::MoodleExtender) -> (client: Result<MoodleExtender, ConfigError>)
        ensures
            client is Ok <==> url_path(config.base_url@) is Some,
            client matches Ok(c) ==> c.base_url@ == config.base_url@,
            client matches Err(e) ==> e == ConfigError::InvalidBaseUrl,
    {
        if path_of_url(config.base_url.as_str()).is_none() {
            return Err(ConfigError::InvalidBaseUrl);
        }
        Ok(MoodleExtender { base_url: config.base_url.clone() })
    }

    /// The URL that a session is posted to, as the field `moodle_session` of
    /// a JSON document.
    pub fn extend_session_url(&self) -> (url: Result<String, MoodleError>)
        ensures
            url_view(url) == resolved(self.base_url@, "extend-session"@),
    {
        match join_url(self.base_url.as_str(), "extend-session") {
            None => Err(MoodleError::BadUrl),
            Some(url) => Ok(url),
        }
    }

    /// Reads the extender's answer: the status, and the field `email` of the
    /// JSON document in the body (`None` where the body is no such document,
    /// `Some(None)` where the field is null).
    pub fn extend_session(&self, status: u16, document: Option<Option<String>>) -> (extended:
        Extended)
        ensures
            extended@ == extension(status, document_view(document)),
    {
        if status >= 400 && status < 600 {
            return Extended::Failed;
        }
        match document {
            None => Extended::Failed,
            Some(None) => Extended::Unknown,
            Some(Some(email)) => Extended::Known(email),
        }
    }
}

} // verus!
