//! The client's side of each exchange with Moodle: what to ask, and how to
//! read the answer.

use vstd::prelude::*;
use governor::Quota;
use crate::config;
use crate::moodle::listing::{listing_sessions, read_listing, sessions_view};
use crate::moodle::marking::{
    form_path,
    lemma_mark_outcome,
    make_mark_form,
    mark_form,
    mark_outcome,
    read_mark_response,
    redirect_path,
    view_path,
    MarkOutcome,
};
use crate::moodle::outside::{
    join_url,
    path_of_url,
    quota_allow_burst,
    quota_burst,
    quota_interval_nanos,
    quota_with_period,
    text_view,
    url_joined,
    url_path,
};
use crate::moodle::profile::{probe_outcome, probe_view, read_profile};
use crate::moodle::statuses::{
    find_present,
    list_view,
    page_statuses,
    read_statuses,
    status_named,
    statuses_view,
};
use crate::moodle::web::{
    is_failure,
    is_redirect,
    make_cookie,
    session_cookie,
    Method,
    Request,
    RequestView,
    Response,
};
use crate::moodle::{
    AttendanceSession,
    MoodleError,
    MoodleUser,
    MoodleUserView,
    SessionProbeResult,
    SessionProbeView,
};
use crate::text::{decimal, push_decimal};

verus! {

/// Why a client could not be set up.
#[derive(Clone, Copy, Debug, PartialEq, Eq, Structural)]
pub enum ConfigError {
    /// The base URL is no absolute URL.
    InvalidBaseUrl,
    /// The number of requests per minute is zero.
    InvalidRate,
    /// More than one request per millisecond was asked for.
    InvalidPeriod,
    /// The burst is zero.
    InvalidBurst,
}

/// How many milliseconds a minute has.
pub open spec fn minute_ms() -> int {
    60_000
}

/// What is wrong with a configuration, if anything: the first of a base URL
/// that is none, a rate of zero, a rate above one request per millisecond,
/// and a burst of zero.
pub open spec fn config_fault(c: config::Moodle) -> Option<ConfigError> {
    if url_path(c.base_url@) is None {
        Some(ConfigError::InvalidBaseUrl)
    } else if c.rpm == 0 {
        Some(ConfigError::InvalidRate)
    } else if minute_ms() / (c.rpm as int) == 0 {
        Some(ConfigError::InvalidPeriod)
    } else if c.max_burst == 0 {
        Some(ConfigError::InvalidBurst)
    } else {
        None
    }
}

/// The reference of the profile page.
pub open spec fn profile_reference() -> Seq<char> {
    "/user/profile.php"@
}

/// The reference of the listing of an activity's sessions.
pub open spec fn listing_reference(activity_id: u32) -> Seq<char> {
    "/mod/attendance/view.php?id="@ + decimal(activity_id as nat) + "&view=5"@
}

/// The reference of the page on which a session is marked.
pub open spec fn session_reference(session_id: u32) -> Seq<char> {
    "/mod/attendance/attendance.php?sessid="@ + decimal(session_id as nat)
}

/// The reference that the form is sent to.
pub open spec fn form_reference() -> Seq<char> {
    "/mod/attendance/attendance.php"@
}

/// The URL of a reference under a base, or the error in its place.
pub open spec fn resolved(base: Seq<char>, reference: Seq<char>) -> Result<Seq<char>, MoodleError> {
    match url_joined(base, reference) {
        Some(url) => Ok(url),
        None => Err(MoodleError::BadUrl),
    }
}

/// The view of a URL, or of the error in its place.
pub open spec fn url_view(r: Result<String, MoodleError>) -> Result<Seq<char>, MoodleError> {
    match r {
        Ok(u) => Ok(u@),
        Err(e) => Err(e),
    }
}

/// The view of a request, or of the error in its place.
pub open spec fn request_view(r: Result<Request, MoodleError>) -> Result<RequestView, MoodleError> {
    match r {
        Ok(q) => Ok(q@),
        Err(e) => Err(e),
    }
}

/// A page fetched with a session.
pub open spec fn page_request(
    base: Seq<char>,
    reference: Seq<char>,
    session: Seq<char>,
) -> Result<RequestView, MoodleError> {
    match resolved(base, reference) {
        Err(e) => Err(e),
        Ok(url) => Ok(
            RequestView {
                method: Method::Get,
                url,
                cookie: session_cookie(session),
                form: Seq::empty(),
            },
        ),
    }
}

/// The request that puts a mark: the form with the status labelled `Present`
/// posted with the session.
pub open spec fn mark_request(
    base: Seq<char>,
    user: MoodleUserView,
    csrf_session: Seq<char>,
    session_id: u32,
    password: Seq<char>,
    statuses: Seq<(u32, Seq<char>)>,
) -> Result<RequestView, MoodleError> {
    match status_named(statuses, "Present"@) {
        None => Err(MoodleError::PresentMissing),
        Some(status_id) => match resolved(base, form_reference()) {
            Err(e) => Err(e),
            Ok(url) => Ok(
                RequestView {
                    method: Method::Post,
                    url,
                    cookie: session_cookie(user.session),
                    form: mark_form(csrf_session, session_id, password, status_id),
                },
            ),
        },
    }
}

/// What the answer to the request for a listing gives: an error status is an
/// error; any other page is read as the listing fetched from the listing's
/// URL.
pub open spec fn listing_answer(base: Seq<char>, activity_id: u32, status: u16, body: Seq<char>) -> Result<
    Seq<AttendanceSession>,
    MoodleError,
> {
    if is_failure(status) {
        Err(MoodleError::BadStatus(status))
    } else {
        match resolved(base, listing_reference(activity_id)) {
            Err(e) => Err(e),
            Ok(page) => listing_sessions(page, body),
        }
    }
}

/// What the answer to the form means: the answer is read against the URL that
/// the form was posted to.
pub open spec fn form_answer(base: Seq<char>, status: u16, location: Option<Seq<char>>) -> MarkOutcome {
    match resolved(base, form_reference()) {
        Err(e) => MarkOutcome::Error(e),
        Ok(page) => mark_outcome(page, status, location),
    }
}

/// The mark is put exactly where the answer to the form is a redirect that
/// leads to the listing's path, and refused exactly where it leads back to
/// the form's own path, the target read as a browser reads it; every other
/// answer is an error.
pub proof fn lemma_form_answer(base: Seq<char>, status: u16, location: Option<Seq<char>>)
    ensures
        form_answer(base, status, location) == MarkOutcome::Success <==> {
            &&& resolved(base, form_reference()) is Ok
            &&& is_redirect(status)
            &&& location is Some
            &&& redirect_path(resolved(base, form_reference())->Ok_0, location->0) == Some(
                view_path(),
            )
        },
        form_answer(base, status, location) == MarkOutcome::Rejected <==> {
            &&& resolved(base, form_reference()) is Ok
            &&& is_redirect(status)
            &&& location is Some
            &&& redirect_path(resolved(base, form_reference())->Ok_0, location->0) == Some(
                form_path(),
            )
        },
        form_answer(base, status, location) != MarkOutcome::Success && form_answer(
            base,
            status,
            location,
        ) != MarkOutcome::Rejected ==> form_answer(base, status, location) is Error,
{
    match resolved(base, form_reference()) {
        Err(_) => {},
        Ok(page) => {
            lemma_mark_outcome(page, status, location);
        },
    }
}

/// The client: where Moodle is, who asks, and how fast it may ask.
pub struct Moodle {
    pub base_url: String,
    pub user_agent: String,
    pub quota: Quota,
}

impl Moodle {
    /// What holds of every client that [`Moodle::new`] made: its base is an
    /// absolute URL, and its quota lets requests through.
    pub open spec fn well_formed(&self) -> bool {
        &&& url_path(self.base_url@) is Some
        &&& quota_interval_nanos(self.quota) > 0
        &&& quota_burst(self.quota) > 0
    }

    /// Sets the client up, or says what is wrong with the configuration. The
    /// quota lets one request through every `60000 / rpm` milliseconds, and
    /// `max_burst` at once.
    pub fn new(config: &config::Moodle) -> (client: Result<Moodle, ConfigError>)
        ensures
            client is Ok <==> config_fault(*config) is None,
            client matches Err(e) ==> config_fault(*config) == Some(e),
            client matches Ok(m) ==> {
                &&& m.well_formed()
                &&& m.base_url@ == config.base_url@
                &&& m.user_agent@ == config.user_agent@
                &&& quota_interval_nanos(m.quota) == (minute_ms() / (config.rpm as int))
                    * 1_000_000
                &&& quota_burst(m.quota) == config.max_burst
            },
    {
        if path_of_url(config.base_url.as_str()).is_none() {
            return Err(ConfigError::InvalidBaseUrl);
        }
        if config.rpm == 0 {
            return Err(ConfigError::InvalidRate);
        }
        let period_ms: u64 = 60_000 / (config.rpm as u64);
        let quota = match quota_with_period(period_ms) {
            None => {
                return Err(ConfigError::InvalidPeriod);
            },
            Some(quota) => quota,
        };
        if config.max_burst == 0 {
            return Err(ConfigError::InvalidBurst);
        }
        Ok(
            Moodle {
                base_url: config.base_url.clone(),
                user_agent: config.user_agent.clone(),
                quota: quota_allow_burst(quota, config.max_burst),
            },
        )
    }

    /// Makes a user of a session and of what the extender said of it: the
    /// account's email, or nothing where it does not know the session.
    pub fn make_user(session: String, email: Option<String>) -> (user: Option<MoodleUser>)
        ensures
            user is Some <==> email is Some,
            user matches Some(u) ==> u.session@ == session@ && Some(u.email@) == text_view(
                email,
            ),
    {
        match email {
            Some(email) => Some(MoodleUser { session, email }),
            None => None,
        }
    }

    fn page(&self, reference: &str, session: &str) -> (request: Result<Request, MoodleError>)
        ensures
            request_view(request) == page_request(self.base_url@, reference@, session@),
    {
        match join_url(self.base_url.as_str(), reference) {
            None => Err(MoodleError::BadUrl),
            Some(url) => {
                let request = Request {
                    method: Method::Get,
                    url,
                    cookie: make_cookie(session),
                    form: Vec::new(),
                };
                assert(request@.form =~= Seq::empty());
                Ok(request)
            },
        }
    }

    /// The request that probes a user's session: the profile page.
    pub fn check_user_request(&self, user: &MoodleUser) -> (request: Result<Request, MoodleError>)
        ensures
            request_view(request) == page_request(
                self.base_url@,
                profile_reference(),
                user.session@,
            ),
    {
        self.page("/user/profile.php", user.session.as_str())
    }

    /// Reads the answer to the probe. A redirect means that the session is
    /// not valid, and the body is not looked at.
    pub fn check_user(&self, response: &Response) -> (probe: Result<
        SessionProbeResult,
        MoodleError,
    >)
        ensures
            probe_view(probe) == probe_outcome(response.status, response.body@),
            is_redirect(response.status) ==> probe_view(probe) == Ok::<
                SessionProbeView,
                MoodleError,
            >(SessionProbeView::Invalid),
    {
        read_profile(response.status, response.body.as_str())
    }

    /// The URL of the listing of an activity's sessions.
    pub fn make_attendance_url(&self, activity_id: u32) -> (url: Result<String, MoodleError>)
        ensures
            url_view(url) == resolved(self.base_url@, listing_reference(activity_id)),
    {
        let mut reference = String::new();
        reference.append("/mod/attendance/view.php?id=");
        push_decimal(&mut reference, activity_id as u64);
        reference.append("&view=5");
        assert(reference@ =~= listing_reference(activity_id));
        match join_url(self.base_url.as_str(), reference.as_str()) {
            None => Err(MoodleError::BadUrl),
            Some(url) => Ok(url),
        }
    }

    /// The URL of the page on which a session is marked.
    pub fn make_session_url(&self, session_id: u32) -> (url: Result<String, MoodleError>)
        ensures
            url_view(url) == resolved(self.base_url@, session_reference(session_id)),
    {
        let mut reference = String::new();
        reference.append("/mod/attendance/attendance.php?sessid=");
        push_decimal(&mut reference, session_id as u64);
        assert(reference@ =~= session_reference(session_id));
        match join_url(self.base_url.as_str(), reference.as_str()) {
            None => Err(MoodleError::BadUrl),
            Some(url) => Ok(url),
        }
    }

    /// The request that lists an activity's sessions.
    pub fn get_attendance_sessions_request(&self, activity_id: u32, user: &MoodleUser) -> (request:
        Result<Request, MoodleError>)
        ensures
            request_view(request) == page_request(
                self.base_url@,
                listing_reference(activity_id),
                user.session@,
            ),
    {
        match self.make_attendance_url(activity_id) {
            Err(e) => Err(e),
            Ok(url) => {
                let request = Request {
                    method: Method::Get,
                    url,
                    cookie: make_cookie(user.session.as_str()),
                    form: Vec::new(),
                };
                assert(request@.form =~= Seq::empty());
                Ok(request)
            },
        }
    }

    /// Reads the listing of an activity: an error status is an error, any
    /// other page must hold the attendance table. Links in the table are
    /// resolved against the listing's URL.
    pub fn get_attendance_sessions(&self, activity_id: u32, response: &Response) -> (sessions:
        Result<Vec<AttendanceSession>, MoodleError>)
        ensures
            sessions_view(sessions) == listing_answer(
                self.base_url@,
                activity_id,
                response.status,
                response.body@,
            ),
    {
        if response.status >= 400 && response.status < 600 {
            return Err(MoodleError::BadStatus(response.status));
        }
        match self.make_attendance_url(activity_id) {
            Err(e) => Err(e),
            Ok(page) => read_listing(page.as_str(), response.body.as_str()),
        }
    }

    /// The request that fetches the statuses that a session offers.
    pub fn get_session_statuses_request(&self, user: &MoodleUser, session_id: u32) -> (request:
        Result<Request, MoodleError>)
        ensures
            request_view(request) == page_request(
                self.base_url@,
                session_reference(session_id),
                user.session@,
            ),
    {
        match self.make_session_url(session_id) {
            Err(e) => Err(e),
            Ok(url) => {
                let request = Request {
                    method: Method::Get,
                    url,
                    cookie: make_cookie(user.session.as_str()),
                    form: Vec::new(),
                };
                assert(request@.form =~= Seq::empty());
                Ok(request)
            },
        }
    }

    /// Reads the statuses: an error status is an error, any other page is
    /// searched for the status form.
    pub fn get_session_statuses(&self, response: &Response) -> (statuses: Result<
        Vec<(u32, String)>,
        MoodleError,
    >)
        ensures
            is_failure(response.status) ==> statuses_view(statuses) == Err::<
                Seq<(u32, Seq<char>)>,
                MoodleError,
            >(MoodleError::BadStatus(response.status)),
            !is_failure(response.status) ==> statuses_view(statuses) == page_statuses(
                response.body@,
            ),
    {
        if response.status >= 400 && response.status < 600 {
            return Err(MoodleError::BadStatus(response.status));
        }
        read_statuses(response.body.as_str())
    }

    /// The request that puts the mark, given the statuses that the session
    /// offers.
    pub fn mark_attendance_session_request(
        &self,
        user: &MoodleUser,
        csrf_session: &str,
        session_id: u32,
        password: &str,
        statuses: &Vec<(u32, String)>,
    ) -> (request: Result<Request, MoodleError>)
        ensures
            request_view(request) == mark_request(
                self.base_url@,
                user@,
                csrf_session@,
                session_id,
                password@,
                list_view(statuses@),
            ),
    {
        let status_id = match find_present(statuses) {
            None => {
                return Err(MoodleError::PresentMissing);
            },
            Some(id) => id,
        };
        match join_url(self.base_url.as_str(), "/mod/attendance/attendance.php") {
            None => Err(MoodleError::BadUrl),
            Some(url) => Ok(
                Request {
                    method: Method::Post,
                    url,
                    cookie: make_cookie(user.session.as_str()),
                    form: make_mark_form(csrf_session, session_id, password, status_id),
                },
            ),
        }
    }

    /// Reads the answer to the form. The target of a redirect is resolved
    /// against the URL that the form was posted to.
    pub fn mark_attendance_session(&self, response: &Response) -> (outcome: MarkOutcome)
        ensures
            outcome == form_answer(
                self.base_url@,
                response.status,
                text_view(response.location),
            ),
    {
        match join_url(self.base_url.as_str(), "/mod/attendance/attendance.php") {
            None => MarkOutcome::Error(MoodleError::BadUrl),
            Some(page) => read_mark_response(page.as_str(), response.status, &response.location),
        }
    }
}

} // verus!
