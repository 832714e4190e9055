//! One chat's part of a sweep as a machine: the stages it goes through, what
//! each answer leads to, and what always holds of it.

use vstd::prelude::*;
use crate::attendance::AttendanceView;
use crate::moodle::client::{
    form_answer,
    listing_answer,
    listing_reference,
    mark_request,
    page_request,
    profile_reference,
    resolved,
    session_reference,
};
use crate::moodle::marking::MarkOutcome;
use crate::moodle::profile::probe_outcome;
use crate::moodle::statuses::page_statuses;
use crate::moodle::web::{is_failure, Request, RequestView, Response, ResponseView};
use crate::moodle::{on_day, AttendanceSession, MoodleError, MoodleUserView, SessionProbeView};
use crate::router::notices::{failure_message, success_message, Solutions};
use crate::router::{state_after, DialogueEventView, State, StateView};

verus! {

/// What one chat's part of a sweep waits for.
#[derive(Clone, Copy, Debug, PartialEq, Eq, Structural)]
pub enum StageKind {
    /// The answer to the probe of the session.
    Probing,
    /// The listing of the activity's sessions.
    Listing,
    /// The statuses that the current session offers.
    FetchingStatuses,
    /// The answer to the form for the current session.
    Marking,
    /// Nothing: the chat is done.
    Finished,
}

/// Where one chat's part of a sweep stands: what it waits for, the key that
/// forms need, the sessions to mark and which of them is the current one.
pub struct Stage {
    pub kind: StageKind,
    pub csrf_session: String,
    pub sessions: Vec<AttendanceSession>,
    pub at: usize,
}

/// The mathematical value of a [`Stage`].
pub ghost struct StageView {
    pub kind: StageKind,
    pub csrf_session: Seq<char>,
    pub sessions: Seq<AttendanceSession>,
    pub at: nat,
}

impl View for Stage {
    type V = StageView;

    open spec fn view(&self) -> StageView {
        StageView {
            kind: self.kind,
            csrf_session: self.csrf_session@,
            sessions: self.sessions@,
            at: self.at as nat,
        }
    }
}

/// Something for the application to do, in the order given.
pub enum Effect {
    /// Store this state for the chat.
    Store(State),
    /// Send this text to the chat.
    Notify(String),
    /// Wait for the rate limiter, send this request and hand the answer back.
    Fetch(Request),
}

/// The mathematical value of an [`Effect`].
pub ghost enum EffectView {
    Store(StateView),
    Notify(Seq<char>),
    Fetch(RequestView),
}

impl View for Effect {
    type V = EffectView;

    open spec fn view(&self) -> EffectView {
        match self {
            Effect::Store(s) => EffectView::Store(s@),
            Effect::Notify(t) => EffectView::Notify(t@),
            Effect::Fetch(r) => EffectView::Fetch(r@),
        }
    }
}

/// The views of a list of effects.
pub open spec fn effects_view(effects: Seq<Effect>) -> Seq<EffectView> {
    effects.map_values(|e: Effect| e@)
}

/// One step of a chat's part of a sweep: what to do now, and where the chat
/// stands after it.
pub struct Turn {
    pub stage: Stage,
    pub effects: Vec<Effect>,
}

/// The mathematical value of a [`Turn`].
pub ghost struct TurnView {
    pub stage: StageView,
    pub effects: Seq<EffectView>,
}

impl View for Turn {
    type V = TurnView;

    open spec fn view(&self) -> TurnView {
        TurnView { stage: self.stage@, effects: effects_view(self.effects@) }
    }
}

/// What came of a request.
pub enum Answer {
    /// The server answered.
    Response(Response),
    /// The request could not be sent, or no answer came.
    Failed,
}

/// The mathematical value of an [`Answer`].
pub ghost enum AnswerView {
    Response(ResponseView),
    Failed,
}

impl View for Answer {
    type V = AnswerView;

    open spec fn view(&self) -> AnswerView {
        match self {
            Answer::Response(r) => AnswerView::Response(r@),
            Answer::Failed => AnswerView::Failed,
        }
    }
}

/// The text for a user whose part of the sweep broke down.
pub open spec fn breakdown_text() -> Seq<char> {
    "Some really nasty error happened when trying to mark attendance for you. You should go & check your attendance"@
}

/// Why a mark was not put, where the server sent the browser back to the form.
pub open spec fn rejected_reason() -> Seq<char> {
    "some error occurred, possibly wrong password or already marked"@
}

/// Why a mark was not put, where anything else went wrong.
pub open spec fn error_reason() -> Seq<char> {
    "of some nasty error"@
}

/// The stage of a chat that is done.
pub open spec fn finished() -> StageView {
    StageView { kind: StageKind::Finished, csrf_session: Seq::empty(), sessions: Seq::empty(), at: 0 }
}

/// The failure message with a link to `url`; the breakdown text where there
/// is no such URL.
pub open spec fn notice(
    url: Result<Seq<char>, MoodleError>,
    attendance: AttendanceView,
    reason: Seq<char>,
    solutions: Solutions,
) -> Seq<char> {
    match url {
        Ok(u) => failure_message(attendance, reason, solutions, u),
        Err(_) => breakdown_text(),
    }
}

/// The turn that ends a chat's part with one more text.
pub open spec fn last_turn(effects: Seq<EffectView>, text: Seq<char>) -> TurnView {
    TurnView { stage: finished(), effects: effects.push(EffectView::Notify(text)) }
}

/// The turn that goes on with the session at `at`, after `effects`: its
/// statuses are asked for; where there is no such session, the chat is done.
pub open spec fn proceed(
    base: Seq<char>,
    user: MoodleUserView,
    csrf_session: Seq<char>,
    sessions: Seq<AttendanceSession>,
    at: nat,
    effects: Seq<EffectView>,
) -> TurnView {
    if at >= sessions.len() {
        TurnView { stage: finished(), effects }
    } else {
        match page_request(base, session_reference(sessions[at as int].id), user.session) {
            Err(_) => last_turn(effects, breakdown_text()),
            Ok(request) => TurnView {
                stage: StageView { kind: StageKind::FetchingStatuses, csrf_session, sessions, at },
                effects: effects.push(EffectView::Fetch(request)),
            },
        }
    }
}

/// How a chat's part of a sweep begins. A registered chat has its session
/// probed. Any other chat is told that it was not registered, with the
/// password and a link to the listing, so that the mark can be put by hand.
pub open spec fn sweep_begin(
    base: Seq<char>,
    activity_id: u32,
    state: StateView,
    attendance: AttendanceView,
) -> TurnView {
    match state {
        StateView::Registered(user) => match page_request(
            base,
            profile_reference(),
            user.session,
        ) {
            Err(_) => last_turn(Seq::empty(), breakdown_text()),
            Ok(request) => TurnView {
                stage: StageView {
                    kind: StageKind::Probing,
                    csrf_session: Seq::empty(),
                    sessions: Seq::empty(),
                    at: 0,
                },
                effects: seq![EffectView::Fetch(request)],
            },
        },
        _ => last_turn(
            Seq::empty(),
            notice(
                resolved(base, listing_reference(activity_id)),
                attendance,
                "you are not registered"@,
                Solutions::Register,
            ),
        ),
    }
}

/// What the probe's answer leads to. A session that is not valid ends the
/// registration, which is stored before the user is told, and nothing is
/// marked. A valid one has the listing fetched. A probe that failed breaks
/// the chat's part down.
pub open spec fn after_probe(
    base: Seq<char>,
    activity_id: u32,
    user: MoodleUserView,
    attendance: AttendanceView,
    answer: AnswerView,
) -> TurnView {
    match answer {
        AnswerView::Failed => last_turn(Seq::empty(), breakdown_text()),
        AnswerView::Response(r) => match probe_outcome(r.status, r.body) {
            Err(_) => last_turn(Seq::empty(), breakdown_text()),
            Ok(SessionProbeView::Invalid) => last_turn(
                seq![
                    EffectView::Store(
                        state_after(
                            StateView::Registered(user),
                            DialogueEventView::SessionExpired,
                        ),
                    ),
                ],
                notice(
                    resolved(base, listing_reference(activity_id)),
                    attendance,
                    "your session has become invalid"@,
                    Solutions::ReRegister,
                ),
            ),
            Ok(SessionProbeView::Valid { email, csrf_session }) => match page_request(
                base,
                listing_reference(activity_id),
                user.session,
            ) {
                Err(_) => last_turn(Seq::empty(), breakdown_text()),
                Ok(request) => TurnView {
                    stage: StageView {
                        kind: StageKind::Listing,
                        csrf_session,
                        sessions: Seq::empty(),
                        at: 0,
                    },
                    effects: seq![EffectView::Fetch(request)],
                },
            },
        },
    }
}

/// The sessions that the listing's answer gives.
pub open spec fn listed(base: Seq<char>, activity_id: u32, answer: AnswerView) -> Result<
    Seq<AttendanceSession>,
    MoodleError,
> {
    match answer {
        AnswerView::Failed => Err(MoodleError::Transport),
        AnswerView::Response(r) => listing_answer(base, activity_id, r.status, r.body),
    }
}

/// What the listing's answer leads to: the sessions on the announced day are
/// marked one after the other, in the listing's order. Where the listing
/// cannot be read, or holds no such session, the user is told so.
pub open spec fn after_listing(
    base: Seq<char>,
    activity_id: u32,
    user: MoodleUserView,
    attendance: AttendanceView,
    csrf_session: Seq<char>,
    answer: AnswerView,
) -> TurnView {
    match listed(base, activity_id, answer) {
        Err(_) => last_turn(
            Seq::empty(),
            notice(
                resolved(base, listing_reference(activity_id)),
                attendance,
                "I failed to get attendance sessions"@,
                Solutions::ManuallyMarkAt,
            ),
        ),
        Ok(all) => {
            let found = all.filter(on_day(attendance.day, attendance.month));
            if found.len() == 0 {
                last_turn(
                    Seq::empty(),
                    notice(
                        resolved(base, listing_reference(activity_id)),
                        attendance,
                        "I failed to find matching attendance sessions (or you are already marked)"@,
                        Solutions::ManuallyMarkAt,
                    ),
                )
            } else {
                proceed(base, user, csrf_session, found, 0, Seq::empty())
            }
        },
    }
}

/// The statuses that an answer gives.
pub open spec fn offered(answer: AnswerView) -> Result<Seq<(u32, Seq<char>)>, MoodleError> {
    match answer {
        AnswerView::Failed => Err(MoodleError::Transport),
        AnswerView::Response(r) => if is_failure(r.status) {
            Err(MoodleError::BadStatus(r.status))
        } else {
            page_statuses(r.body)
        },
    }
}

/// The text that tells a user that the mark for one session was not put,
/// with a link to that session's page.
pub open spec fn session_notice(
    base: Seq<char>,
    attendance: AttendanceView,
    session_id: u32,
    reason: Seq<char>,
) -> Seq<char> {
    notice(
        resolved(base, session_reference(session_id)),
        attendance,
        reason,
        Solutions::ManuallyMarkAt,
    )
}

/// What the statuses' answer leads to: the form is sent with the status
/// labelled `Present`. Where there is none, the user is told that this mark
/// was not put, and the next session is taken up.
pub open spec fn after_statuses(
    base: Seq<char>,
    user: MoodleUserView,
    attendance: AttendanceView,
    stage: StageView,
    answer: AnswerView,
) -> TurnView {
    let session_id = stage.sessions[stage.at as int].id;
    let request = match offered(answer) {
        Err(e) => Err(e),
        Ok(statuses) => mark_request(
            base,
            user,
            stage.csrf_session,
            session_id,
            attendance.password,
            statuses,
        ),
    };
    match request {
        Err(_) => proceed(
            base,
            user,
            stage.csrf_session,
            stage.sessions,
            stage.at + 1,
            seq![
                EffectView::Notify(session_notice(base, attendance, session_id, error_reason())),
            ],
        ),
        Ok(r) => TurnView {
            stage: StageView { kind: StageKind::Marking, ..stage },
            effects: seq![EffectView::Fetch(r)],
        },
    }
}

/// How the form's answer is to be taken.
pub open spec fn marked(base: Seq<char>, answer: AnswerView) -> MarkOutcome {
    match answer {
        AnswerView::Failed => MarkOutcome::Error(MoodleError::Transport),
        AnswerView::Response(r) => form_answer(base, r.status, r.location),
    }
}

/// The text that tells a user how the attempt for one session ended.
pub open spec fn outcome_text(
    base: Seq<char>,
    attendance: AttendanceView,
    session_id: u32,
    outcome: MarkOutcome,
) -> Seq<char> {
    match outcome {
        MarkOutcome::Success => success_message(attendance),
        MarkOutcome::Rejected => session_notice(base, attendance, session_id, rejected_reason()),
        MarkOutcome::Error(_) => session_notice(base, attendance, session_id, error_reason()),
    }
}

/// What the form's answer leads to: the user is told how it ended, and the
/// next session is taken up.
pub open spec fn after_mark(
    base: Seq<char>,
    user: MoodleUserView,
    attendance: AttendanceView,
    stage: StageView,
    answer: AnswerView,
) -> TurnView {
    let session_id = stage.sessions[stage.at as int].id;
    proceed(
        base,
        user,
        stage.csrf_session,
        stage.sessions,
        stage.at + 1,
        seq![
            EffectView::Notify(outcome_text(base, attendance, session_id, marked(base, answer))),
        ],
    )
}

/// What an answer leads to at a stage. A chat that is done stays done, and so
/// does one whose stage names a session that is not there.
pub open spec fn sweep_after(
    base: Seq<char>,
    activity_id: u32,
    user: MoodleUserView,
    attendance: AttendanceView,
    stage: StageView,
    answer: AnswerView,
) -> TurnView {
    match stage.kind {
        StageKind::Probing => after_probe(base, activity_id, user, attendance, answer),
        StageKind::Listing => after_listing(
            base,
            activity_id,
            user,
            attendance,
            stage.csrf_session,
            answer,
        ),
        StageKind::FetchingStatuses => if stage.at < stage.sessions.len() {
            after_statuses(base, user, attendance, stage, answer)
        } else {
            TurnView { stage: finished(), effects: Seq::empty() }
        },
        StageKind::Marking => if stage.at < stage.sessions.len() {
            after_mark(base, user, attendance, stage, answer)
        } else {
            TurnView { stage: finished(), effects: Seq::empty() }
        },
        StageKind::Finished => TurnView { stage: finished(), effects: Seq::empty() },
    }
}

/// What every turn looks like: only its last effect can be a request, and it
/// is one exactly where the chat is not done.
pub open spec fn orderly(turn: TurnView) -> bool {
    &&& forall|i: int|
        0 <= i < turn.effects.len() ==> (#[trigger] turn.effects[i] is Fetch <==> i
            == turn.effects.len() - 1 && turn.stage.kind != StageKind::Finished)
    &&& turn.stage.kind != StageKind::Finished ==> turn.effects.len() > 0
    &&& (turn.stage.kind == StageKind::FetchingStatuses || turn.stage.kind
        == StageKind::Marking) ==> turn.stage.at < turn.stage.sessions.len()
}

/// Going on to the next session gives an orderly turn where the effects so
/// far hold no request.
pub proof fn lemma_proceed_is_orderly(
    base: Seq<char>,
    user: MoodleUserView,
    csrf_session: Seq<char>,
    sessions: Seq<AttendanceSession>,
    at: nat,
    effects: Seq<EffectView>,
)
    requires
        forall|i: int| 0 <= i < effects.len() ==> !(#[trigger] effects[i] is Fetch),
    ensures
        orderly(proceed(base, user, csrf_session, sessions, at, effects)),
{
}

/// The first turn of a chat's part is orderly. A chat that is not registered
/// is only told so: no request is made with any session.
pub proof fn lemma_begin_is_orderly(
    base: Seq<char>,
    activity_id: u32,
    state: StateView,
    attendance: AttendanceView,
)
    ensures
        orderly(sweep_begin(base, activity_id, state, attendance)),
        !(state is Registered) ==> {
            let turn = sweep_begin(base, activity_id, state, attendance);
            &&& turn.stage == finished()
            &&& turn.effects.len() == 1
            &&& turn.effects[0] is Notify
        },
{
}

/// Every later turn of a chat's part is orderly.
pub proof fn lemma_answer_is_orderly(
    base: Seq<char>,
    activity_id: u32,
    user: MoodleUserView,
    attendance: AttendanceView,
    stage: StageView,
    answer: AnswerView,
)
    ensures
        orderly(sweep_after(base, activity_id, user, attendance, stage, answer)),
{
    match stage.kind {
        StageKind::Probing => {},
        StageKind::Listing => {
            match listed(base, activity_id, answer) {
                Err(_) => {},
                Ok(all) => {
                    let found = all.filter(on_day(attendance.day, attendance.month));
                    lemma_proceed_is_orderly(
                        base,
                        user,
                        stage.csrf_session,
                        found,
                        0,
                        Seq::empty(),
                    );
                },
            }
        },
        StageKind::FetchingStatuses => {
            if stage.at < stage.sessions.len() {
                let session_id = stage.sessions[stage.at as int].id;
                lemma_proceed_is_orderly(
                    base,
                    user,
                    stage.csrf_session,
                    stage.sessions,
                    stage.at + 1,
                    seq![
                        EffectView::Notify(
                            session_notice(base, attendance, session_id, error_reason()),
                        ),
                    ],
                );
            }
        },
        StageKind::Marking => {
            if stage.at < stage.sessions.len() {
                let session_id = stage.sessions[stage.at as int].id;
                lemma_proceed_is_orderly(
                    base,
                    user,
                    stage.csrf_session,
                    stage.sessions,
                    stage.at + 1,
                    seq![
                        EffectView::Notify(
                            outcome_text(base, attendance, session_id, marked(base, answer)),
                        ),
                    ],
                );
            }
        },
        StageKind::Finished => {},
    }
}

/// A session that the probe finds not valid ends the registration: the new
/// state is stored, then the user is told to register again, and nothing is
/// requested with the session any more.
pub proof fn lemma_expired_session_ends_registration(
    base: Seq<char>,
    activity_id: u32,
    user: MoodleUserView,
    attendance: AttendanceView,
    response: ResponseView,
)
    requires
        probe_outcome(response.status, response.body) == Ok::<SessionProbeView, MoodleError>(
            SessionProbeView::Invalid,
        ),
    ensures
        ({
            let turn = after_probe(
                base,
                activity_id,
                user,
                attendance,
                AnswerView::Response(response),
            );
            &&& turn.stage == finished()
            &&& turn.effects.len() == 2
            &&& turn.effects[0] == EffectView::Store(StateView::Start)
            &&& turn.effects[0] == EffectView::Store(
                state_after(StateView::Registered(user), DialogueEventView::SessionExpired),
            )
            &&& turn.effects[1] == EffectView::Notify(
                notice(
                    resolved(base, listing_reference(activity_id)),
                    attendance,
                    "your session has become invalid"@,
                    Solutions::ReRegister,
                ),
            )
        }),
{
}

/// The sessions that a chat's part of a sweep marks are those of the listing
/// that fall on the announced day, in the listing's order, starting with the
/// first.
pub proof fn lemma_only_matching_sessions_are_marked(
    base: Seq<char>,
    activity_id: u32,
    user: MoodleUserView,
    attendance: AttendanceView,
    csrf_session: Seq<char>,
    answer: AnswerView,
)
    ensures
        ({
            let turn = after_listing(base, activity_id, user, attendance, csrf_session, answer);
            turn.stage.kind != StageKind::Finished ==> {
                &&& listed(base, activity_id, answer) is Ok
                &&& turn.stage.kind == StageKind::FetchingStatuses
                &&& turn.stage.sessions == listed(base, activity_id, answer)->Ok_0.filter(
                    on_day(attendance.day, attendance.month),
                )
                &&& turn.stage.at == 0
                &&& turn.stage.csrf_session == csrf_session
            }
        }),
{
}

} // verus!
