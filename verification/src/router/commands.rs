//! What the bot answers to commands and messages in a private chat.

use vstd::prelude::*;
use crate::markup::{
    bold,
    code_inline,
    escape,
    escaped,
    link,
    spec_bold,
    spec_code_inline,
    spec_link,
};
use crate::moodle::{Moodle, MoodleError, MoodleUser, SessionProbeResult};
use crate::moodle_extender::Extended;
use crate::moodle::MoodleUserView;
use crate::moodle_extender::ExtendedView;
use crate::router::{
    is_private_chat,
    is_user_chat,
    state_after,
    stored_over,
    DialogueEvent,
    DialogueEventView,
    State,
    StateView,
};
use crate::text::{signed_decimal, signed_decimal_string};

verus! {

/// An answer to a chat: the state to store first, where it changes, and the
/// text to send after that.
pub struct Reply {
    pub state: Option<State>,
    pub text: String,
}

/// The mathematical value of a [`Reply`].
pub ghost struct ReplyView {
    pub state: Option<StateView>,
    pub text: Seq<char>,
}

impl View for Reply {
    type V = ReplyView;

    open spec fn view(&self) -> ReplyView {
        ReplyView {
            state: match self.state {
                Some(s) => Some(s@),
                None => None,
            },
            text: self.text@,
        }
    }
}

/// The help text.
pub open spec fn help_text() -> Seq<char> {
    "These commands are supported:\n\n/help — display this text.\n/start — start the registration procedure.\n/status — check your token status.\n/reset — reset the bot, removing your registration."@
}

/// Answers `/help`.
pub fn help() -> (text: String)
    ensures
        text@ == help_text(),
{
    "These commands are supported:\n\n/help — display this text.\n/start — start the registration procedure.\n/status — check your token status.\n/reset — reset the bot, removing your registration.".to_owned()
}

/// The text that asks for a session and tells how to find it.
pub open spec fn start_text(base_url: Seq<char>) -> Seq<char> {
    "Let's start! Give me your moodle session\n\nTo get it, you should navigate to the moodle page & log in:\n\n"@
        + spec_link(base_url, base_url)
        + "\n\nThen, open the developer tools (F12) and print cookies by entering "@
        + spec_code_inline("document.cookie"@) + " in the console.\n\nThe output should look like this:\n\n"@
        + spec_code_inline("\"MoodleSession=1234567890\""@) + "\n\nOr like this:\n\n"@
        + spec_code_inline("\"MoodleSession=1234567890; SomeOtherCookie=lol\""@)
        + "\n\nCopy the value of the "@ + spec_bold("MoodleSession"@)
        + " cookie (everything after "@ + spec_code_inline("MoodleSession="@)
        + ", for example "@ + spec_bold("1234567890"@) + ") and send it to me."@
}

/// Answers `/start`: from now on a session is waited for.
pub fn start(base_url: &str) -> (reply: Reply)
    ensures
        reply@.state == Some(StateView::ReceiveSession),
        forall|current: StateView|
            stored_over(current, reply@.state) == #[trigger] state_after(
                current,
                DialogueEventView::StartCommand,
            ),
        reply@.text == start_text(base_url@),
{
    let mut t = String::new();
    t.append(
        "Let's start! Give me your moodle session\n\nTo get it, you should navigate to the moodle page & log in:\n\n",
    );
    t.append(link(base_url, base_url).as_str());
    t.append("\n\nThen, open the developer tools (F12) and print cookies by entering ");
    t.append(code_inline("document.cookie").as_str());
    t.append(" in the console.\n\nThe output should look like this:\n\n");
    t.append(code_inline("\"MoodleSession=1234567890\"").as_str());
    t.append("\n\nOr like this:\n\n");
    t.append(code_inline("\"MoodleSession=1234567890; SomeOtherCookie=lol\"").as_str());
    t.append("\n\nCopy the value of the ");
    t.append(bold("MoodleSession").as_str());
    t.append(" cookie (everything after ");
    t.append(code_inline("MoodleSession=").as_str());
    t.append(", for example ");
    t.append(bold("1234567890").as_str());
    t.append(") and send it to me.");
    assert(t@ =~= start_text(base_url@));
    Reply { state: Some(State::ReceiveSession), text: t }
}

/// What a probe found out about a session.
#[derive(Clone, Copy, Debug, PartialEq, Eq, Structural)]
pub enum Verdict {
    /// The session is valid.
    Valid,
    /// The session is not valid.
    Invalid,
    /// The probe failed.
    Error,
}

/// The verdict that a probe's result amounts to.
pub open spec fn verdict_of(probe: Result<SessionProbeResult, MoodleError>) -> Verdict {
    match probe {
        Ok(SessionProbeResult::Valid { .. }) => Verdict::Valid,
        Ok(SessionProbeResult::Invalid) => Verdict::Invalid,
        Err(_) => Verdict::Error,
    }
}

impl Verdict {
    /// Sums a probe's result up.
    pub fn of(probe: &Result<SessionProbeResult, MoodleError>) -> (verdict: Verdict)
        ensures
            verdict == verdict_of(*probe),
    {
        match probe {
            Ok(SessionProbeResult::Valid { .. }) => Verdict::Valid,
            Ok(SessionProbeResult::Invalid) => Verdict::Invalid,
            Err(_) => Verdict::Error,
        }
    }
}

/// What `/status` does first.
pub enum StatusStep {
    /// Answer at once.
    Answer(String),
    /// Probe the session of this user, then answer.
    Probe(MoodleUser),
}

/// The answer to `/status` of a chat that is not registered.
pub open spec fn status_text_start() -> Seq<char> {
    "You are not registered yet. Use /start to register\n\n🚫 You will NOT be marked"@
}

/// The answer to `/status` of a chat whose session is waited for.
pub open spec fn status_text_receive() -> Seq<char> {
    "You are not registered yet. Send me your moodle session cookie to register\n\n🚫 You will NOT be marked"@
}

/// Answers `/status` as far as the state alone allows: a registered chat has
/// its session probed first.
pub fn status(state: &State) -> (step: StatusStep)
    ensures
        state@ is Start ==> (step matches StatusStep::Answer(t) && t@ == status_text_start()),
        state@ is ReceiveSession ==> (step matches StatusStep::Answer(t) && t@
            == status_text_receive()),
        state@ matches StateView::Registered(u) ==> (step matches StatusStep::Probe(p) && p@
            == u),
{
    match state {
        State::Start => StatusStep::Answer(
            "You are not registered yet. Use /start to register\n\n🚫 You will NOT be marked".to_owned(),
        ),
        State::ReceiveSession => StatusStep::Answer(
            "You are not registered yet. Send me your moodle session cookie to register\n\n🚫 You will NOT be marked".to_owned(),
        ),
        State::Registered(user) => StatusStep::Probe(user.copy()),
    }
}

/// The answer to `/status` of a registered chat, by what the probe found.
pub open spec fn status_text(email: Seq<char>, verdict: Verdict) -> Seq<char> {
    match verdict {
        Verdict::Valid => "You are registered as "@ + email
            + ". You can use /reset to unregister\n\n✅ You WILL be marked"@,
        Verdict::Invalid => "You were registered, but your moodle session has expired. Use /start to re-register\n\n🚫 You will NOT be marked"@,
        Verdict::Error => "An error occurred while checking your moodle session. Try again later\n\n⁉️ You will be marked MAYBE??"@,
    }
}

/// What a verdict on a session means to the dialogue: a session that is not
/// valid has expired; any other verdict changes nothing.
pub open spec fn verdict_event(verdict: Verdict) -> DialogueEventView {
    match verdict {
        Verdict::Invalid => DialogueEventView::SessionExpired,
        _ => DialogueEventView::OtherMessage,
    }
}

/// Answers `/status` of a registered chat once its session was probed. A
/// session that is not valid ends the registration.
pub fn status_checked(user: &MoodleUser, verdict: Verdict) -> (reply: Reply)
    ensures
        reply@.text == status_text(user.email@, verdict),
        reply@.state == if verdict == Verdict::Invalid {
            Some(StateView::Start)
        } else {
            None
        },
        stored_over(StateView::Registered(user@), reply@.state) == state_after(
            StateView::Registered(user@),
            verdict_event(verdict),
        ),
{
    match verdict {
        Verdict::Valid => {
            let mut t = String::new();
            t.append("You are registered as ");
            t.append(user.email.as_str());
            t.append(". You can use /reset to unregister\n\n✅ You WILL be marked");
            assert(t@ =~= status_text(user.email@, verdict));
            Reply { state: None, text: t }
        },
        Verdict::Invalid => Reply {
            state: Some(State::Registered(user.copy()).after(DialogueEvent::SessionExpired)),
            text: "You were registered, but your moodle session has expired. Use /start to re-register\n\n🚫 You will NOT be marked".to_owned(),
        },
        Verdict::Error => Reply {
            state: None,
            text: "An error occurred while checking your moodle session. Try again later\n\n⁉️ You will be marked MAYBE??".to_owned(),
        },
    }
}

/// How a verdict is written in the status of all chats.
pub open spec fn verdict_word(verdict: Verdict) -> Seq<char> {
    match verdict {
        Verdict::Valid => "VALID"@,
        Verdict::Invalid => "INVAL"@,
        Verdict::Error => "ERROR"@,
    }
}

/// How a chat's state is written in the status of all chats: a registered
/// chat by its email and the verdict on its session.
pub open spec fn state_word(state: StateView, verdict: Verdict) -> Seq<char> {
    match state {
        StateView::Start => "[unregistered]"@,
        StateView::ReceiveSession => "[unregistered]"@,
        StateView::Registered(user) => user.email + " ["@ + verdict_word(verdict) + "]"@,
    }
}

/// The line of one chat in the status of all chats.
pub open spec fn status_line(chat_id: i64, state: StateView, verdict: Verdict) -> Seq<char> {
    spec_code_inline(signed_decimal(chat_id as int)) + ": "@ + escaped(state_word(state, verdict))
        + "\n"@
}

/// Writes the line of one chat for `/superstatus`. The verdict counts only
/// for a registered chat.
pub fn super_status_line(chat_id: i64, state: &State, verdict: Verdict) -> (line: String)
    ensures
        line@ == status_line(chat_id, state@, verdict),
{
    let word = match state {
        State::Start => "[unregistered]".to_owned(),
        State::ReceiveSession => "[unregistered]".to_owned(),
        State::Registered(user) => {
            let mut w = String::new();
            w.append(user.email.as_str());
            w.append(" [");
            w.append(
                match verdict {
                    Verdict::Valid => "VALID",
                    Verdict::Invalid => "INVAL",
                    Verdict::Error => "ERROR",
                },
            );
            w.append("]");
            assert(w@ =~= state_word(state@, verdict));
            w
        },
    };
    let mut line = String::new();
    line.append(code_inline(signed_decimal_string(chat_id).as_str()).as_str());
    line.append(": ");
    line.append(escape(word.as_str()).as_str());
    line.append("\n");
    assert(line@ =~= status_line(chat_id, state@, verdict));
    line
}

/// The user whose session is probed for the status of all chats: that of a
/// registered private chat; no other chat is probed.
pub fn super_status_probe(chat_id: i64, state: &State) -> (user: Option<MoodleUser>)
    ensures
        user is Some <==> is_private_chat(chat_id) && state@ is Registered,
        user matches Some(u) ==> state@ == StateView::Registered(u@),
{
    match state {
        State::Registered(user) => {
            if is_user_chat(chat_id) {
                Some(user.copy())
            } else {
                None
            }
        },
        _ => None,
    }
}

/// One chat in the status of all chats: its state and, for a registered
/// chat, the verdict on its session.
pub struct ChatStatus {
    pub chat_id: i64,
    pub state: State,
    pub verdict: Verdict,
}

/// The mathematical value of a [`ChatStatus`].
pub ghost struct ChatStatusView {
    pub chat_id: i64,
    pub state: StateView,
    pub verdict: Verdict,
}

impl View for ChatStatus {
    type V = ChatStatusView;

    open spec fn view(&self) -> ChatStatusView {
        ChatStatusView { chat_id: self.chat_id, state: self.state@, verdict: self.verdict }
    }
}

/// The status of all chats: one line for each private chat, in order.
pub open spec fn status_report(chats: Seq<ChatStatusView>) -> Seq<char>
    decreases chats.len(),
{
    if chats.len() == 0 {
        Seq::empty()
    } else if is_private_chat(chats.last().chat_id) {
        status_report(chats.drop_last()) + status_line(
            chats.last().chat_id,
            chats.last().state,
            chats.last().verdict,
        )
    } else {
        status_report(chats.drop_last())
    }
}

/// Answers `/superstatus`, once the sessions of the registered chats were
/// probed.
pub fn super_status(chats: &Vec<ChatStatus>) -> (text: String)
    ensures
        text@ == status_report(chats@.map_values(|c: ChatStatus| c@)),
{
    let ghost all = chats@.map_values(|c: ChatStatus| c@);
    let mut text = String::new();
    let mut i: usize = 0;
    assert(all.take(0) =~= Seq::<ChatStatusView>::empty());
    while i < chats.len()
        invariant
            i <= chats.len(),
            all == chats@.map_values(|c: ChatStatus| c@),
            text@ == status_report(all.take(i as int)),
        decreases chats.len() - i,
    {
        proof {
            let t = all.take(i + 1);
            assert(t.drop_last() =~= all.take(i as int));
            assert(t.last() == chats@[i as int]@);
        }
        if is_user_chat(chats[i].chat_id) {
            text.append(
                super_status_line(chats[i].chat_id, &chats[i].state, chats[i].verdict).as_str(),
            );
        }
        i += 1;
    }
    assert(all.take(i as int) =~= all);
    text
}

/// The test that picks the private chats.
pub open spec fn private() -> spec_fn(i64) -> bool {
    |c: i64| is_private_chat(c)
}

/// The chats that a message to all goes to: the private ones, in order.
pub fn tell(chats: &Vec<i64>) -> (recipients: Vec<i64>)
    ensures
        recipients@ == chats@.filter(private()),
{
    let ghost pred = private();
    let mut recipients: Vec<i64> = Vec::new();
    let mut i: usize = 0;
    proof {
        assert(chats@.take(0) =~= Seq::<i64>::empty());
        reveal(Seq::filter);
    }
    while i < chats.len()
        invariant
            i <= chats.len(),
            pred == private(),
            recipients@ == chats@.take(i as int).filter(pred),
        decreases chats.len() - i,
    {
        proof {
            let t = chats@.take(i + 1);
            assert(t.drop_last() =~= chats@.take(i as int));
            reveal(Seq::filter);
        }
        if is_user_chat(chats[i]) {
            recipients.push(chats[i]);
        }
        i += 1;
    }
    assert(chats@.take(i as int) =~= chats@);
    recipients
}

/// The answer to `/reset`.
pub open spec fn reset_text() -> Seq<char> {
    "Resetting the bot, you are no longer registered"@
}

/// Answers `/reset`: the chat is no longer registered.
pub fn reset() -> (reply: Reply)
    ensures
        reply@.state == Some(StateView::Start),
        forall|current: StateView|
            stored_over(current, reply@.state) == #[trigger] state_after(
                current,
                DialogueEventView::ResetCommand,
            ),
        reply@.text == reset_text(),
{
    Reply {
        state: Some(State::Start),
        text: "Resetting the bot, you are no longer registered".to_owned(),
    }
}

/// What to do with a message that came while a session was waited for.
pub enum CookieStep {
    /// The message holds no text: say so.
    Refuse(String),
    /// Say that the session is being checked, then ask the extender about it.
    Check { notice: String, session: String },
}

/// Takes a message for a session. Only a text can be one.
pub fn receive_cookie(text: Option<String>) -> (step: CookieStep)
    ensures
        text is None ==> (step matches CookieStep::Refuse(t) && t@
            == "I need a text message, not this!"@),
        text matches Some(s) ==> (step matches CookieStep::Check { notice, session } && notice@
            == "Checking session..."@ && session@ == s@),
{
    match text {
        None => CookieStep::Refuse("I need a text message, not this!".to_owned()),
        Some(session) => CookieStep::Check { notice: "Checking session...".to_owned(), session },
    }
}

/// The greeting of a newly registered user.
pub open spec fn welcome_text(email: Seq<char>) -> Seq<char> {
    "Hello, "@ + spec_bold(escaped(email))
        + "!\nYou are registered now. When the attendance password will be published, I will put a mark for you"@
}

/// What the extender's answer about a session means to the dialogue.
pub open spec fn cookie_event(session: Seq<char>, extended: ExtendedView) -> DialogueEventView {
    match extended {
        ExtendedView::Known(email) => DialogueEventView::SessionAccepted(
            MoodleUserView { session, email },
        ),
        ExtendedView::Unknown => DialogueEventView::SessionRefused,
        ExtendedView::Failed => DialogueEventView::ValidatorFailed,
    }
}

/// Answers a session once the extender was asked about it. A known session
/// registers the chat under the account's email; otherwise the chat goes on
/// waiting for one.
pub fn cookie_checked(session: String, extended: Extended) -> (reply: Reply)
    ensures
        extended matches Extended::Known(email) ==> (reply@.state == Some(
            StateView::Registered(
                crate::moodle::MoodleUserView { session: session@, email: email@ },
            ),
        ) && reply@.text == welcome_text(email@)),
        extended is Unknown ==> (reply@.state is None && reply@.text
            == "Invalid session cookie, try again"@),
        extended is Failed ==> (reply@.state is None && reply@.text
            == "Failed to contact moodle. You can try again or contact the bot admin"@),
        stored_over(StateView::ReceiveSession, reply@.state) == state_after(
            StateView::ReceiveSession,
            cookie_event(session@, extended@),
        ),
{
    let email = match extended {
        Extended::Known(email) => Some(email),
        Extended::Unknown => None,
        Extended::Failed => {
            return Reply {
                state: None,
                text: "Failed to contact moodle. You can try again or contact the bot admin".to_owned(),
            };
        },
    };
    match Moodle::make_user(session, email) {
        Some(user) => {
            let mut t = String::new();
            t.append("Hello, ");
            t.append(bold(escape(user.to_text().as_str()).as_str()).as_str());
            t.append(
                "!\nYou are registered now. When the attendance password will be published, I will put a mark for you",
            );
            assert(t@ =~= welcome_text(user.email@));
            Reply {
                state: Some(State::ReceiveSession.after(DialogueEvent::SessionAccepted(user))),
                text: t,
            }
        },
        None => Reply { state: None, text: "Invalid session cookie, try again".to_owned() },
    }
}

/// The answer to a message that is out of place.
pub open spec fn invalid_state_text() -> Seq<char> {
    "Unable to handle the message. Type /help to see the usage.\n\nMaybe you want to /start?"@
}

/// Answers a message that is out of place; the state stays as it is.
pub fn invalid_state() -> (text: String)
    ensures
        text@ == invalid_state_text(),
{
    "Unable to handle the message. Type /help to see the usage.\n\nMaybe you want to /start?".to_owned()
}

} // verus!
