//! Dialogue states, commands and what the bot does on each.

pub mod channel_post;
pub mod commands;
pub mod notices;
pub mod sweep;

use vstd::prelude::*;
use crate::moodle::{MoodleUser, MoodleUserView};

verus! {

/// Where the dialogue with one chat stands.
#[derive(Clone)]
pub enum State {
    /// Not registered.
    Start,
    /// Asked for a session, waiting for it.
    ReceiveSession,
    /// Registered with a session.
    Registered(MoodleUser),
}

/// The mathematical value of a [`State`].
pub ghost enum StateView {
    Start,
    ReceiveSession,
    Registered(MoodleUserView),
}

impl View for State {
    type V = StateView;

    open spec fn view(&self) -> StateView {
        match self {
            State::Start => StateView::Start,
            State::ReceiveSession => StateView::ReceiveSession,
            State::Registered(user) => StateView::Registered(user@),
        }
    }
}

/// What can happen to a dialogue.
pub enum DialogueEvent {
    /// The chat sent `/start`.
    StartCommand,
    /// The chat sent `/reset`.
    ResetCommand,
    /// The chat sent a session and it was found to belong to this user.
    SessionAccepted(MoodleUser),
    /// The chat sent a session that nobody knows.
    SessionRefused,
    /// The chat sent a session and it could not be checked.
    ValidatorFailed,
    /// The session of the chat was found to be no longer valid.
    SessionExpired,
    /// The chat sent anything else.
    OtherMessage,
}

/// The mathematical value of a [`DialogueEvent`].
pub ghost enum DialogueEventView {
    StartCommand,
    ResetCommand,
    SessionAccepted(MoodleUserView),
    SessionRefused,
    ValidatorFailed,
    SessionExpired,
    OtherMessage,
}

impl View for DialogueEvent {
    type V = DialogueEventView;

    open spec fn view(&self) -> DialogueEventView {
        match self {
            DialogueEvent::StartCommand => DialogueEventView::StartCommand,
            DialogueEvent::ResetCommand => DialogueEventView::ResetCommand,
            DialogueEvent::SessionAccepted(user) => DialogueEventView::SessionAccepted(user@),
            DialogueEvent::SessionRefused => DialogueEventView::SessionRefused,
            DialogueEvent::ValidatorFailed => DialogueEventView::ValidatorFailed,
            DialogueEvent::SessionExpired => DialogueEventView::SessionExpired,
            DialogueEvent::OtherMessage => DialogueEventView::OtherMessage,
        }
    }
}

/// The state that follows `state` on `event`. `/start` always leads to
/// waiting for a session and `/reset` to not being registered. A session is
/// taken only while one is waited for, and only an accepted one registers. A
/// session that expired ends a registration. Nothing else changes the state.
pub open spec fn state_after(state: StateView, event: DialogueEventView) -> StateView {
    match event {
        DialogueEventView::StartCommand => StateView::ReceiveSession,
        DialogueEventView::ResetCommand => StateView::Start,
        DialogueEventView::SessionAccepted(user) => match state {
            StateView::ReceiveSession => StateView::Registered(user),
            _ => state,
        },
        DialogueEventView::SessionExpired => match state {
            StateView::Registered(_) => StateView::Start,
            _ => state,
        },
        DialogueEventView::SessionRefused
        | DialogueEventView::ValidatorFailed
        | DialogueEventView::OtherMessage => state,
    }
}

/// The state of a chat once an answer's state, if it has one, is stored.
pub open spec fn stored_over(current: StateView, stored: Option<StateView>) -> StateView {
    match stored {
        Some(state) => state,
        None => current,
    }
}

impl Default for State {
    /// A chat that the bot has not heard of is not registered.
    fn default() -> (state: State)
        ensures
            state@ == StateView::Start,
    {
        State::Start
    }
}

impl State {
    /// A copy of the state.
    pub fn copy(&self) -> (s: State)
        ensures
            s@ == self@,
    {
        match self {
            State::Start => State::Start,
            State::ReceiveSession => State::ReceiveSession,
            State::Registered(user) => State::Registered(user.copy()),
        }
    }

    /// Whether the chat is registered.
    pub fn is_registered(&self) -> (r: bool)
        ensures
            r == (self@ is Registered),
    {
        match self {
            State::Registered(_) => true,
            _ => false,
        }
    }

    /// The state that follows on `event`.
    pub fn after(self, event: DialogueEvent) -> (next: State)
        ensures
            next@ == state_after(self@, event@),
    {
        match event {
            DialogueEvent::StartCommand => State::ReceiveSession,
            DialogueEvent::ResetCommand => State::Start,
            DialogueEvent::SessionAccepted(user) => match self {
                State::ReceiveSession => State::Registered(user),
                other => other,
            },
            DialogueEvent::SessionExpired => match self {
                State::Registered(_) => State::Start,
                other => other,
            },
            DialogueEvent::SessionRefused => self,
            DialogueEvent::ValidatorFailed => self,
            DialogueEvent::OtherMessage => self,
        }
    }
}

/// `/reset` leads to not being registered, whatever the state was.
pub proof fn lemma_reset_unregisters(state: StateView)
    ensures
        state_after(state, DialogueEventView::ResetCommand) == StateView::Start,
{
}

/// `/start` leads to waiting for a session, whatever the state was.
pub proof fn lemma_start_awaits(state: StateView)
    ensures
        state_after(state, DialogueEventView::StartCommand) == StateView::ReceiveSession,
{
}

/// While no session is waited for, a message that is no command leaves the
/// state as it is; so does a session that is refused or cannot be checked.
pub proof fn lemma_text_changes_nothing(state: StateView, event: DialogueEventView)
    requires
        event is OtherMessage || event is SessionRefused || event is ValidatorFailed,
    ensures
        state_after(state, event) == state,
{
}

/// A chat becomes registered only from waiting for a session, and only by a
/// session that was accepted; the session it is registered with is that one.
pub proof fn lemma_registration_needs_session(state: StateView, event: DialogueEventView)
    requires
        !(state is Registered),
        state_after(state, event) is Registered,
    ensures
        state is ReceiveSession,
        event is SessionAccepted,
        state_after(state, event) == StateView::Registered(event->SessionAccepted_0),
{
}

/// The commands that the bot knows.
#[derive(Clone)]
pub enum Command {
    /// Display the help text.
    Help,
    /// Start the registration procedure.
    Start,
    /// Check the token status.
    Status,
    /// Show every chat's status; for super users.
    SuperStatus,
    /// Send a message to every chat; for super users.
    Tell(String),
    /// Reset the bot, removing the registration.
    Reset,
}

/// What kind of update came in.
#[derive(Clone, Copy, Debug, PartialEq, Eq, Structural)]
pub enum UpdateKind {
    /// A message in a chat.
    Message,
    /// A post in a channel.
    ChannelPost,
    /// Anything else.
    Other,
}

/// The handler that an update goes to.
#[derive(Clone, Copy, Debug, PartialEq, Eq, Structural)]
pub enum Endpoint {
    Help,
    Start,
    Status,
    Reset,
    SuperStatus,
    Tell,
    ReceiveCookie,
    InvalidState,
    ChannelPost,
    /// No handler takes the update.
    Unhandled,
}

/// The ids of private chats: those of users.
pub open spec fn is_private_chat(chat_id: i64) -> bool {
    0 <= chat_id <= 0xff_ffff_ffff
}

/// Tells whether a chat is a private one.
pub fn is_user_chat(chat_id: i64) -> (private: bool)
    ensures
        private == is_private_chat(chat_id),
{
    0 <= chat_id && chat_id <= 0xff_ffff_ffff
}

/// Whether a command is open to everybody.
pub open spec fn is_common(command: Command) -> bool {
    command is Help || command is Start || command is Status || command is Reset
}

/// The handler of a command.
pub open spec fn command_endpoint(command: Command) -> Endpoint {
    match command {
        Command::Help => Endpoint::Help,
        Command::Start => Endpoint::Start,
        Command::Status => Endpoint::Status,
        Command::Reset => Endpoint::Reset,
        Command::SuperStatus => Endpoint::SuperStatus,
        Command::Tell(_) => Endpoint::Tell,
    }
}

/// Where an update goes. A message in a private chat goes to its command's
/// handler, where it is a command that the sender may use; otherwise it is
/// taken for a session where one is waited for, and is out of place where
/// none is. A channel post goes to the sweep. Nothing else is handled.
pub open spec fn routed(
    kind: UpdateKind,
    chat_id: i64,
    command: Option<Command>,
    superuser: bool,
    state: StateView,
) -> Endpoint {
    if kind == UpdateKind::Message && is_private_chat(chat_id) {
        if command is Some && (is_common(command->0) || superuser) {
            command_endpoint(command->0)
        } else if state is ReceiveSession {
            Endpoint::ReceiveCookie
        } else {
            Endpoint::InvalidState
        }
    } else if kind == UpdateKind::ChannelPost {
        Endpoint::ChannelPost
    } else {
        Endpoint::Unhandled
    }
}

/// Picks the handler of an update.
pub fn schema(
    kind: UpdateKind,
    chat_id: i64,
    command: &Option<Command>,
    superuser: bool,
    state: &State,
) -> (endpoint: Endpoint)
    ensures
        endpoint == routed(kind, chat_id, *command, superuser, state@),
{
    let message = match kind {
        UpdateKind::Message => true,
        _ => false,
    };
    if message && is_user_chat(chat_id) {
        match command {
            Some(Command::Help) => {
                return Endpoint::Help;
            },
            Some(Command::Start) => {
                return Endpoint::Start;
            },
            Some(Command::Status) => {
                return Endpoint::Status;
            },
            Some(Command::Reset) => {
                return Endpoint::Reset;
            },
            Some(Command::SuperStatus) => {
                if superuser {
                    return Endpoint::SuperStatus;
                }
            },
            Some(Command::Tell(_)) => {
                if superuser {
                    return Endpoint::Tell;
                }
            },
            None => {},
        }
        match state {
            State::ReceiveSession => Endpoint::ReceiveCookie,
            _ => Endpoint::InvalidState,
        }
    } else {
        match kind {
            UpdateKind::ChannelPost => Endpoint::ChannelPost,
            _ => Endpoint::Unhandled,
        }
    }
}

} // verus!
