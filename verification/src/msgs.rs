//! Message schemas: inbound actions, outbound events, oracle requests and
//! replies, the coordinator's error values, and the runtime effects the
//! handlers request.
//!
//! Each executable type that carries a `String` or a `Vec` has a spec-level
//! mirror over `Seq`, reached through `DeepView`; contracts and the spec
//! state machine speak of the mirrors.

use vstd::prelude::*;

verus! {

/// Identity of an actor (a user, the coordinator itself, or the oracle).
pub type ActorId = u64;

/// Identifier the runtime assigns to each message.
pub type MessageId = u64;

/// Attempt budget of one game.
pub const MAX_ATTEMPTS: u8 = 6;

/// Inactivity delay, in the runtime's time units, after which a running game
/// times out.
pub const TIMEOUT: u32 = 200;

/// Number of letters of every guessed word.
pub const WORD_LENGTH: usize = 5;

/// Marker for the coordinator's external interface: initialized with the
/// oracle's `ActorId`, handles `GameSessionAction`, replies with
/// `GameSessionEvent`, and answers state queries with the full session store.
pub struct GameSessionMetadata;

/// Status of one user's current (or most recent) game.
#[derive(Debug, Clone, Copy, PartialEq, Eq, Structural)]
pub enum UserStatus {
    Running,
    Win,
    Lose,
    Timeout,
}

/// Terminal outcome reported in a `GameSessionEvent::GameOver` reply.
#[derive(Debug, Clone, Copy, PartialEq, Eq, Structural)]
pub enum GameOverStatus {
    Win,
    Lose,
    Timeout,
}

/// Inbound command a user (or the timeout scheduler) sends the coordinator.
#[derive(Debug, Clone, PartialEq, Eq)]
pub enum GameSessionAction {
    StartGame,
    CheckWord { word: String },
    CheckGameStatus,
}

/// Spec mirror of [`GameSessionAction`].
pub enum GameSessionActionView {
    StartGame,
    CheckWord { word: Seq<char> },
    CheckGameStatus,
}

impl DeepView for GameSessionAction {
    type V = GameSessionActionView;

    open spec fn deep_view(&self) -> GameSessionActionView {
        match self {
            GameSessionAction::StartGame => GameSessionActionView::StartGame,
            GameSessionAction::CheckWord { word } => GameSessionActionView::CheckWord {
                word: word.deep_view(),
            },
            GameSessionAction::CheckGameStatus => GameSessionActionView::CheckGameStatus,
        }
    }
}

/// Event the coordinator sends back to a user.
#[derive(Debug, Clone, PartialEq, Eq)]
pub enum GameSessionEvent {
    GameStarted,
    GameTimeout,
    WordChecked { correct_positions: Vec<u8>, contained_in_word: Vec<u8> },
    GameOver { status: GameOverStatus },
}

/// Spec mirror of [`GameSessionEvent`].
pub enum GameSessionEventView {
    GameStarted,
    GameTimeout,
    WordChecked { correct_positions: Seq<u8>, contained_in_word: Seq<u8> },
    GameOver { status: GameOverStatus },
}

impl DeepView for GameSessionEvent {
    type V = GameSessionEventView;

    open spec fn deep_view(&self) -> GameSessionEventView {
        match self {
            GameSessionEvent::GameStarted => GameSessionEventView::GameStarted,
            GameSessionEvent::GameTimeout => GameSessionEventView::GameTimeout,
            GameSessionEvent::WordChecked { correct_positions, contained_in_word } => {
                GameSessionEventView::WordChecked {
                    correct_positions: correct_positions.deep_view(),
                    contained_in_word: contained_in_word.deep_view(),
                }
            },
            GameSessionEvent::GameOver { status } => GameSessionEventView::GameOver {
                status: *status,
            },
        }
    }
}

/// Request the coordinator sends to the oracle.
#[derive(Debug, Clone, PartialEq, Eq)]
pub enum WordleAction {
    StartGame { user: ActorId },
    CheckWord { user: ActorId, word: String },
}

/// Spec mirror of [`WordleAction`].
pub enum WordleActionView {
    StartGame { user: ActorId },
    CheckWord { user: ActorId, word: Seq<char> },
}

impl DeepView for WordleAction {
    type V = WordleActionView;

    open spec fn deep_view(&self) -> WordleActionView {
        match self {
            WordleAction::StartGame { user } => WordleActionView::StartGame { user: *user },
            WordleAction::CheckWord { user, word } => WordleActionView::CheckWord {
                user: *user,
                word: word.deep_view(),
            },
        }
    }
}

/// Reply the oracle sends back, correlated to an earlier [`WordleAction`].
#[derive(Debug, Clone, PartialEq, Eq)]
pub enum WordleEvent {
    GameStarted { user: ActorId },
    WordChecked { user: ActorId, correct_positions: Vec<u8>, contained_in_word: Vec<u8> },
}

/// Spec mirror of [`WordleEvent`].
pub enum WordleEventView {
    GameStarted { user: ActorId },
    WordChecked { user: ActorId, correct_positions: Seq<u8>, contained_in_word: Seq<u8> },
}

impl DeepView for WordleEvent {
    type V = WordleEventView;

    open spec fn deep_view(&self) -> WordleEventView {
        match self {
            WordleEvent::GameStarted { user } => WordleEventView::GameStarted { user: *user },
            WordleEvent::WordChecked { user, correct_positions, contained_in_word } => {
                WordleEventView::WordChecked {
                    user: *user,
                    correct_positions: correct_positions.deep_view(),
                    contained_in_word: contained_in_word.deep_view(),
                }
            },
        }
    }
}

/// Why the coordinator rejected an inbound command.  A rejected command
/// aborts with no state mutation.
#[derive(Debug, Clone, Copy, PartialEq, Eq, Structural)]
pub enum GameError {
    /// `StartGame` while the user's game is `Running` with no parked command.
    GameAlreadyStarted,
    /// `CheckWord` from a user with no session at all.
    GameNotExist,
    /// `CheckWord` from a user whose game start has not completed yet.
    GameNotStarted,
    /// `CheckWord` after the game already reached a terminal status.
    GameIsOver,
    /// Guessed word does not have exactly [`WORD_LENGTH`] characters.
    WrongWordLength,
    /// Guessed word is not fully lowercase.
    WordNotLowercase,
    /// A resumed `CheckWord` found a cached oracle reply of the wrong shape
    /// or for the wrong user: the oracle broke its contract.
    InvalidWakeup,
}

/// A side effect the handler asks the hosting runtime to perform, in order.
#[derive(Debug, Clone, PartialEq, Eq)]
pub enum Effect {
    /// Send `action` to the oracle; the runtime assigns it `message_id`
    /// (the id the handler was given up front).
    SendToWordle { message_id: MessageId, action: WordleAction },
    /// Park the inbound command: yield without replying, to be woken later.
    Wait,
    /// Reply to the inbound command's sender.
    Reply { event: GameSessionEvent },
    /// Schedule `CheckGameStatus` to the coordinator itself after `delay`
    /// time units; the runtime assigns it `message_id`.
    ScheduleTimeout { message_id: MessageId, delay: u32 },
    /// Send a free-standing notification to `to`.
    Notify { to: ActorId, event: GameSessionEvent },
    /// Re-queue the parked inbound message `message_id` for execution.
    Wake { message_id: MessageId },
}

/// Spec mirror of [`Effect`].
pub enum EffectView {
    SendToWordle { message_id: MessageId, action: WordleActionView },
    Wait,
    Reply { event: GameSessionEventView },
    ScheduleTimeout { message_id: MessageId, delay: u32 },
    Notify { to: ActorId, event: GameSessionEventView },
    Wake { message_id: MessageId },
}

impl DeepView for Effect {
    type V = EffectView;

    open spec fn deep_view(&self) -> EffectView {
        match self {
            Effect::SendToWordle { message_id, action } => EffectView::SendToWordle {
                message_id: *message_id,
                action: action.deep_view(),
            },
            Effect::Wait => EffectView::Wait,
            Effect::Reply { event } => EffectView::Reply { event: event.deep_view() },
            Effect::ScheduleTimeout { message_id, delay } => EffectView::ScheduleTimeout {
                message_id: *message_id,
                delay: *delay,
            },
            Effect::Notify { to, event } => EffectView::Notify {
                to: *to,
                event: event.deep_view(),
            },
            Effect::Wake { message_id } => EffectView::Wake { message_id: *message_id },
        }
    }
}

/// `true` when the executable handler result `r` denotes the spec-level
/// result `s`.
pub open spec fn result_denotes(
    r: Result<Vec<Effect>, GameError>,
    s: Result<Seq<EffectView>, GameError>,
) -> bool {
    match r {
        Ok(effects) => s == Ok::<Seq<EffectView>, GameError>(effects.deep_view()),
        Err(e) => s == Err::<Seq<EffectView>, GameError>(e),
    }
}

} // verus!
