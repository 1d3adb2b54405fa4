//! The coordinator's state machine at the specification level: one total
//! transition function per inbound message kind, over [`SessionView`].
//!
//! The executable handlers in [`crate::session`] are each proved to return
//! exactly what these functions say, and the laws in [`crate::laws`] are
//! proved about these functions.

use vstd::prelude::*;

use crate::msgs::ActorId;
use crate::msgs::EffectView;
use crate::msgs::GameError;
use crate::msgs::GameOverStatus;
use crate::msgs::GameSessionActionView;
use crate::msgs::GameSessionEventView;
use crate::msgs::MessageId;
use crate::msgs::UserStatus;
use crate::msgs::WordleActionView;
use crate::msgs::WordleEventView;
use crate::msgs::MAX_ATTEMPTS;
use crate::msgs::TIMEOUT;
use crate::msgs::WORD_LENGTH;
use crate::store::find_token_spec;
use crate::store::find_user_spec;
use crate::store::find_waiting_spec;
use crate::store::lemma_find_user_spec;
use crate::store::lemma_session_wf_push;
use crate::store::lemma_session_wf_update;
use crate::store::session_wf;
use crate::store::user_wf;
use crate::store::SessionView;
use crate::store::UserStateView;

verus! {

/// What `str::to_lowercase` returns for a given character sequence: the
/// Unicode lowercase mapping of the whole sequence.  Named here so contracts
/// can speak of it; only the trusted wrapper in [`crate::session`] says
/// anything about it.
pub uninterp spec fn lower_of(s: Seq<char>) -> Seq<char>;

/// A word is acceptable to guess with exactly when lowercasing leaves it
/// unchanged.
pub open spec fn is_fully_lowercase(s: Seq<char>) -> bool {
    s == lower_of(s)
}

/// `Win`, `Lose` and `Timeout` end a game; `Running` does not, and a missing
/// status means the game's start has not completed.
pub open spec fn is_terminal(status: Option<UserStatus>) -> bool {
    ||| status == Some(UserStatus::Win)
    ||| status == Some(UserStatus::Lose)
    ||| status == Some(UserStatus::Timeout)
}

/// The store right after initialization: the oracle's address and no
/// sessions.
pub open spec fn spec_init(wordle_actor: ActorId) -> SessionView {
    SessionView { wordle_actor, users_state: Seq::empty() }
}

/// The record a game start writes: parked on the inbound command
/// `inbound_id` and the oracle request `outbound_id`, no status yet, full
/// attempt budget.
pub open spec fn fresh_record(
    user: ActorId,
    inbound_id: MessageId,
    outbound_id: MessageId,
) -> UserStateView {
    UserStateView {
        user,
        status: None,
        wait_msg_id_user_to_game_session: Some(inbound_id),
        wait_msg_id_game_session_to_wordle: Some(outbound_id),
        wakeup_event: None,
        check_word_msg_id: None,
        attempts_remaining: MAX_ATTEMPTS,
    }
}

/// The parked record after a game start resumes: the game is `Running`, the
/// pending ids are cleared, and the delayed timeout `timeout_id` is armed.
pub open spec fn running_record(st: UserStateView, timeout_id: MessageId) -> UserStateView {
    UserStateView {
        status: Some(UserStatus::Running),
        wait_msg_id_user_to_game_session: None,
        wait_msg_id_game_session_to_wordle: None,
        check_word_msg_id: Some(timeout_id),
        ..st
    }
}

/// The record while a guess is parked on the oracle request `outbound_id`.
pub open spec fn guess_pending_record(
    st: UserStateView,
    inbound_id: MessageId,
    outbound_id: MessageId,
) -> UserStateView {
    UserStateView {
        wait_msg_id_user_to_game_session: Some(inbound_id),
        wait_msg_id_game_session_to_wordle: Some(outbound_id),
        ..st
    }
}

/// The record after a resumed guess ends the game with `status`, keeping
/// `attempts` attempts.
pub open spec fn settled_record(
    st: UserStateView,
    status: UserStatus,
    attempts: u8,
) -> UserStateView {
    UserStateView {
        status: Some(status),
        wait_msg_id_user_to_game_session: None,
        wait_msg_id_game_session_to_wordle: None,
        attempts_remaining: attempts,
        ..st
    }
}

/// The record after a resumed incorrect guess that leaves the game running:
/// unparked, one attempt burned.
pub open spec fn missed_record(st: UserStateView) -> UserStateView {
    UserStateView {
        wait_msg_id_user_to_game_session: None,
        wait_msg_id_game_session_to_wordle: None,
        attempts_remaining: (st.attempts_remaining - 1) as u8,
        ..st
    }
}

/// The record after the armed timeout fires.
pub open spec fn timed_out_record(st: UserStateView) -> UserStateView {
    UserStateView { status: Some(UserStatus::Timeout), check_word_msg_id: None, ..st }
}

/// The record after an oracle reply is cached on a parked session.
pub open spec fn cached_record(st: UserStateView, event: WordleEventView) -> UserStateView {
    UserStateView { wakeup_event: Some(event), ..st }
}

/// Effects of the first half of a game start: ask the oracle to start a game
/// for `user`, then park.
pub open spec fn start_request_effects(user: ActorId, outbound_id: MessageId) -> Seq<EffectView> {
    seq![
        EffectView::SendToWordle {
            message_id: outbound_id,
            action: WordleActionView::StartGame { user },
        },
        EffectView::Wait,
    ]
}

/// Effects of the resumed second half of a game start: tell the caller the
/// game started, then arm the delayed timeout (in this order: the reply
/// always precedes the schedule being armed).
pub open spec fn start_resume_effects(timeout_id: MessageId) -> Seq<EffectView> {
    seq![
        EffectView::Reply { event: GameSessionEventView::GameStarted },
        EffectView::ScheduleTimeout { message_id: timeout_id, delay: TIMEOUT },
    ]
}

/// `StartGame` from `source`, delivered as message `msg_id`; `fresh_id` is
/// the id the runtime will assign to whichever message the handler sends
/// (the oracle request in the first half, the delayed timeout in the second).
pub open spec fn spec_start_game(
    pre: SessionView,
    source: ActorId,
    msg_id: MessageId,
    fresh_id: MessageId,
) -> (SessionView, Result<Seq<EffectView>, GameError>) {
    match find_user_spec(pre.users_state, source) {
        None => (
            SessionView {
                users_state: pre.users_state.push(fresh_record(source, msg_id, fresh_id)),
                ..pre
            },
            Ok(start_request_effects(source, fresh_id)),
        ),
        Some(i) => {
            let st = pre.users_state[i];
            if st.wait_msg_id_game_session_to_wordle is Some {
                let st2 = running_record(st, fresh_id);
                (
                    SessionView { users_state: pre.users_state.update(i, st2), ..pre },
                    Ok(start_resume_effects(fresh_id)),
                )
            } else if is_terminal(st.status) {
                (
                    SessionView {
                        users_state: pre.users_state.update(
                            i,
                            fresh_record(source, msg_id, fresh_id),
                        ),
                        ..pre
                    },
                    Ok(start_request_effects(source, fresh_id)),
                )
            } else {
                (pre, Err(GameError::GameAlreadyStarted))
            }
        },
    }
}

/// `CheckWord` from `source` with `word`, delivered as message `msg_id`;
/// `fresh_id` is the id the runtime will assign to the oracle request the
/// first half sends.
pub open spec fn spec_check_word(
    pre: SessionView,
    source: ActorId,
    msg_id: MessageId,
    word: Seq<char>,
    fresh_id: MessageId,
) -> (SessionView, Result<Seq<EffectView>, GameError>) {
    match find_user_spec(pre.users_state, source) {
        None => (pre, Err(GameError::GameNotExist)),
        Some(i) => {
            let st = pre.users_state[i];
            if st.status is None {
                (pre, Err(GameError::GameNotStarted))
            } else if is_terminal(st.status) {
                (pre, Err(GameError::GameIsOver))
            } else if word.len() != WORD_LENGTH as nat {
                (pre, Err(GameError::WrongWordLength))
            } else if !is_fully_lowercase(word) {
                (pre, Err(GameError::WordNotLowercase))
            } else if st.wait_msg_id_game_session_to_wordle is None {
                let st2 = guess_pending_record(st, msg_id, fresh_id);
                (
                    SessionView { users_state: pre.users_state.update(i, st2), ..pre },
                    Ok(
                        seq![
                            EffectView::SendToWordle {
                                message_id: fresh_id,
                                action: WordleActionView::CheckWord { user: source, word },
                            },
                            EffectView::Wait,
                        ],
                    ),
                )
            } else {
                spec_check_word_resume(pre, i, source)
            }
        },
    }
}

/// The resumed second half of `CheckWord`: evaluate the cached oracle reply
/// for the parked session at index `i`.
pub open spec fn spec_check_word_resume(pre: SessionView, i: int, source: ActorId) -> (
    SessionView,
    Result<Seq<EffectView>, GameError>,
) {
    let st = pre.users_state[i];
    match st.wakeup_event {
        Some(
            WordleEventView::WordChecked { user, correct_positions, contained_in_word },
        ) => {
            if user != source {
                (pre, Err(GameError::InvalidWakeup))
            } else if correct_positions.len() == WORD_LENGTH as nat {
                let st2 = settled_record(st, UserStatus::Win, st.attempts_remaining);
                (
                    SessionView { users_state: pre.users_state.update(i, st2), ..pre },
                    Ok(
                        seq![
                            EffectView::Reply {
                                event: GameSessionEventView::GameOver {
                                    status: GameOverStatus::Win,
                                },
                            },
                        ],
                    ),
                )
            } else if st.attempts_remaining == 1 {
                let st2 = settled_record(st, UserStatus::Lose, 0);
                (
                    SessionView { users_state: pre.users_state.update(i, st2), ..pre },
                    Ok(
                        seq![
                            EffectView::Reply {
                                event: GameSessionEventView::GameOver {
                                    status: GameOverStatus::Lose,
                                },
                            },
                        ],
                    ),
                )
            } else {
                let st2 = missed_record(st);
                (
                    SessionView { users_state: pre.users_state.update(i, st2), ..pre },
                    Ok(
                        seq![
                            EffectView::Reply {
                                event: GameSessionEventView::WordChecked {
                                    correct_positions,
                                    contained_in_word,
                                },
                            },
                        ],
                    ),
                )
            }
        },
        _ => (pre, Err(GameError::InvalidWakeup)),
    }
}

/// `CheckGameStatus` delivered as message `msg_id` from `source`: meaningful
/// only when self-addressed (`source == program_id`).  A delivery whose id
/// no session holds as its armed token is a harmless no-op (a stale timeout
/// racing a finished game).
pub open spec fn spec_check_game_status(
    pre: SessionView,
    source: ActorId,
    msg_id: MessageId,
    program_id: ActorId,
) -> (SessionView, Seq<EffectView>) {
    if source != program_id {
        (pre, Seq::empty())
    } else {
        match find_token_spec(pre.users_state, msg_id) {
            None => (pre, Seq::empty()),
            Some(i) => {
                let st = pre.users_state[i];
                let st2 = timed_out_record(st);
                (
                    SessionView { users_state: pre.users_state.update(i, st2), ..pre },
                    seq![
                        EffectView::Notify {
                            to: st.user,
                            event: GameSessionEventView::GameTimeout,
                        },
                    ],
                )
            },
        }
    }
}

/// An oracle reply answering the outbound request `reply_to`: cache it on
/// the session waiting for it and wake that session's parked inbound
/// command; with no such session, discard it silently.
pub open spec fn spec_handle_reply(
    pre: SessionView,
    reply_to: MessageId,
    event: WordleEventView,
) -> (SessionView, Seq<EffectView>) {
    match find_waiting_spec(pre.users_state, reply_to) {
        None => (pre, Seq::empty()),
        Some(i) => {
            let st = pre.users_state[i];
            let st2 = cached_record(st, event);
            (
                SessionView { users_state: pre.users_state.update(i, st2), ..pre },
                match st.wait_msg_id_user_to_game_session {
                    Some(m) => seq![EffectView::Wake { message_id: m }],
                    None => Seq::empty(),
                },
            )
        },
    }
}

/// Dispatch of one inbound message to the transition it triggers.
pub open spec fn spec_handle(
    pre: SessionView,
    source: ActorId,
    msg_id: MessageId,
    program_id: ActorId,
    fresh_id: MessageId,
    action: GameSessionActionView,
) -> (SessionView, Result<Seq<EffectView>, GameError>) {
    match action {
        GameSessionActionView::StartGame => spec_start_game(pre, source, msg_id, fresh_id),
        GameSessionActionView::CheckWord { word } => spec_check_word(
            pre,
            source,
            msg_id,
            word,
            fresh_id,
        ),
        GameSessionActionView::CheckGameStatus => {
            let (post, effects) = spec_check_game_status(pre, source, msg_id, program_id);
            (post, Ok(effects))
        },
    }
}

/// `StartGame` preserves well-formedness and never touches the oracle's
/// address.
pub proof fn lemma_start_game_wf(
    pre: SessionView,
    source: ActorId,
    msg_id: MessageId,
    fresh_id: MessageId,
)
    requires
        session_wf(pre),
    ensures
        session_wf(spec_start_game(pre, source, msg_id, fresh_id).0),
        spec_start_game(pre, source, msg_id, fresh_id).0.wordle_actor == pre.wordle_actor,
{
    lemma_find_user_spec(pre.users_state, source);
    match find_user_spec(pre.users_state, source) {
        None => {
            lemma_session_wf_push(pre, fresh_record(source, msg_id, fresh_id));
        },
        Some(i) => {
            let st = pre.users_state[i];
            assert(user_wf(st));
            if st.wait_msg_id_game_session_to_wordle is Some {
                lemma_session_wf_update(pre, i, running_record(st, fresh_id));
            } else if is_terminal(st.status) {
                lemma_session_wf_update(pre, i, fresh_record(source, msg_id, fresh_id));
            }
        },
    }
}

/// `CheckWord` preserves well-formedness and never touches the oracle's
/// address.
pub proof fn lemma_check_word_wf(
    pre: SessionView,
    source: ActorId,
    msg_id: MessageId,
    word: Seq<char>,
    fresh_id: MessageId,
)
    requires
        session_wf(pre),
    ensures
        session_wf(spec_check_word(pre, source, msg_id, word, fresh_id).0),
        spec_check_word(pre, source, msg_id, word, fresh_id).0.wordle_actor == pre.wordle_actor,
{
    lemma_find_user_spec(pre.users_state, source);
    match find_user_spec(pre.users_state, source) {
        None => {},
        Some(i) => {
            let st = pre.users_state[i];
            assert(user_wf(st));
            if st.status is None {
            } else if is_terminal(st.status) {
            } else if word.len() != WORD_LENGTH as nat {
            } else if !is_fully_lowercase(word) {
            } else if st.wait_msg_id_game_session_to_wordle is None {
                assert(st.status == Some(UserStatus::Running));
                assert(st.attempts_remaining >= 1);
                lemma_session_wf_update(pre, i, guess_pending_record(st, msg_id, fresh_id));
            } else {
                match st.wakeup_event {
                    Some(
                        WordleEventView::WordChecked { user, correct_positions, contained_in_word: _ },
                    ) => {
                        if user != source {
                        } else if correct_positions.len() == WORD_LENGTH as nat {
                            lemma_session_wf_update(
                                pre,
                                i,
                                settled_record(st, UserStatus::Win, st.attempts_remaining),
                            );
                        } else if st.attempts_remaining == 1 {
                            lemma_session_wf_update(pre, i, settled_record(st, UserStatus::Lose, 0));
                        } else {
                            lemma_session_wf_update(pre, i, missed_record(st));
                        }
                    },
                    _ => {},
                }
            }
        },
    }
}

/// `CheckGameStatus` preserves well-formedness and never touches the
/// oracle's address.
pub proof fn lemma_check_game_status_wf(
    pre: SessionView,
    source: ActorId,
    msg_id: MessageId,
    program_id: ActorId,
)
    requires
        session_wf(pre),
    ensures
        session_wf(spec_check_game_status(pre, source, msg_id, program_id).0),
        spec_check_game_status(pre, source, msg_id, program_id).0.wordle_actor
            == pre.wordle_actor,
{
    crate::store::lemma_find_token_spec(pre.users_state, msg_id);
    if source == program_id {
        match find_token_spec(pre.users_state, msg_id) {
            None => {},
            Some(i) => {
                assert(user_wf(pre.users_state[i]));
                lemma_session_wf_update(pre, i, timed_out_record(pre.users_state[i]));
            },
        }
    }
}

/// Caching an oracle reply preserves well-formedness and never touches the
/// oracle's address.
pub proof fn lemma_handle_reply_wf(pre: SessionView, reply_to: MessageId, event: WordleEventView)
    requires
        session_wf(pre),
    ensures
        session_wf(spec_handle_reply(pre, reply_to, event).0),
        spec_handle_reply(pre, reply_to, event).0.wordle_actor == pre.wordle_actor,
{
    crate::store::lemma_find_waiting_spec(pre.users_state, reply_to);
    match find_waiting_spec(pre.users_state, reply_to) {
        None => {},
        Some(i) => {
            assert(user_wf(pre.users_state[i]));
            lemma_session_wf_update(pre, i, cached_record(pre.users_state[i], event));
        },
    }
}

/// Dispatch preserves well-formedness and never touches the oracle's
/// address.
pub proof fn lemma_handle_wf(
    pre: SessionView,
    source: ActorId,
    msg_id: MessageId,
    program_id: ActorId,
    fresh_id: MessageId,
    action: GameSessionActionView,
)
    requires
        session_wf(pre),
    ensures
        session_wf(spec_handle(pre, source, msg_id, program_id, fresh_id, action).0),
        spec_handle(pre, source, msg_id, program_id, fresh_id, action).0.wordle_actor
            == pre.wordle_actor,
{
    match action {
        GameSessionActionView::StartGame => lemma_start_game_wf(pre, source, msg_id, fresh_id),
        GameSessionActionView::CheckWord { word } => lemma_check_word_wf(
            pre,
            source,
            msg_id,
            word,
            fresh_id,
        ),
        GameSessionActionView::CheckGameStatus => lemma_check_game_status_wf(
            pre,
            source,
            msg_id,
            program_id,
        ),
    }
}

} // verus!
