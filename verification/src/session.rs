//! The executable handlers: one per entry point of the coordinator.
//!
//! Each handler takes the identities the hosting runtime knows — the
//! message's sender, the inbound message id, the coordinator's own id, and
//! the id the runtime will assign to the one message the handler may send —
//! and returns the effects to perform (or the error that aborts the
//! command, with no state mutation).  Each is proved to behave exactly as
//! the spec transition functions in [`crate::machine`] say.

use vstd::prelude::*;
use vstd::string::StrSliceExecFns;

use crate::machine::is_fully_lowercase;
use crate::machine::is_terminal;
use crate::machine::lemma_check_game_status_wf;
use crate::machine::lemma_check_word_wf;
use crate::machine::lemma_handle_reply_wf;
use crate::machine::lemma_start_game_wf;
use crate::machine::lower_of;
use crate::machine::spec_check_game_status;
use crate::machine::spec_check_word;
use crate::machine::spec_handle;
use crate::machine::spec_handle_reply;
use crate::machine::spec_init;
use crate::machine::spec_start_game;
use crate::machine::fresh_record;
use crate::machine::guess_pending_record;
use crate::machine::running_record;
use crate::machine::start_request_effects;
use crate::machine::start_resume_effects;
use crate::msgs::ActorId;
use crate::msgs::Effect;
use crate::msgs::EffectView;
use crate::msgs::GameError;
use crate::msgs::GameOverStatus;
use crate::msgs::GameSessionAction;
use crate::msgs::GameSessionEvent;
use crate::msgs::MessageId;
use crate::msgs::UserStatus;
use crate::msgs::WordleAction;
use crate::msgs::WordleEvent;
use crate::msgs::result_denotes;
use crate::msgs::MAX_ATTEMPTS;
use crate::msgs::TIMEOUT;
use crate::msgs::WORD_LENGTH;
use crate::store::find_user;
use crate::store::find_token;
use crate::store::find_waiting;
use crate::store::find_user_spec;
use crate::store::GameSession;
use crate::store::UserState;

verus! {

/// Relies on `str::to_lowercase`: the Unicode lowercase mapping of the
/// string, a function of its characters alone, here named `lower_of`.
#[verifier::external_body]
fn to_lowercase_of(s: &str) -> (r: String)
    ensures
        r@ == lower_of(s@),
{
    s.to_lowercase()
}

/// A word is acceptable exactly when lowercasing it changes nothing.
fn word_is_fully_lowercase(word: &String) -> (r: bool)
    ensures
        r == is_fully_lowercase(word@),
{
    let lowered = to_lowercase_of(word.as_str());
    let n = word.as_str().unicode_len();
    let m = lowered.as_str().unicode_len();
    if n != m {
        return false;
    }
    let mut i: usize = 0;
    while i < n
        invariant
            i <= n,
            n as nat == word@.len(),
            n as nat == lowered@.len(),
            lowered@ == lower_of(word@),
            forall|j: int| 0 <= j < i ==> word@[j] == lower_of(word@)[j],
        decreases n - i,
    {
        if word.as_str().get_char(i) != lowered.as_str().get_char(i) {
            return false;
        }
        i += 1;
    }
    proof {
        assert(word@ =~= lower_of(word@));
    }
    true
}

/// Whether the word has exactly [`WORD_LENGTH`] characters.
fn word_has_expected_length(word: &String) -> (r: bool)
    ensures
        r == (word@.len() == WORD_LENGTH as nat),
{
    word.as_str().unicode_len() == WORD_LENGTH
}

/// Whether `status` ends a game.
fn status_is_terminal(status: Option<UserStatus>) -> (r: bool)
    ensures
        r == is_terminal(status),
{
    match status {
        Some(UserStatus::Win) => true,
        Some(UserStatus::Lose) => true,
        Some(UserStatus::Timeout) => true,
        _ => false,
    }
}

/// Initialize the coordinator with the oracle's address and no sessions.
pub fn init(wordle_actor: ActorId) -> (gs: GameSession)
    ensures
        gs.deep_view() == spec_init(wordle_actor),
        gs.wf(),
{
    let gs = GameSession { wordle_actor, users_state: Vec::new() };
    proof {
        assert(gs.deep_view().users_state =~= Seq::<crate::store::UserStateView>::empty());
        assert(gs.deep_view() =~= spec_init(wordle_actor));
    }
    gs
}

/// The read-only state snapshot: the full store, verbatim.
pub fn state(gs: &GameSession) -> (r: &GameSession)
    ensures
        r == gs,
{
    gs
}

/// A `StartGame` for a user with a game already in progress is rejected.
pub fn process_game_already_started() -> (r: Result<Vec<Effect>, GameError>)
    ensures
        r == Err::<Vec<Effect>, GameError>(GameError::GameAlreadyStarted),
{
    Err(GameError::GameAlreadyStarted)
}

/// First half of a game start: write a parked, full-budget record for
/// `source` (replacing the user's old record, if any), and ask the runtime
/// to send the oracle a start request and park the inbound command.
fn process_start_game_first_half(
    gs: &mut GameSession,
    source: ActorId,
    msg_id: MessageId,
    fresh_id: MessageId,
) -> (r: Vec<Effect>)
    ensures
        r.deep_view() == start_request_effects(source, fresh_id),
        final(gs).wordle_actor == old(gs).wordle_actor,
        ({
            let pre = old(gs).deep_view();
            match find_user_spec(pre.users_state, source) {
                None => final(gs).deep_view().users_state == pre.users_state.push(
                    fresh_record(source, msg_id, fresh_id),
                ),
                Some(i) => final(gs).deep_view().users_state == pre.users_state.update(
                    i,
                    fresh_record(source, msg_id, fresh_id),
                ),
            }
        }),
{
    let record = UserState {
        user: source,
        status: None,
        wait_msg_id_user_to_game_session: Some(msg_id),
        wait_msg_id_game_session_to_wordle: Some(fresh_id),
        wakeup_event: None,
        check_word_msg_id: None,
        attempts_remaining: MAX_ATTEMPTS,
    };
    proof {
        assert(record.deep_view() =~= fresh_record(source, msg_id, fresh_id));
    }
    match find_user(&gs.users_state, source) {
        Some(i) => {
            crate::store::set_user_state(&mut gs.users_state, i, record);
        },
        None => {
            gs.users_state.push(record);
            proof {
                assert(gs.users_state.deep_view() =~= old(gs).users_state.deep_view().push(
                    record.deep_view(),
                ));
            }
        },
    }
    let mut effects: Vec<Effect> = Vec::new();
    effects.push(
        Effect::SendToWordle {
            message_id: fresh_id,
            action: WordleAction::StartGame { user: source },
        },
    );
    effects.push(Effect::Wait);
    proof {
        assert(effects.deep_view() =~= start_request_effects(source, fresh_id));
    }
    effects
}

/// Resumed second half of a game start for the parked record at index `i`:
/// unpark it, mark the game `Running`, reply `GameStarted`, and arm the
/// delayed timeout whose id the runtime hands us as `fresh_id`.
fn process_start_game_second_half(gs: &mut GameSession, i: usize, fresh_id: MessageId) -> (r: Vec<
    Effect,
>)
    requires
        i < old(gs).users_state.len(),
    ensures
        r.deep_view() == start_resume_effects(fresh_id),
        final(gs).wordle_actor == old(gs).wordle_actor,
        final(gs).deep_view().users_state == old(gs).deep_view().users_state.update(
            i as int,
            running_record(old(gs).deep_view().users_state[i as int], fresh_id),
        ),
{
    let st = gs.users_state.remove(i);
    let st2 = UserState {
        status: Some(UserStatus::Running),
        wait_msg_id_user_to_game_session: None,
        wait_msg_id_game_session_to_wordle: None,
        check_word_msg_id: Some(fresh_id),
        ..st
    };
    gs.users_state.insert(i, st2);
    proof {
        assert(gs.users_state@ =~= old(gs).users_state@.update(i as int, st2));
        assert(st2.deep_view() =~= running_record(
            old(gs).deep_view().users_state[i as int],
            fresh_id,
        ));
        assert(gs.users_state.deep_view() =~= old(gs).users_state.deep_view().update(
            i as int,
            st2.deep_view(),
        ));
    }
    let mut effects: Vec<Effect> = Vec::new();
    effects.push(Effect::Reply { event: GameSessionEvent::GameStarted });
    effects.push(Effect::ScheduleTimeout { message_id: fresh_id, delay: TIMEOUT });
    proof {
        assert(effects.deep_view() =~= start_resume_effects(fresh_id));
    }
    effects
}

/// Handle `StartGame` from `source`.
pub fn start_game_action(
    gs: &mut GameSession,
    source: ActorId,
    msg_id: MessageId,
    fresh_id: MessageId,
) -> (r: Result<Vec<Effect>, GameError>)
    requires
        old(gs).wf(),
    ensures
        final(gs).wf(),
        final(gs).deep_view() == spec_start_game(old(gs).deep_view(), source, msg_id, fresh_id).0,
        result_denotes(r, spec_start_game(old(gs).deep_view(), source, msg_id, fresh_id).1),
{
    proof {
        lemma_start_game_wf(old(gs).deep_view(), source, msg_id, fresh_id);
    }
    let r = match find_user(&gs.users_state, source) {
        None => Ok(process_start_game_first_half(gs, source, msg_id, fresh_id)),
        Some(i) => {
            if gs.users_state[i].wait_msg_id_game_session_to_wordle.is_some() {
                Ok(process_start_game_second_half(gs, i, fresh_id))
            } else if status_is_terminal(gs.users_state[i].status) {
                Ok(process_start_game_first_half(gs, source, msg_id, fresh_id))
            } else {
                process_game_already_started()
            }
        },
    };
    proof {
        assert(gs.deep_view() =~= spec_start_game(
            old(gs).deep_view(),
            source,
            msg_id,
            fresh_id,
        ).0);
    }
    r
}

/// Handle `CheckWord` from `source` with `word`.
pub fn check_word_action(
    gs: &mut GameSession,
    source: ActorId,
    msg_id: MessageId,
    word: String,
    fresh_id: MessageId,
) -> (r: Result<Vec<Effect>, GameError>)
    requires
        old(gs).wf(),
    ensures
        final(gs).wf(),
        final(gs).deep_view() == spec_check_word(
            old(gs).deep_view(),
            source,
            msg_id,
            word@,
            fresh_id,
        ).0,
        result_denotes(r, spec_check_word(old(gs).deep_view(), source, msg_id, word@, fresh_id).1),
{
    proof {
        lemma_check_word_wf(old(gs).deep_view(), source, msg_id, word@, fresh_id);
    }
    let idx = match find_user(&gs.users_state, source) {
        None => {
            return Err(GameError::GameNotExist);
        },
        Some(i) => i,
    };
    let status = gs.users_state[idx].status;
    if status.is_none() {
        return Err(GameError::GameNotStarted);
    }
    if status_is_terminal(status) {
        return Err(GameError::GameIsOver);
    }
    if !word_has_expected_length(&word) {
        return Err(GameError::WrongWordLength);
    }
    if !word_is_fully_lowercase(&word) {
        return Err(GameError::WordNotLowercase);
    }
    if gs.users_state[idx].wait_msg_id_game_session_to_wordle.is_none() {
        // First half: forward the guess to the oracle and park.
        let st = gs.users_state.remove(idx);
        let st2 = UserState {
            wait_msg_id_user_to_game_session: Some(msg_id),
            wait_msg_id_game_session_to_wordle: Some(fresh_id),
            ..st
        };
        gs.users_state.insert(idx, st2);
        proof {
            assert(gs.users_state@ =~= old(gs).users_state@.update(idx as int, st2));
            assert(st2.deep_view() =~= guess_pending_record(
                old(gs).deep_view().users_state[idx as int],
                msg_id,
                fresh_id,
            ));
            assert(gs.users_state.deep_view() =~= old(gs).users_state.deep_view().update(
                idx as int,
                st2.deep_view(),
            ));
        }
        let mut effects: Vec<Effect> = Vec::new();
        effects.push(
            Effect::SendToWordle {
                message_id: fresh_id,
                action: WordleAction::CheckWord { user: source, word },
            },
        );
        effects.push(Effect::Wait);
        proof {
            assert(gs.deep_view() =~= spec_check_word(
                old(gs).deep_view(),
                source,
                msg_id,
                word@,
                fresh_id,
            ).0);
            assert(effects.deep_view() =~= spec_check_word(
                old(gs).deep_view(),
                source,
                msg_id,
                word@,
                fresh_id,
            ).1.unwrap());
        }
        Ok(effects)
    } else {
        // Resumed second half: evaluate the cached oracle reply.
        let valid = match &gs.users_state[idx].wakeup_event {
            Some(WordleEvent::WordChecked { user, correct_positions: _, contained_in_word: _ }) => {
                *user == source
            },
            _ => false,
        };
        if !valid {
            return Err(GameError::InvalidWakeup);
        }
        let st = gs.users_state.remove(idx);
        let UserState {
            user: rec_user,
            status: rec_status,
            wait_msg_id_user_to_game_session: _,
            wait_msg_id_game_session_to_wordle: _,
            wakeup_event,
            check_word_msg_id: rec_token,
            attempts_remaining,
        } = st;
        match wakeup_event {
            Some(WordleEvent::WordChecked { user: ev_user, correct_positions, contained_in_word }) => {
                if correct_positions.len() == WORD_LENGTH {
                    let st2 = UserState {
                        user: rec_user,
                        status: Some(UserStatus::Win),
                        wait_msg_id_user_to_game_session: None,
                        wait_msg_id_game_session_to_wordle: None,
                        wakeup_event: Some(
                            WordleEvent::WordChecked {
                                user: ev_user,
                                correct_positions,
                                contained_in_word,
                            },
                        ),
                        check_word_msg_id: rec_token,
                        attempts_remaining,
                    };
                    gs.users_state.insert(idx, st2);
                    let mut effects: Vec<Effect> = Vec::new();
                    effects.push(
                        Effect::Reply {
                            event: GameSessionEvent::GameOver { status: GameOverStatus::Win },
                        },
                    );
                    proof {
                        assert(gs.users_state@ =~= old(gs).users_state@.update(idx as int, st2));
                        assert(gs.users_state.deep_view() =~= old(
                            gs,
                        ).users_state.deep_view().update(idx as int, st2.deep_view()));
                        assert(gs.deep_view() =~= spec_check_word(
                            old(gs).deep_view(),
                            source,
                            msg_id,
                            word@,
                            fresh_id,
                        ).0);
                        assert(effects.deep_view() =~= spec_check_word(
                            old(gs).deep_view(),
                            source,
                            msg_id,
                            word@,
                            fresh_id,
                        ).1.unwrap());
                    }
                    Ok(effects)
                } else if attempts_remaining == 1 {
                    let st2 = UserState {
                        user: rec_user,
                        status: Some(UserStatus::Lose),
                        wait_msg_id_user_to_game_session: None,
                        wait_msg_id_game_session_to_wordle: None,
                        wakeup_event: Some(
                            WordleEvent::WordChecked {
                                user: ev_user,
                                correct_positions,
                                contained_in_word,
                            },
                        ),
                        check_word_msg_id: rec_token,
                        attempts_remaining: 0,
                    };
                    gs.users_state.insert(idx, st2);
                    let mut effects: Vec<Effect> = Vec::new();
                    effects.push(
                        Effect::Reply {
                            event: GameSessionEvent::GameOver { status: GameOverStatus::Lose },
                        },
                    );
                    proof {
                        assert(gs.users_state@ =~= old(gs).users_state@.update(idx as int, st2));
                        assert(gs.users_state.deep_view() =~= old(
                            gs,
                        ).users_state.deep_view().update(idx as int, st2.deep_view()));
                        assert(gs.deep_view() =~= spec_check_word(
                            old(gs).deep_view(),
                            source,
                            msg_id,
                            word@,
                            fresh_id,
                        ).0);
                        assert(effects.deep_view() =~= spec_check_word(
                            old(gs).deep_view(),
                            source,
                            msg_id,
                            word@,
                            fresh_id,
                        ).1.unwrap());
                    }
                    Ok(effects)
                } else {
                    let reply_cp = copy_bytes(&correct_positions);
                    let reply_cw = copy_bytes(&contained_in_word);
                    let st2 = UserState {
                        user: rec_user,
                        status: rec_status,
                        wait_msg_id_user_to_game_session: None,
                        wait_msg_id_game_session_to_wordle: None,
                        wakeup_event: Some(
                            WordleEvent::WordChecked {
                                user: ev_user,
                                correct_positions,
                                contained_in_word,
                            },
                        ),
                        check_word_msg_id: rec_token,
                        attempts_remaining: attempts_remaining - 1,
                    };
                    gs.users_state.insert(idx, st2);
                    let mut effects: Vec<Effect> = Vec::new();
                    effects.push(
                        Effect::Reply {
                            event: GameSessionEvent::WordChecked {
                                correct_positions: reply_cp,
                                contained_in_word: reply_cw,
                            },
                        },
                    );
                    proof {
                        assert(gs.users_state@ =~= old(gs).users_state@.update(idx as int, st2));
                        assert(gs.users_state.deep_view() =~= old(
                            gs,
                        ).users_state.deep_view().update(idx as int, st2.deep_view()));
                        assert(gs.deep_view() =~= spec_check_word(
                            old(gs).deep_view(),
                            source,
                            msg_id,
                            word@,
                            fresh_id,
                        ).0);
                        assert(effects.deep_view() =~= spec_check_word(
                            old(gs).deep_view(),
                            source,
                            msg_id,
                            word@,
                            fresh_id,
                        ).1.unwrap());
                    }
                    Ok(effects)
                }
            },
            _ => {
                // The shape of the cached reply was checked before the
                // record was taken out, so this arm is provably dead.
                proof {
                    assert(false);
                }
                Err(GameError::InvalidWakeup)
            },
        }
    }
}

/// Handle a self-addressed `CheckGameStatus` timeout delivery.
pub fn check_game_status_action(
    gs: &mut GameSession,
    source: ActorId,
    msg_id: MessageId,
    program_id: ActorId,
) -> (r: Vec<Effect>)
    requires
        old(gs).wf(),
    ensures
        final(gs).wf(),
        final(gs).deep_view() == spec_check_game_status(
            old(gs).deep_view(),
            source,
            msg_id,
            program_id,
        ).0,
        r.deep_view() == spec_check_game_status(old(gs).deep_view(), source, msg_id, program_id).1,
{
    proof {
        lemma_check_game_status_wf(old(gs).deep_view(), source, msg_id, program_id);
    }
    if source != program_id {
        let r: Vec<Effect> = Vec::new();
        proof {
            assert(r.deep_view() =~= Seq::<EffectView>::empty());
        }
        return r;
    }
    match find_token(&gs.users_state, msg_id) {
        None => {
            let r: Vec<Effect> = Vec::new();
            proof {
                assert(r.deep_view() =~= Seq::<EffectView>::empty());
            }
            r
        },
        Some(i) => {
            let to = gs.users_state[i].user;
            let st = gs.users_state.remove(i);
            let st2 = UserState {
                status: Some(UserStatus::Timeout),
                check_word_msg_id: None,
                ..st
            };
            gs.users_state.insert(i, st2);
            let mut effects: Vec<Effect> = Vec::new();
            effects.push(Effect::Notify { to, event: GameSessionEvent::GameTimeout });
            proof {
                assert(gs.users_state@ =~= old(gs).users_state@.update(i as int, st2));
                assert(gs.users_state.deep_view() =~= old(gs).users_state.deep_view().update(
                    i as int,
                    st2.deep_view(),
                ));
                assert(gs.deep_view() =~= spec_check_game_status(
                    old(gs).deep_view(),
                    source,
                    msg_id,
                    program_id,
                ).0);
                assert(effects.deep_view() =~= spec_check_game_status(
                    old(gs).deep_view(),
                    source,
                    msg_id,
                    program_id,
                ).1);
            }
            effects
        },
    }
}

/// Route an oracle reply to the session waiting on it: cache the reply and
/// wake that session's parked inbound command; discard an orphaned reply.
pub fn handle_reply(gs: &mut GameSession, reply_to: MessageId, event: WordleEvent) -> (r: Vec<
    Effect,
>)
    requires
        old(gs).wf(),
    ensures
        final(gs).wf(),
        final(gs).deep_view() == spec_handle_reply(
            old(gs).deep_view(),
            reply_to,
            event.deep_view(),
        ).0,
        r.deep_view() == spec_handle_reply(old(gs).deep_view(), reply_to, event.deep_view()).1,
{
    proof {
        lemma_handle_reply_wf(old(gs).deep_view(), reply_to, event.deep_view());
    }
    match find_waiting(&gs.users_state, reply_to) {
        None => {
            let r: Vec<Effect> = Vec::new();
            proof {
                assert(r.deep_view() =~= Seq::<EffectView>::empty());
            }
            r
        },
        Some(i) => {
            let wake_id = gs.users_state[i].wait_msg_id_user_to_game_session;
            let st = gs.users_state.remove(i);
            let st2 = UserState { wakeup_event: Some(event), ..st };
            gs.users_state.insert(i, st2);
            proof {
                assert(gs.users_state@ =~= old(gs).users_state@.update(i as int, st2));
                assert(gs.users_state.deep_view() =~= old(gs).users_state.deep_view().update(
                    i as int,
                    st2.deep_view(),
                ));
                assert(gs.deep_view() =~= spec_handle_reply(
                    old(gs).deep_view(),
                    reply_to,
                    event.deep_view(),
                ).0);
            }
            let mut effects: Vec<Effect> = Vec::new();
            match wake_id {
                Some(m) => {
                    effects.push(Effect::Wake { message_id: m });
                },
                None => {},
            }
            proof {
                assert(effects.deep_view() =~= spec_handle_reply(
                    old(gs).deep_view(),
                    reply_to,
                    event.deep_view(),
                ).1);
            }
            effects
        },
    }
}

/// Dispatch one inbound message: decode already done by the caller, routing
/// and the whole transition verified here.
pub fn handle(
    gs: &mut GameSession,
    source: ActorId,
    msg_id: MessageId,
    program_id: ActorId,
    fresh_id: MessageId,
    action: GameSessionAction,
) -> (r: Result<Vec<Effect>, GameError>)
    requires
        old(gs).wf(),
    ensures
        final(gs).wf(),
        final(gs).deep_view() == spec_handle(
            old(gs).deep_view(),
            source,
            msg_id,
            program_id,
            fresh_id,
            action.deep_view(),
        ).0,
        result_denotes(
            r,
            spec_handle(
                old(gs).deep_view(),
                source,
                msg_id,
                program_id,
                fresh_id,
                action.deep_view(),
            ).1,
        ),
{
    match action {
        GameSessionAction::StartGame => start_game_action(gs, source, msg_id, fresh_id),
        GameSessionAction::CheckWord { word } => check_word_action(
            gs,
            source,
            msg_id,
            word,
            fresh_id,
        ),
        GameSessionAction::CheckGameStatus => Ok(
            check_game_status_action(gs, source, msg_id, program_id),
        ),
    }
}

/// Copy a byte vector (the reply to the user carries its own copy of the
/// oracle's position lists, while the record keeps the cached originals).
fn copy_bytes(src: &Vec<u8>) -> (r: Vec<u8>)
    ensures
        r@ == src@,
{
    let n = src.len();
    let mut r: Vec<u8> = Vec::new();
    let mut i: usize = 0;
    while i < n
        invariant
            i <= n,
            n == src.len(),
            r@ == src@.subrange(0, i as int),
        decreases n - i,
    {
        r.push(src[i]);
        proof {
            assert(r@ =~= src@.subrange(0, i + 1));
        }
        i += 1;
    }
    proof {
        assert(src@.subrange(0, n as int) =~= src@);
    }
    r
}

} // verus!
