//! Laws of the coordinator: the general guarantees the library gives,
//! stated over the spec transition functions of [`crate::machine`] and
//! proved once for all inputs.

use vstd::prelude::*;

use crate::machine::cached_record;
use crate::machine::fresh_record;
use crate::machine::guess_pending_record;
use crate::machine::is_fully_lowercase;
use crate::machine::is_terminal;
use crate::machine::lemma_check_word_wf;
use crate::machine::lemma_start_game_wf;
use crate::machine::lemma_handle_reply_wf;
use crate::machine::missed_record;
use crate::machine::running_record;
use crate::machine::settled_record;
use crate::machine::spec_check_game_status;
use crate::machine::spec_check_word;
use crate::machine::spec_handle_reply;
use crate::machine::spec_start_game;
use crate::machine::start_request_effects;
use crate::machine::start_resume_effects;
use crate::msgs::ActorId;
use crate::msgs::EffectView;
use crate::msgs::GameError;
use crate::msgs::GameOverStatus;
use crate::msgs::GameSessionEventView;
use crate::msgs::MessageId;
use crate::msgs::UserStatus;
use crate::msgs::WordleEventView;
use crate::msgs::MAX_ATTEMPTS;
use crate::msgs::WORD_LENGTH;
use crate::store::find_token_spec;
use crate::store::find_user_spec;
use crate::store::lemma_find_token_spec;
use crate::store::lemma_find_user_spec;
use crate::store::lemma_find_user_unique;
use crate::store::lemma_find_waiting_unique;
use crate::store::session_wf;
use crate::store::user_wf;
use crate::store::SessionView;

verus! {

/// Starting a game for a user whose previous game is terminal resets the
/// record in place: the attempt budget returns to [`MAX_ATTEMPTS`], the
/// prior status is cleared, and the oracle is asked to start a new game.
pub proof fn law_restart_after_terminal(
    pre: SessionView,
    idx: int,
    source: ActorId,
    msg_id: MessageId,
    fresh_id: MessageId,
)
    requires
        session_wf(pre),
        find_user_spec(pre.users_state, source) == Some(idx),
        pre.users_state[idx].wait_msg_id_game_session_to_wordle is None,
        is_terminal(pre.users_state[idx].status),
    ensures
        ({
            let (post, r) = spec_start_game(pre, source, msg_id, fresh_id);
            &&& post.users_state == pre.users_state.update(
                idx,
                fresh_record(source, msg_id, fresh_id),
            )
            &&& post.users_state[idx].attempts_remaining == MAX_ATTEMPTS
            &&& post.users_state[idx].status is None
            &&& r == Ok::<Seq<EffectView>, GameError>(start_request_effects(source, fresh_id))
        }),
{
    lemma_find_user_spec(pre.users_state, source);
}

/// Starting a game for a user whose game is still `Running` (and not
/// parked) is rejected every time, with no state mutation.
pub proof fn law_start_while_running_rejected(
    pre: SessionView,
    idx: int,
    source: ActorId,
    msg_id: MessageId,
    fresh_id: MessageId,
)
    requires
        session_wf(pre),
        find_user_spec(pre.users_state, source) == Some(idx),
        pre.users_state[idx].wait_msg_id_game_session_to_wordle is None,
        pre.users_state[idx].status == Some(UserStatus::Running),
    ensures
        spec_start_game(pre, source, msg_id, fresh_id).0 == pre,
        spec_start_game(pre, source, msg_id, fresh_id).1 == Err::<Seq<EffectView>, GameError>(
            GameError::GameAlreadyStarted,
        ),
{
    lemma_find_user_spec(pre.users_state, source);
}

/// In the resumed half of a game start, the `GameStarted` reply to the user
/// always precedes the timeout schedule being armed: the effect sequence is
/// exactly the reply first, the delayed self-message second, and only then
/// does the record hold the armed token.
pub proof fn law_reply_precedes_timeout_arming(
    pre: SessionView,
    idx: int,
    source: ActorId,
    msg_id: MessageId,
    fresh_id: MessageId,
)
    requires
        session_wf(pre),
        find_user_spec(pre.users_state, source) == Some(idx),
        pre.users_state[idx].wait_msg_id_game_session_to_wordle is Some,
    ensures
        ({
            let (post, r) = spec_start_game(pre, source, msg_id, fresh_id);
            &&& r == Ok::<Seq<EffectView>, GameError>(start_resume_effects(fresh_id))
            &&& start_resume_effects(fresh_id)[0] == (EffectView::Reply {
                event: GameSessionEventView::GameStarted,
            })
            &&& start_resume_effects(fresh_id)[1] is ScheduleTimeout
            &&& post.users_state[idx].check_word_msg_id == Some(fresh_id)
            &&& post.users_state[idx].status == Some(UserStatus::Running)
        }),
{
    lemma_find_user_spec(pre.users_state, source);
}

/// A self-addressed timeout delivery whose id is the armed token of exactly
/// one session turns that session's game to `Timeout`, disarms the token,
/// and notifies that session's user exactly once; no other record changes.
pub proof fn law_timeout_fires_once(
    pre: SessionView,
    idx: int,
    msg_id: MessageId,
    program_id: ActorId,
)
    requires
        session_wf(pre),
        0 <= idx < pre.users_state.len(),
        pre.users_state[idx].check_word_msg_id == Some(msg_id),
        forall|j: int|
            0 <= j < pre.users_state.len() && j != idx ==> (
            #[trigger] pre.users_state[j]).check_word_msg_id != Some(msg_id),
    ensures
        ({
            let (post, effects) = spec_check_game_status(pre, program_id, msg_id, program_id);
            &&& post.users_state[idx].status == Some(UserStatus::Timeout)
            &&& post.users_state[idx].check_word_msg_id is None
            &&& forall|j: int|
                0 <= j < pre.users_state.len() && j != idx ==> post.users_state[j]
                    == pre.users_state[j]
            &&& effects == seq![
                EffectView::Notify {
                    to: pre.users_state[idx].user,
                    event: GameSessionEventView::GameTimeout,
                },
            ]
        }),
{
    crate::store::lemma_find_token_unique(pre.users_state, msg_id, idx);
}

/// A timeout delivery that is not self-addressed, or whose id no session
/// holds as its armed token (a stale delivery racing a finished game), is a
/// harmless no-op: no state change, no message.
pub proof fn law_stale_or_foreign_timeout_is_noop(
    pre: SessionView,
    source: ActorId,
    msg_id: MessageId,
    program_id: ActorId,
)
    requires
        source != program_id || find_token_spec(pre.users_state, msg_id) is None,
    ensures
        spec_check_game_status(pre, source, msg_id, program_id).0 == pre,
        spec_check_game_status(pre, source, msg_id, program_id).1 == Seq::<EffectView>::empty(),
{
    lemma_find_token_spec(pre.users_state, msg_id);
}

/// One complete guess cycle: the user's `CheckWord` is parked on an oracle
/// request with the fresh id `out_id`, the oracle answers with the position
/// lists `cp` and `cw`, and the parked command resumes and settles.
pub open spec fn guess_round(
    pre: SessionView,
    source: ActorId,
    msg_id: MessageId,
    out_id: MessageId,
    word: Seq<char>,
    cp: Seq<u8>,
    cw: Seq<u8>,
) -> (SessionView, Result<Seq<EffectView>, GameError>) {
    let s1 = spec_check_word(pre, source, msg_id, word, out_id).0;
    let reply = (WordleEventView::WordChecked {
        user: source,
        correct_positions: cp,
        contained_in_word: cw,
    });
    let s2 = spec_handle_reply(s1, out_id, reply).0;
    spec_check_word(s2, source, msg_id, word, out_id)
}

/// The inputs of one guess round that the state machine accepts: a word of
/// the right length, fully lowercase, and an oracle request id no session of
/// `s` is already waiting on.
pub open spec fn round_accepted(s: SessionView, out_id: MessageId, word: Seq<char>) -> bool {
    &&& word.len() == WORD_LENGTH as nat
    &&& is_fully_lowercase(word)
    &&& forall|j: int|
        0 <= j < s.users_state.len() ==> (
        #[trigger] s.users_state[j]).wait_msg_id_game_session_to_wordle != Some(out_id)
}

/// An incorrect guess burns exactly one attempt: a complete round whose
/// oracle reply reports fewer than all positions correct leaves every other
/// record untouched, decrements `attempts_remaining` by exactly one, and
/// ends the game with `Lose` exactly when the budget hits zero; otherwise
/// the game keeps running and the user is told the position lists.
pub proof fn law_incorrect_guess_burns_one_attempt(
    pre: SessionView,
    idx: int,
    source: ActorId,
    msg_id: MessageId,
    out_id: MessageId,
    word: Seq<char>,
    cp: Seq<u8>,
    cw: Seq<u8>,
)
    requires
        session_wf(pre),
        find_user_spec(pre.users_state, source) == Some(idx),
        pre.users_state[idx].status == Some(UserStatus::Running),
        pre.users_state[idx].wait_msg_id_game_session_to_wordle is None,
        round_accepted(pre, out_id, word),
        cp.len() != WORD_LENGTH as nat,
    ensures
        ({
            let (post, r) = guess_round(pre, source, msg_id, out_id, word, cp, cw);
            let st = pre.users_state[idx];
            &&& session_wf(post)
            &&& post.wordle_actor == pre.wordle_actor
            &&& post.users_state.len() == pre.users_state.len()
            &&& find_user_spec(post.users_state, source) == Some(idx)
            &&& forall|j: int|
                0 <= j < pre.users_state.len() && j != idx ==> post.users_state[j]
                    == pre.users_state[j]
            &&& post.users_state[idx].user == source
            &&& post.users_state[idx].wait_msg_id_game_session_to_wordle is None
            &&& post.users_state[idx].wait_msg_id_user_to_game_session is None
            &&& post.users_state[idx].check_word_msg_id == st.check_word_msg_id
            &&& post.users_state[idx].attempts_remaining == st.attempts_remaining - 1
            &&& post.users_state[idx].status == (if st.attempts_remaining == 1 {
                Some(UserStatus::Lose)
            } else {
                Some(UserStatus::Running)
            })
            &&& r == Ok::<Seq<EffectView>, GameError>(
                if st.attempts_remaining == 1 {
                    seq![
                        EffectView::Reply {
                            event: GameSessionEventView::GameOver { status: GameOverStatus::Lose },
                        },
                    ]
                } else {
                    seq![
                        EffectView::Reply {
                            event: GameSessionEventView::WordChecked {
                                correct_positions: cp,
                                contained_in_word: cw,
                            },
                        },
                    ]
                },
            )
        }),
{
    lemma_find_user_spec(pre.users_state, source);
    assert(user_wf(pre.users_state[idx]));
    lemma_guess_round_shape(pre, idx, source, msg_id, out_id, word, cp, cw);
}

/// A fully correct guess (all positions correct) always yields `Win`,
/// whatever `attempts_remaining` is, and the budget is not touched.
pub proof fn law_correct_guess_wins(
    pre: SessionView,
    idx: int,
    source: ActorId,
    msg_id: MessageId,
    out_id: MessageId,
    word: Seq<char>,
    cp: Seq<u8>,
    cw: Seq<u8>,
)
    requires
        session_wf(pre),
        find_user_spec(pre.users_state, source) == Some(idx),
        pre.users_state[idx].status == Some(UserStatus::Running),
        pre.users_state[idx].wait_msg_id_game_session_to_wordle is None,
        round_accepted(pre, out_id, word),
        cp.len() == WORD_LENGTH as nat,
    ensures
        ({
            let (post, r) = guess_round(pre, source, msg_id, out_id, word, cp, cw);
            &&& session_wf(post)
            &&& post.users_state[idx].status == Some(UserStatus::Win)
            &&& post.users_state[idx].attempts_remaining == pre.users_state[
                idx
            ].attempts_remaining
            &&& r == Ok::<Seq<EffectView>, GameError>(
                seq![
                    EffectView::Reply {
                        event: GameSessionEventView::GameOver { status: GameOverStatus::Win },
                    },
                ],
            )
        }),
{
    lemma_find_user_spec(pre.users_state, source);
    assert(user_wf(pre.users_state[idx]));
    lemma_guess_round_shape(pre, idx, source, msg_id, out_id, word, cp, cw);
}

/// The shared shape of one accepted guess round: the first half parks the
/// session, the oracle's reply is cached and wakes it, and the resumed half
/// settles it according to the reply.
proof fn lemma_guess_round_shape(
    pre: SessionView,
    idx: int,
    source: ActorId,
    msg_id: MessageId,
    out_id: MessageId,
    word: Seq<char>,
    cp: Seq<u8>,
    cw: Seq<u8>,
)
    requires
        session_wf(pre),
        find_user_spec(pre.users_state, source) == Some(idx),
        pre.users_state[idx].status == Some(UserStatus::Running),
        pre.users_state[idx].wait_msg_id_game_session_to_wordle is None,
        round_accepted(pre, out_id, word),
    ensures
        ({
            let (post, r) = guess_round(pre, source, msg_id, out_id, word, cp, cw);
            let st = pre.users_state[idx];
            let reply = (WordleEventView::WordChecked {
                user: source,
                correct_positions: cp,
                contained_in_word: cw,
            });
            let parked = cached_record(guess_pending_record(st, msg_id, out_id), reply);
            let settled = if cp.len() == WORD_LENGTH as nat {
                settled_record(parked, UserStatus::Win, st.attempts_remaining)
            } else if st.attempts_remaining == 1 {
                settled_record(parked, UserStatus::Lose, 0)
            } else {
                missed_record(parked)
            };
            &&& session_wf(post)
            &&& post.wordle_actor == pre.wordle_actor
            &&& post.users_state =~= pre.users_state.update(idx, settled)
            &&& find_user_spec(post.users_state, source) == Some(idx)
            &&& r == Ok::<Seq<EffectView>, GameError>(
                if cp.len() == WORD_LENGTH as nat {
                    seq![
                        EffectView::Reply {
                            event: GameSessionEventView::GameOver { status: GameOverStatus::Win },
                        },
                    ]
                } else if st.attempts_remaining == 1 {
                    seq![
                        EffectView::Reply {
                            event: GameSessionEventView::GameOver { status: GameOverStatus::Lose },
                        },
                    ]
                } else {
                    seq![
                        EffectView::Reply {
                            event: GameSessionEventView::WordChecked {
                                correct_positions: cp,
                                contained_in_word: cw,
                            },
                        },
                    ]
                },
            )
        }),
{
    let st = pre.users_state[idx];
    lemma_find_user_spec(pre.users_state, source);
    assert(st.user == source);
    assert(user_wf(st));

    // First half: the guess is parked.
    lemma_check_word_wf(pre, source, msg_id, word, out_id);
    let s1 = spec_check_word(pre, source, msg_id, word, out_id).0;
    let pend = guess_pending_record(st, msg_id, out_id);
    assert(s1.users_state == pre.users_state.update(idx, pend));
    assert forall|j: int|
        0 <= j < s1.users_state.len() && j != idx implies (
    #[trigger] s1.users_state[j]).user != source by {
        assert(pre.users_state[j].user != pre.users_state[idx].user);
    }
    lemma_find_user_unique(s1.users_state, source, idx);
    lemma_find_waiting_unique(s1.users_state, out_id, idx);

    // The oracle's reply is cached on the parked session.
    let reply = (WordleEventView::WordChecked {
        user: source,
        correct_positions: cp,
        contained_in_word: cw,
    });
    lemma_handle_reply_wf(s1, out_id, reply);
    let s2 = spec_handle_reply(s1, out_id, reply).0;
    let parked = cached_record(pend, reply);
    assert(s2.users_state == s1.users_state.update(idx, parked));
    assert(s2.users_state =~= pre.users_state.update(idx, parked));
    assert forall|j: int|
        0 <= j < s2.users_state.len() && j != idx implies (
    #[trigger] s2.users_state[j]).user != source by {
        assert(pre.users_state[j].user != pre.users_state[idx].user);
    }
    lemma_find_user_unique(s2.users_state, source, idx);

    // The resumed half settles the game from the cached reply.
    lemma_check_word_wf(s2, source, msg_id, word, out_id);
    let post = spec_check_word(s2, source, msg_id, word, out_id).0;
    assert forall|j: int|
        0 <= j < post.users_state.len() && j != idx implies (
    #[trigger] post.users_state[j]).user != source by {
        assert(pre.users_state[j].user != pre.users_state[idx].user);
    }
    lemma_find_user_unique(post.users_state, source, idx);
}

/// The inputs of one guess round: the inbound command id, the fresh id for
/// the oracle request, the guessed word, and the position lists the oracle
/// reports back.
pub struct GuessInputs {
    pub msg_id: MessageId,
    pub out_id: MessageId,
    pub word: Seq<char>,
    pub correct_positions: Seq<u8>,
    pub contained_in_word: Seq<u8>,
}

/// The store after the given guess rounds have run, in order.
pub open spec fn after_guess_rounds(
    pre: SessionView,
    source: ActorId,
    rounds: Seq<GuessInputs>,
) -> SessionView
    decreases rounds.len(),
{
    if rounds.len() == 0 {
        pre
    } else {
        let s = after_guess_rounds(pre, source, rounds.drop_last());
        let g = rounds.last();
        guess_round(
            s,
            source,
            g.msg_id,
            g.out_id,
            g.word,
            g.correct_positions,
            g.contained_in_word,
        ).0
    }
}

/// A round whose inputs the machine accepts in the store it runs in, and
/// whose oracle reply reports fewer than all positions correct.
pub open spec fn incorrect_round_accepted(s: SessionView, g: GuessInputs) -> bool {
    &&& round_accepted(s, g.out_id, g.word)
    &&& g.correct_positions.len() != WORD_LENGTH as nat
}

/// Starting from a freshly started game, `attempts_remaining` after `n`
/// incorrect guesses equals `MAX_ATTEMPTS - n`, the game is still `Running`
/// for `n < MAX_ATTEMPTS`, and it reaches `Lose` exactly at
/// `n == MAX_ATTEMPTS`.
pub proof fn law_attempts_after_incorrect_guesses(
    pre: SessionView,
    idx: int,
    source: ActorId,
    rounds: Seq<GuessInputs>,
)
    requires
        session_wf(pre),
        find_user_spec(pre.users_state, source) == Some(idx),
        pre.users_state[idx].status == Some(UserStatus::Running),
        pre.users_state[idx].wait_msg_id_game_session_to_wordle is None,
        pre.users_state[idx].attempts_remaining == MAX_ATTEMPTS,
        rounds.len() <= MAX_ATTEMPTS,
        forall|k: int|
            0 <= k < rounds.len() ==> incorrect_round_accepted(
                #[trigger] after_guess_rounds(pre, source, rounds.take(k)),
                rounds[k],
            ),
    ensures
        ({
            let post = after_guess_rounds(pre, source, rounds);
            &&& session_wf(post)
            &&& find_user_spec(post.users_state, source) == Some(idx)
            &&& post.users_state[idx].wait_msg_id_game_session_to_wordle is None
            &&& post.users_state[idx].attempts_remaining == MAX_ATTEMPTS - rounds.len()
            &&& post.users_state[idx].status == (if rounds.len() == MAX_ATTEMPTS {
                Some(UserStatus::Lose)
            } else {
                Some(UserStatus::Running)
            })
        }),
    decreases rounds.len(),
{
    lemma_find_user_spec(pre.users_state, source);
    if rounds.len() == 0 {
    } else {
        let prev = rounds.drop_last();
        assert forall|k: int|
            0 <= k < prev.len() implies incorrect_round_accepted(
            #[trigger] after_guess_rounds(pre, source, prev.take(k)),
            prev[k],
        ) by {
            assert(prev.take(k) =~= rounds.take(k));
            assert(prev[k] == rounds[k]);
        }
        law_attempts_after_incorrect_guesses(pre, idx, source, prev);
        let s = after_guess_rounds(pre, source, prev);
        let g = rounds.last();
        assert(prev =~= rounds.take(rounds.len() - 1));
        assert(incorrect_round_accepted(s, g));
        law_incorrect_guess_burns_one_attempt(
            s,
            idx,
            source,
            g.msg_id,
            g.out_id,
            g.word,
            g.correct_positions,
            g.contained_in_word,
        );
    }
}

/// A game whose start has resumed but which then sees no further activity
/// is ended by its own armed schedule: when the delayed self-message whose
/// id is the freshly armed token arrives, the game transitions to `Timeout`
/// and its user is notified exactly once.
pub proof fn law_unanswered_game_times_out(
    pre: SessionView,
    idx: int,
    source: ActorId,
    msg_id: MessageId,
    fresh_id: MessageId,
    program_id: ActorId,
)
    requires
        session_wf(pre),
        find_user_spec(pre.users_state, source) == Some(idx),
        pre.users_state[idx].wait_msg_id_game_session_to_wordle is Some,
        forall|j: int|
            0 <= j < pre.users_state.len() ==> (#[trigger] pre.users_state[j]).check_word_msg_id
                != Some(fresh_id),
    ensures
        ({
            let started = spec_start_game(pre, source, msg_id, fresh_id).0;
            let (post, effects) = spec_check_game_status(started, program_id, fresh_id, program_id);
            &&& session_wf(post)
            &&& post.users_state[idx].status == Some(UserStatus::Timeout)
            &&& post.users_state[idx].check_word_msg_id is None
            &&& effects == seq![
                EffectView::Notify { to: source, event: GameSessionEventView::GameTimeout },
            ]
        }),
{
    lemma_find_user_spec(pre.users_state, source);
    lemma_start_game_wf(pre, source, msg_id, fresh_id);
    let st = pre.users_state[idx];
    let started = spec_start_game(pre, source, msg_id, fresh_id).0;
    assert(started.users_state == pre.users_state.update(idx, running_record(st, fresh_id)));
    assert forall|j: int|
        0 <= j < started.users_state.len() && j != idx implies (
    #[trigger] started.users_state[j]).check_word_msg_id != Some(fresh_id) by {
        assert(started.users_state[j] == pre.users_state[j]);
    }
    law_timeout_fires_once(started, idx, fresh_id, program_id);
    crate::machine::lemma_check_game_status_wf(started, program_id, fresh_id, program_id);
}

} // verus!
