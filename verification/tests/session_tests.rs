//! End-to-end tests: a miniature message-passing runtime drives the
//! library's handlers, performing the effects they request (sends, parking,
//! wakes, delayed self-messages) and playing the oracle's part.

use game_session::msgs::Effect;
use game_session::msgs::GameError;
use game_session::msgs::GameOverStatus;
use game_session::msgs::GameSessionAction;
use game_session::msgs::GameSessionEvent;
use game_session::msgs::WordleEvent;
use game_session::msgs::MAX_ATTEMPTS;
use game_session::msgs::TIMEOUT;
use game_session::session::handle;
use game_session::session::handle_reply;
use game_session::session::init;
use game_session::session::start_game_action;
use game_session::session::state;
use game_session::store::GameSession;
use game_session::store::UserState;

const USER: u64 = 3;
const OTHER_USER: u64 = 4;
const PROGRAM_ID: u64 = 100;
const WORDLE_ID: u64 = 200;

/// A miniature runtime: assigns message ids, parks and wakes commands,
/// tracks delayed self-messages, and collects replies and notifications.
struct Runtime {
    gs: GameSession,
    next_id: u64,
    now: u32,
    /// Delayed self-addressed messages: (message id, due time).
    scheduled: Vec<(u64, u32)>,
    /// Parked inbound commands: (message id, source, action).
    parked: Vec<(u64, u64, GameSessionAction)>,
    /// Notifications sent to users: (destination, event).
    mailbox: Vec<(u64, GameSessionEvent)>,
    /// Replies to inbound commands: (destination, event).
    replies: Vec<(u64, GameSessionEvent)>,
}

impl Runtime {
    fn new(wordle_actor: u64) -> Self {
        Runtime {
            gs: init(wordle_actor),
            next_id: 1,
            now: 0,
            scheduled: Vec::new(),
            parked: Vec::new(),
            mailbox: Vec::new(),
            replies: Vec::new(),
        }
    }

    fn fresh_id(&mut self) -> u64 {
        let id = self.next_id;
        self.next_id += 1;
        id
    }

    /// Deliver one inbound command and perform the returned effects.  The
    /// oracle answers an outbound request with `oracle_reply`, if given;
    /// otherwise the command stays parked.
    fn send(
        &mut self,
        source: u64,
        action: GameSessionAction,
        oracle_reply: Option<WordleEvent>,
    ) -> Result<(), GameError> {
        let msg_id = self.fresh_id();
        self.deliver(source, msg_id, action, oracle_reply)
    }

    fn deliver(
        &mut self,
        source: u64,
        msg_id: u64,
        action: GameSessionAction,
        oracle_reply: Option<WordleEvent>,
    ) -> Result<(), GameError> {
        let fresh_id = self.fresh_id();
        let effects = handle(
            &mut self.gs,
            source,
            msg_id,
            PROGRAM_ID,
            fresh_id,
            action.clone(),
        )?;
        let mut outbound: Option<u64> = None;
        for effect in effects {
            match effect {
                Effect::SendToWordle { message_id, action: _ } => {
                    outbound = Some(message_id);
                }
                Effect::Wait => {
                    self.parked.push((msg_id, source, action.clone()));
                }
                Effect::Reply { event } => {
                    self.replies.push((source, event));
                }
                Effect::ScheduleTimeout { message_id, delay } => {
                    self.scheduled.push((message_id, self.now + delay));
                }
                Effect::Notify { to, event } => {
                    self.mailbox.push((to, event));
                }
                Effect::Wake { message_id } => {
                    panic!("an inbound command never wakes another: {message_id}");
                }
            }
        }
        if let (Some(request_id), Some(reply)) = (outbound, oracle_reply) {
            self.oracle_replies(request_id, reply)?;
        }
        Ok(())
    }

    /// The oracle answers the outbound request `request_id`: route the reply
    /// and resume whatever command it wakes.
    fn oracle_replies(&mut self, request_id: u64, reply: WordleEvent) -> Result<(), GameError> {
        let effects = handle_reply(&mut self.gs, request_id, reply);
        for effect in effects {
            match effect {
                Effect::Wake { message_id } => {
                    let pos = self
                        .parked
                        .iter()
                        .position(|(id, _, _)| *id == message_id)
                        .expect("woke a message that is not parked");
                    let (msg_id, source, action) = self.parked.remove(pos);
                    self.deliver(source, msg_id, action, None)?;
                }
                other => panic!("routing a reply only wakes: {other:?}"),
            }
        }
        Ok(())
    }

    /// Advance time, delivering every due delayed self-message.
    fn run_to(&mut self, t: u32) {
        self.now = t;
        let due: Vec<u64> = self
            .scheduled
            .iter()
            .filter(|(_, when)| *when <= t)
            .map(|(id, _)| *id)
            .collect();
        self.scheduled.retain(|(_, when)| *when > t);
        for id in due {
            self.deliver(PROGRAM_ID, id, GameSessionAction::CheckGameStatus, None)
                .expect("timeout delivery never fails");
        }
    }

    /// Start a game for `source` and run it to the `GameStarted` reply.
    fn start_game(&mut self, source: u64) {
        self.send(
            source,
            GameSessionAction::StartGame,
            Some(WordleEvent::GameStarted { user: source }),
        )
        .expect("starting a fresh game succeeds");
    }

    /// Send one guess and have the oracle report the given position lists.
    fn guess(
        &mut self,
        source: u64,
        word: &str,
        correct_positions: Vec<u8>,
        contained_in_word: Vec<u8>,
    ) -> Result<(), GameError> {
        self.send(
            source,
            GameSessionAction::CheckWord {
                word: word.to_string(),
            },
            Some(WordleEvent::WordChecked {
                user: source,
                correct_positions,
                contained_in_word,
            }),
        )
    }

    fn last_reply_to(&self, dest: u64) -> &GameSessionEvent {
        let (_, event) = self
            .replies
            .iter()
            .rev()
            .find(|(to, _)| *to == dest)
            .expect("no reply for this user");
        event
    }

    fn record(&self, user: u64) -> &UserState {
        state(&self.gs)
            .users_state
            .iter()
            .find(|st| st.user == user)
            .expect("no record for this user")
    }
}

#[test]
fn receives_and_store_the_wordle_programs_address() {
    let rt = Runtime::new(WORDLE_ID);
    assert!(state(&rt.gs).wordle_actor == WORDLE_ID);
}

#[test]
fn a_reply_is_sent_to_notify_the_user_that_the_game_has_beeen_successfully_started() {
    let mut rt = Runtime::new(WORDLE_ID);
    rt.start_game(USER);
    assert!(rt.replies.contains(&(USER, GameSessionEvent::GameStarted)));
}

#[test]
fn the_program_checks_if_a_game_already_exist_for_the_user() {
    let mut rt = Runtime::new(WORDLE_ID);
    rt.start_game(USER);
    let result = rt.send(USER, GameSessionAction::StartGame, None);
    assert_eq!(result, Err(GameError::GameAlreadyStarted));
}

#[test]
fn game_will_timeout_if_the_user_does_not_respond_in_time() {
    let mut rt = Runtime::new(WORDLE_ID);
    rt.start_game(USER);
    let now = rt.now;
    rt.run_to(now + TIMEOUT);
    assert!(rt.mailbox.contains(&(USER, GameSessionEvent::GameTimeout)));
}

#[test]
fn game_can_restart_after_timeout() {
    let mut rt = Runtime::new(WORDLE_ID);
    rt.start_game(USER);
    let now = rt.now;
    rt.run_to(now + TIMEOUT);
    assert!(rt.mailbox.contains(&(USER, GameSessionEvent::GameTimeout)));

    let result = rt.send(
        USER,
        GameSessionAction::StartGame,
        Some(WordleEvent::GameStarted { user: USER }),
    );
    assert!(result.is_ok());
    assert_eq!(*rt.last_reply_to(USER), GameSessionEvent::GameStarted);
}

#[test]
fn ensure_game_exist() {
    let mut rt = Runtime::new(WORDLE_ID);
    let result = rt.send(
        USER,
        GameSessionAction::CheckWord {
            word: "aaaa".to_string(),
        },
        None,
    );
    assert_eq!(result, Err(GameError::GameNotExist));
}

#[test]
fn ensure_game_not_in_win_status() {
    let mut rt = Runtime::new(WORDLE_ID);
    rt.start_game(USER);
    rt.guess(USER, "aaaaa", vec![0, 1, 2, 3, 4], vec![])
        .expect("a winning guess succeeds");
    assert_eq!(
        *rt.last_reply_to(USER),
        GameSessionEvent::GameOver {
            status: GameOverStatus::Win
        }
    );
    let result = rt.guess(USER, "aaaaa", vec![], vec![]);
    assert_eq!(result, Err(GameError::GameIsOver));
}

#[test]
fn ensure_game_not_in_lose_status() {
    let mut rt = Runtime::new(WORDLE_ID);
    rt.start_game(USER);
    for _ in 0..MAX_ATTEMPTS {
        rt.guess(USER, "aaaaa", vec![], vec![])
            .expect("a guess with attempts left succeeds");
    }
    assert_eq!(
        *rt.last_reply_to(USER),
        GameSessionEvent::GameOver {
            status: GameOverStatus::Lose
        }
    );
    let result = rt.guess(USER, "aaaaa", vec![], vec![]);
    assert_eq!(result, Err(GameError::GameIsOver));
}

#[test]
fn ensure_game_not_in_timeout_status() {
    let mut rt = Runtime::new(WORDLE_ID);
    rt.start_game(USER);
    let now = rt.now;
    rt.run_to(now + TIMEOUT);
    let result = rt.send(
        USER,
        GameSessionAction::CheckWord {
            word: "aaaa".to_string(),
        },
        None,
    );
    assert_eq!(result, Err(GameError::GameIsOver));
}

#[test]
fn word_length_must_be_word_length() {
    let mut rt = Runtime::new(WORDLE_ID);
    rt.start_game(USER);
    let result = rt.send(
        USER,
        GameSessionAction::CheckWord {
            word: "aaaa".to_string(),
        },
        None,
    );
    assert_eq!(result, Err(GameError::WrongWordLength));
}

#[test]
fn word_must_be_lowercase() {
    let mut rt = Runtime::new(WORDLE_ID);
    rt.start_game(USER);
    let result = rt.send(
        USER,
        GameSessionAction::CheckWord {
            word: "AAAAA".to_string(),
        },
        None,
    );
    assert_eq!(result, Err(GameError::WordNotLowercase));
}

#[test]
fn check_word_return_workd_checked_event() {
    let mut rt = Runtime::new(WORDLE_ID);
    rt.start_game(USER);
    rt.guess(USER, "aaaaa", vec![], vec![])
        .expect("a guess with attempts left succeeds");
    assert!(matches!(
        rt.last_reply_to(USER),
        GameSessionEvent::WordChecked { .. }
    ));
}

#[test]
fn check_word_return_game_over_win_event() {
    let mut rt = Runtime::new(WORDLE_ID);
    rt.start_game(USER);
    rt.guess(USER, "apple", vec![0, 1, 2, 3, 4], vec![])
        .expect("a winning guess succeeds");
    assert_eq!(
        *rt.last_reply_to(USER),
        GameSessionEvent::GameOver {
            status: GameOverStatus::Win
        }
    );
}

#[test]
fn check_word_return_game_over_lose_event() {
    let mut rt = Runtime::new(WORDLE_ID);
    rt.start_game(USER);
    for _ in 0..MAX_ATTEMPTS {
        rt.guess(USER, "aaaaa", vec![], vec![])
            .expect("a guess with attempts left succeeds");
    }
    assert_eq!(
        *rt.last_reply_to(USER),
        GameSessionEvent::GameOver {
            status: GameOverStatus::Lose
        }
    );
}

#[test]
fn init_state_shows_oracle_address_and_no_sessions() {
    let rt = Runtime::new(WORDLE_ID);
    let snapshot = state(&rt.gs);
    assert_eq!(snapshot.wordle_actor, WORDLE_ID);
    assert!(snapshot.users_state.is_empty());
}

#[test]
fn started_game_has_full_attempt_budget() {
    let mut rt = Runtime::new(WORDLE_ID);
    rt.start_game(USER);
    assert_eq!(*rt.last_reply_to(USER), GameSessionEvent::GameStarted);
    let record = rt.record(USER);
    assert_eq!(record.attempts_remaining, MAX_ATTEMPTS);
    assert_eq!(
        record.status,
        Some(game_session::msgs::UserStatus::Running)
    );
}

#[test]
fn attempts_decrease_by_one_per_incorrect_guess() {
    let mut rt = Runtime::new(WORDLE_ID);
    rt.start_game(USER);
    for n in 1..MAX_ATTEMPTS {
        rt.guess(USER, "aaaaa", vec![], vec![1])
            .expect("a guess with attempts left succeeds");
        assert_eq!(rt.record(USER).attempts_remaining, MAX_ATTEMPTS - n);
        assert_eq!(
            rt.record(USER).status,
            Some(game_session::msgs::UserStatus::Running)
        );
    }
    rt.guess(USER, "aaaaa", vec![], vec![1])
        .expect("the last guess still succeeds");
    assert_eq!(rt.record(USER).attempts_remaining, 0);
    assert_eq!(
        rt.record(USER).status,
        Some(game_session::msgs::UserStatus::Lose)
    );
}

#[test]
fn correct_guess_wins_even_on_last_attempt() {
    let mut rt = Runtime::new(WORDLE_ID);
    rt.start_game(USER);
    for _ in 0..MAX_ATTEMPTS - 1 {
        rt.guess(USER, "aaaaa", vec![], vec![])
            .expect("a guess with attempts left succeeds");
    }
    assert_eq!(rt.record(USER).attempts_remaining, 1);
    rt.guess(USER, "apple", vec![0, 1, 2, 3, 4], vec![])
        .expect("a winning guess succeeds");
    assert_eq!(
        *rt.last_reply_to(USER),
        GameSessionEvent::GameOver {
            status: GameOverStatus::Win
        }
    );
}

#[test]
fn restart_after_win_resets_budget_and_status() {
    let mut rt = Runtime::new(WORDLE_ID);
    rt.start_game(USER);
    rt.guess(USER, "apple", vec![0, 1, 2, 3, 4], vec![])
        .expect("a winning guess succeeds");
    rt.guess(USER, "zzzzz", vec![], vec![])
        .expect_err("the finished game rejects guesses");

    rt.start_game(USER);
    let record = rt.record(USER);
    assert_eq!(record.attempts_remaining, MAX_ATTEMPTS);
    assert_eq!(
        record.status,
        Some(game_session::msgs::UserStatus::Running)
    );
}

#[test]
fn rejected_start_leaves_state_unchanged() {
    let mut rt = Runtime::new(WORDLE_ID);
    rt.start_game(USER);
    rt.guess(USER, "aaaaa", vec![], vec![])
        .expect("a guess with attempts left succeeds");
    let before = state(&rt.gs).clone();
    let result = rt.send(USER, GameSessionAction::StartGame, None);
    assert_eq!(result, Err(GameError::GameAlreadyStarted));
    assert_eq!(*state(&rt.gs), before);
}

#[test]
fn uppercase_guess_aborts_without_state_change() {
    let mut rt = Runtime::new(WORDLE_ID);
    rt.start_game(USER);
    let before = state(&rt.gs).clone();
    let result = rt.send(
        USER,
        GameSessionAction::CheckWord {
            word: "AAAAA".to_string(),
        },
        None,
    );
    assert_eq!(result, Err(GameError::WordNotLowercase));
    assert_eq!(*state(&rt.gs), before);
}

#[test]
fn game_started_reply_precedes_timeout_arming() {
    let mut rt = Runtime::new(WORDLE_ID);
    // First half: the start parks awaiting the oracle.
    let msg_id = 500;
    let out_id = 501;
    let effects =
        start_game_action(&mut rt.gs, USER, msg_id, out_id).expect("the first half succeeds");
    assert!(matches!(effects[0], Effect::SendToWordle { .. }));
    assert!(matches!(effects[1], Effect::Wait));
    // The oracle acknowledges; the resumed half replies before arming.
    handle_reply(
        &mut rt.gs,
        out_id,
        WordleEvent::GameStarted { user: USER },
    );
    let timeout_id = 502;
    let effects =
        start_game_action(&mut rt.gs, USER, msg_id, timeout_id).expect("the resumed half succeeds");
    assert_eq!(
        effects[0],
        Effect::Reply {
            event: GameSessionEvent::GameStarted
        }
    );
    assert_eq!(
        effects[1],
        Effect::ScheduleTimeout {
            message_id: timeout_id,
            delay: TIMEOUT
        }
    );
}

#[test]
fn timeout_notifies_exactly_once() {
    let mut rt = Runtime::new(WORDLE_ID);
    rt.start_game(USER);
    let now = rt.now;
    rt.run_to(now + TIMEOUT);
    let notifications = rt
        .mailbox
        .iter()
        .filter(|(to, ev)| *to == USER && *ev == GameSessionEvent::GameTimeout)
        .count();
    assert_eq!(notifications, 1);
    assert_eq!(
        rt.record(USER).status,
        Some(game_session::msgs::UserStatus::Timeout)
    );
    assert_eq!(rt.record(USER).check_word_msg_id, None);
}

#[test]
fn stale_timeout_after_restart_is_a_noop() {
    let mut rt = Runtime::new(WORDLE_ID);
    rt.start_game(USER);
    let stale_id = rt.record(USER).check_word_msg_id.unwrap();
    rt.guess(USER, "apple", vec![0, 1, 2, 3, 4], vec![])
        .expect("a winning guess succeeds");
    // A new game replaces the record; the old schedule's token is gone.
    rt.start_game(USER);
    assert_ne!(Some(stale_id), rt.record(USER).check_word_msg_id);
    let before = state(&rt.gs).clone();
    rt.deliver(
        PROGRAM_ID,
        stale_id,
        GameSessionAction::CheckGameStatus,
        None,
    )
    .expect("a stale timeout delivery never fails");
    assert_eq!(*state(&rt.gs), before);
    assert!(rt.mailbox.is_empty());
}

#[test]
fn forged_timeout_from_a_user_is_ignored() {
    let mut rt = Runtime::new(WORDLE_ID);
    rt.start_game(USER);
    let before = state(&rt.gs).clone();
    let token = rt.record(USER).check_word_msg_id.unwrap();
    // A third party delivers the action with the armed token's id.
    rt.deliver(USER, token, GameSessionAction::CheckGameStatus, None)
        .expect("a foreign delivery is swallowed");
    assert_eq!(*state(&rt.gs), before);
    assert!(rt.mailbox.is_empty());
}

#[test]
fn guess_before_start_completes_is_rejected() {
    let mut rt = Runtime::new(WORDLE_ID);
    // Park the start: the oracle has not answered yet.
    rt.send(USER, GameSessionAction::StartGame, None)
        .expect("the first half parks without failing");
    let result = rt.send(
        USER,
        GameSessionAction::CheckWord {
            word: "aaaaa".to_string(),
        },
        None,
    );
    assert_eq!(result, Err(GameError::GameNotStarted));
}

#[test]
fn wrong_shaped_wakeup_aborts_the_resumed_guess() {
    let mut rt = Runtime::new(WORDLE_ID);
    rt.start_game(USER);
    // The guess parks; the oracle then breaks its contract and answers the
    // request with a start acknowledgement instead of a word check.
    let result = rt.send(
        USER,
        GameSessionAction::CheckWord {
            word: "aaaaa".to_string(),
        },
        Some(WordleEvent::GameStarted { user: USER }),
    );
    assert_eq!(result, Err(GameError::InvalidWakeup));
}

#[test]
fn orphaned_oracle_reply_is_discarded() {
    let mut rt = Runtime::new(WORDLE_ID);
    rt.start_game(USER);
    let before = state(&rt.gs).clone();
    let effects = handle_reply(
        &mut rt.gs,
        9999,
        WordleEvent::GameStarted { user: USER },
    );
    assert!(effects.is_empty());
    assert_eq!(*state(&rt.gs), before);
}

#[test]
fn users_play_isolated_games() {
    let mut rt = Runtime::new(WORDLE_ID);
    rt.start_game(USER);
    rt.start_game(OTHER_USER);
    assert_eq!(state(&rt.gs).users_state.len(), 2);

    for _ in 0..MAX_ATTEMPTS {
        rt.guess(USER, "aaaaa", vec![], vec![])
            .expect("a guess with attempts left succeeds");
    }
    assert_eq!(
        rt.record(USER).status,
        Some(game_session::msgs::UserStatus::Lose)
    );
    // The other user's game is untouched.
    assert_eq!(
        rt.record(OTHER_USER).status,
        Some(game_session::msgs::UserStatus::Running)
    );
    assert_eq!(rt.record(OTHER_USER).attempts_remaining, MAX_ATTEMPTS);

    rt.guess(OTHER_USER, "apple", vec![0, 1, 2, 3, 4], vec![])
        .expect("the other user's winning guess succeeds");
    assert_eq!(
        *rt.last_reply_to(OTHER_USER),
        GameSessionEvent::GameOver {
            status: GameOverStatus::Win
        }
    );
}

#[test]
fn word_checked_reply_carries_the_oracle_position_lists() {
    let mut rt = Runtime::new(WORDLE_ID);
    rt.start_game(USER);
    rt.guess(USER, "aaaaa", vec![2], vec![0, 4])
        .expect("a guess with attempts left succeeds");
    assert_eq!(
        *rt.last_reply_to(USER),
        GameSessionEvent::WordChecked {
            correct_positions: vec![2],
            contained_in_word: vec![0, 4],
        }
    );
}
