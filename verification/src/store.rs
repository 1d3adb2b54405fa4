//! The session store: the oracle's address plus one record per user, and the
//! well-formedness invariant every handler preserves.

use vstd::prelude::*;

use crate::msgs::ActorId;
use crate::msgs::MessageId;
use crate::msgs::UserStatus;
use crate::msgs::WordleEvent;
use crate::msgs::WordleEventView;
use crate::msgs::MAX_ATTEMPTS;

verus! {

/// One user's session record.
///
/// A record is created by the user's first `StartGame`, mutated in place
/// across start/guess/timeout operations, and never deleted: a terminal game
/// is simply overwritten by the next start.
#[derive(Debug, Clone, PartialEq, Eq)]
pub struct UserState {
    /// The owning caller.
    pub user: ActorId,
    /// `None` only while the very start of a game is parked awaiting the
    /// oracle's acknowledgement.
    pub status: Option<UserStatus>,
    /// Id of the user's inbound command currently parked on this session.
    pub wait_msg_id_user_to_game_session: Option<MessageId>,
    /// Id of the outstanding request sent to the oracle for this session.
    pub wait_msg_id_game_session_to_wordle: Option<MessageId>,
    /// Last oracle reply cached for this session while parked.
    pub wakeup_event: Option<WordleEvent>,
    /// Id of the delayed self-addressed timeout message armed for the
    /// current game.
    pub check_word_msg_id: Option<MessageId>,
    /// Guesses left; reset to [`MAX_ATTEMPTS`] whenever a game starts.
    pub attempts_remaining: u8,
}

/// Spec mirror of [`UserState`].
#[verifier::ext_equal]
pub struct UserStateView {
    pub user: ActorId,
    pub status: Option<UserStatus>,
    pub wait_msg_id_user_to_game_session: Option<MessageId>,
    pub wait_msg_id_game_session_to_wordle: Option<MessageId>,
    pub wakeup_event: Option<WordleEventView>,
    pub check_word_msg_id: Option<MessageId>,
    pub attempts_remaining: u8,
}

impl DeepView for UserState {
    type V = UserStateView;

    open spec fn deep_view(&self) -> UserStateView {
        UserStateView {
            user: self.user,
            status: self.status,
            wait_msg_id_user_to_game_session: self.wait_msg_id_user_to_game_session,
            wait_msg_id_game_session_to_wordle: self.wait_msg_id_game_session_to_wordle,
            wakeup_event: self.wakeup_event.deep_view(),
            check_word_msg_id: self.check_word_msg_id,
            attempts_remaining: self.attempts_remaining,
        }
    }
}

/// The whole session store.
#[derive(Debug, Clone, PartialEq, Eq)]
pub struct GameSession {
    /// Address of the remote oracle, set once at initialization.
    pub wordle_actor: ActorId,
    /// One record per user; insertion order is irrelevant to the logic.
    pub users_state: Vec<UserState>,
}

/// Spec mirror of [`GameSession`].
#[verifier::ext_equal]
pub struct SessionView {
    pub wordle_actor: ActorId,
    pub users_state: Seq<UserStateView>,
}

impl DeepView for GameSession {
    type V = SessionView;

    open spec fn deep_view(&self) -> SessionView {
        SessionView { wordle_actor: self.wordle_actor, users_state: self.users_state.deep_view() }
    }
}

/// Well-formedness of one record.
///
/// A session is either fully idle or fully parked: the two pending ids are
/// both set or both absent.  A record with no pending oracle request always
/// has a status, a status-less record is exactly a parked game start and so
/// still holds the full attempt budget, the budget never exceeds
/// [`MAX_ATTEMPTS`], and a running game always has at least one attempt left
/// (the budget reaching zero is what turns the game into a loss).
pub open spec fn user_wf(st: UserStateView) -> bool {
    &&& st.wait_msg_id_user_to_game_session is Some
        <==> st.wait_msg_id_game_session_to_wordle is Some
    &&& st.wait_msg_id_game_session_to_wordle is None ==> st.status is Some
    &&& st.status is None ==> st.attempts_remaining == MAX_ATTEMPTS
    &&& st.attempts_remaining <= MAX_ATTEMPTS
    &&& st.status == Some(UserStatus::Running) ==> st.attempts_remaining >= 1
    &&& st.wait_msg_id_game_session_to_wordle is Some ==> st.attempts_remaining >= 1
}

/// Well-formedness of the store: at most one record per user, every record
/// well formed.
pub open spec fn session_wf(s: SessionView) -> bool {
    &&& forall|i: int, j: int|
        0 <= i < j < s.users_state.len() ==> (#[trigger] s.users_state[i]).user != (
        #[trigger] s.users_state[j]).user
    &&& forall|i: int| 0 <= i < s.users_state.len() ==> user_wf(#[trigger] s.users_state[i])
}

impl GameSession {
    /// Well-formedness of the executable store.
    pub open spec fn wf(&self) -> bool {
        session_wf(self.deep_view())
    }
}

/// Index of the first record owned by `user`.
pub open spec fn find_user_spec(users: Seq<UserStateView>, user: ActorId) -> Option<int>
    decreases users.len(),
{
    if users.len() == 0 {
        None
    } else if users[0].user == user {
        Some(0)
    } else {
        match find_user_spec(users.skip(1), user) {
            Some(i) => Some(i + 1),
            None => None,
        }
    }
}

/// Index of the first record whose outstanding oracle request is `reply_to`.
pub open spec fn find_waiting_spec(users: Seq<UserStateView>, reply_to: MessageId) -> Option<int>
    decreases users.len(),
{
    if users.len() == 0 {
        None
    } else if users[0].wait_msg_id_game_session_to_wordle == Some(reply_to) {
        Some(0)
    } else {
        match find_waiting_spec(users.skip(1), reply_to) {
            Some(i) => Some(i + 1),
            None => None,
        }
    }
}

/// Index of the first record whose armed timeout token is `msg_id`.
pub open spec fn find_token_spec(users: Seq<UserStateView>, msg_id: MessageId) -> Option<int>
    decreases users.len(),
{
    if users.len() == 0 {
        None
    } else if users[0].check_word_msg_id == Some(msg_id) {
        Some(0)
    } else {
        match find_token_spec(users.skip(1), msg_id) {
            Some(i) => Some(i + 1),
            None => None,
        }
    }
}

/// `find_user_spec` returns the first matching index, or `None` exactly when
/// no record matches.
pub proof fn lemma_find_user_spec(users: Seq<UserStateView>, user: ActorId)
    ensures
        match find_user_spec(users, user) {
            Some(i) => 0 <= i < users.len() && users[i].user == user && forall|j: int|
                0 <= j < i ==> (#[trigger] users[j]).user != user,
            None => forall|j: int| 0 <= j < users.len() ==> (#[trigger] users[j]).user != user,
        },
    decreases users.len(),
{
    if users.len() == 0 {
    } else if users[0].user == user {
    } else {
        lemma_find_user_spec(users.skip(1), user);
        match find_user_spec(users.skip(1), user) {
            Some(i) => {
                assert(users.skip(1)[i] == users[i + 1]);
                assert forall|j: int| 0 <= j < i + 1 implies (#[trigger] users[j]).user != user by {
                    if j > 0 {
                        assert(users.skip(1)[j - 1] == users[j]);
                    }
                }
            },
            None => {
                assert forall|j: int| 0 <= j < users.len() implies (#[trigger] users[j]).user != user by {
                    if j > 0 {
                        assert(users.skip(1)[j - 1] == users[j]);
                    }
                }
            },
        }
    }
}

/// `find_waiting_spec` returns the first matching index, or `None` exactly
/// when no record matches.
pub proof fn lemma_find_waiting_spec(users: Seq<UserStateView>, reply_to: MessageId)
    ensures
        match find_waiting_spec(users, reply_to) {
            Some(i) => 0 <= i < users.len() && users[i].wait_msg_id_game_session_to_wordle
                == Some(reply_to) && forall|j: int|
                0 <= j < i ==> (#[trigger] users[j]).wait_msg_id_game_session_to_wordle != Some(
                    reply_to,
                ),
            None => forall|j: int|
                0 <= j < users.len() ==> (#[trigger] users[j]).wait_msg_id_game_session_to_wordle
                    != Some(reply_to),
        },
    decreases users.len(),
{
    if users.len() == 0 {
    } else if users[0].wait_msg_id_game_session_to_wordle == Some(reply_to) {
    } else {
        lemma_find_waiting_spec(users.skip(1), reply_to);
        match find_waiting_spec(users.skip(1), reply_to) {
            Some(i) => {
                assert(users.skip(1)[i] == users[i + 1]);
                assert forall|j: int| 0 <= j < i + 1 implies (#[trigger] users[j]).wait_msg_id_game_session_to_wordle != Some(reply_to) by {
                    if j > 0 {
                        assert(users.skip(1)[j - 1] == users[j]);
                    }
                }
            },
            None => {
                assert forall|j: int| 0 <= j < users.len() implies (#[trigger] users[j]).wait_msg_id_game_session_to_wordle != Some(reply_to) by {
                    if j > 0 {
                        assert(users.skip(1)[j - 1] == users[j]);
                    }
                }
            },
        }
    }
}

/// `find_token_spec` returns the first matching index, or `None` exactly
/// when no record matches.
pub proof fn lemma_find_token_spec(users: Seq<UserStateView>, msg_id: MessageId)
    ensures
        match find_token_spec(users, msg_id) {
            Some(i) => 0 <= i < users.len() && users[i].check_word_msg_id == Some(msg_id)
                && forall|j: int|
                0 <= j < i ==> (#[trigger] users[j]).check_word_msg_id != Some(msg_id),
            None => forall|j: int|
                0 <= j < users.len() ==> (#[trigger] users[j]).check_word_msg_id != Some(msg_id),
        },
    decreases users.len(),
{
    if users.len() == 0 {
    } else if users[0].check_word_msg_id == Some(msg_id) {
    } else {
        lemma_find_token_spec(users.skip(1), msg_id);
        match find_token_spec(users.skip(1), msg_id) {
            Some(i) => {
                assert(users.skip(1)[i] == users[i + 1]);
                assert forall|j: int| 0 <= j < i + 1 implies (#[trigger] users[j]).check_word_msg_id != Some(msg_id) by {
                    if j > 0 {
                        assert(users.skip(1)[j - 1] == users[j]);
                    }
                }
            },
            None => {
                assert forall|j: int| 0 <= j < users.len() implies (#[trigger] users[j]).check_word_msg_id != Some(msg_id) by {
                    if j > 0 {
                        assert(users.skip(1)[j - 1] == users[j]);
                    }
                }
            },
        }
    }
}

/// Find the first record owned by `user`.
pub fn find_user(users: &Vec<UserState>, user: ActorId) -> (r: Option<usize>)
    ensures
        match r {
            Some(i) => i < users.len() && find_user_spec(users.deep_view(), user) == Some(i as int),
            None => find_user_spec(users.deep_view(), user) is None,
        },
{
    proof {
        lemma_find_user_spec(users.deep_view(), user);
    }
    let n = users.len();
    let mut i: usize = 0;
    while i < n
        invariant
            i <= n,
            n == users.len(),
            users.deep_view().len() == n,
            forall|j: int| 0 <= j < i ==> (#[trigger] users.deep_view()[j]).user != user,
        decreases n - i,
    {
        if users[i].user == user {
            assert(users.deep_view()[i as int].user == user);
            proof { lemma_find_user_spec(users.deep_view(), user); }
            return Some(i);
        }
        assert(users.deep_view()[i as int].user != user);
        i += 1;
    }
    None
}

/// Find the first record whose outstanding oracle request is `reply_to`.
pub fn find_waiting(users: &Vec<UserState>, reply_to: MessageId) -> (r: Option<usize>)
    ensures
        match r {
            Some(i) => i < users.len() && find_waiting_spec(users.deep_view(), reply_to) == Some(
                i as int,
            ),
            None => find_waiting_spec(users.deep_view(), reply_to) is None,
        },
{
    proof {
        lemma_find_waiting_spec(users.deep_view(), reply_to);
    }
    let n = users.len();
    let mut i: usize = 0;
    while i < n
        invariant
            i <= n,
            n == users.len(),
            users.deep_view().len() == n,
            forall|j: int|
                0 <= j < i ==> (#[trigger] users.deep_view()[j]).wait_msg_id_game_session_to_wordle
                    != Some(reply_to),
        decreases n - i,
    {
        let matches_here = match users[i].wait_msg_id_game_session_to_wordle {
            Some(m) => m == reply_to,
            None => false,
        };
        if matches_here {
            assert(users.deep_view()[i as int].wait_msg_id_game_session_to_wordle == Some(
                reply_to,
            ));
            proof { lemma_find_waiting_spec(users.deep_view(), reply_to); }
            return Some(i);
        }
        assert(users.deep_view()[i as int].wait_msg_id_game_session_to_wordle != Some(reply_to));
        i += 1;
    }
    None
}

/// Find the first record whose armed timeout token is `msg_id`.
pub fn find_token(users: &Vec<UserState>, msg_id: MessageId) -> (r: Option<usize>)
    ensures
        match r {
            Some(i) => i < users.len() && find_token_spec(users.deep_view(), msg_id) == Some(
                i as int,
            ),
            None => find_token_spec(users.deep_view(), msg_id) is None,
        },
{
    proof {
        lemma_find_token_spec(users.deep_view(), msg_id);
    }
    let n = users.len();
    let mut i: usize = 0;
    while i < n
        invariant
            i <= n,
            n == users.len(),
            users.deep_view().len() == n,
            forall|j: int|
                0 <= j < i ==> (#[trigger] users.deep_view()[j]).check_word_msg_id != Some(msg_id),
        decreases n - i,
    {
        let matches_here = match users[i].check_word_msg_id {
            Some(m) => m == msg_id,
            None => false,
        };
        if matches_here {
            assert(users.deep_view()[i as int].check_word_msg_id == Some(msg_id));
            proof { lemma_find_token_spec(users.deep_view(), msg_id); }
            return Some(i);
        }
        assert(users.deep_view()[i as int].check_word_msg_id != Some(msg_id));
        i += 1;
    }
    None
}

/// Overwrite the record at index `i`.
pub fn set_user_state(users: &mut Vec<UserState>, i: usize, st: UserState)
    requires
        i < old(users).len(),
    ensures
        final(users).deep_view() == old(users).deep_view().update(i as int, st.deep_view()),
        final(users).len() == old(users).len(),
{
    let _ = users.remove(i);
    users.insert(i, st);
    proof {
        assert(users@ =~= old(users)@.update(i as int, st));
        assert(users.deep_view() =~= old(users).deep_view().update(i as int, st.deep_view()));
    }
}

/// Replacing one record with a well-formed record for the same user keeps
/// the store well formed.
pub proof fn lemma_session_wf_update(s: SessionView, i: int, st2: UserStateView)
    requires
        session_wf(s),
        0 <= i < s.users_state.len(),
        user_wf(st2),
        st2.user == s.users_state[i].user,
    ensures
        session_wf(SessionView { users_state: s.users_state.update(i, st2), ..s }),
{
    let s2 = (SessionView { users_state: s.users_state.update(i, st2), ..s });
    assert forall|a: int, b: int| 0 <= a < b < s2.users_state.len() implies (
    #[trigger] s2.users_state[a]).user != (#[trigger] s2.users_state[b]).user by {
        assert(s.users_state[a].user != s.users_state[b].user);
    }
    assert forall|a: int| 0 <= a < s2.users_state.len() implies user_wf(
        #[trigger] s2.users_state[a],
    ) by {
        if a != i {
            assert(user_wf(s.users_state[a]));
        }
    }
}

/// Appending a well-formed record for a user with no record yet keeps the
/// store well formed.
pub proof fn lemma_session_wf_push(s: SessionView, st2: UserStateView)
    requires
        session_wf(s),
        user_wf(st2),
        forall|j: int| 0 <= j < s.users_state.len() ==> (#[trigger] s.users_state[j]).user
            != st2.user,
    ensures
        session_wf(SessionView { users_state: s.users_state.push(st2), ..s }),
{
    let s2 = (SessionView { users_state: s.users_state.push(st2), ..s });
    assert forall|a: int, b: int| 0 <= a < b < s2.users_state.len() implies (
    #[trigger] s2.users_state[a]).user != (#[trigger] s2.users_state[b]).user by {
        if b < s.users_state.len() {
            assert(s.users_state[a].user != s.users_state[b].user);
        } else {
            assert(s.users_state[a].user != st2.user);
        }
    }
    assert forall|a: int| 0 <= a < s2.users_state.len() implies user_wf(
        #[trigger] s2.users_state[a],
    ) by {
        if a < s.users_state.len() {
            assert(user_wf(s.users_state[a]));
        }
    }
}

/// When `user` matches exactly at `idx`, the lookup returns `idx`.
pub proof fn lemma_find_user_unique(users: Seq<UserStateView>, user: ActorId, idx: int)
    requires
        0 <= idx < users.len(),
        users[idx].user == user,
        forall|j: int| 0 <= j < users.len() && j != idx ==> (#[trigger] users[j]).user != user,
    ensures
        find_user_spec(users, user) == Some(idx),
{
    lemma_find_user_spec(users, user);
    match find_user_spec(users, user) {
        Some(k) => {
            assert(users[k].user == user);
        },
        None => {
            assert(users[idx].user != user);
        },
    }
}

/// When `reply_to` matches exactly at `idx`, the lookup returns `idx`.
pub proof fn lemma_find_waiting_unique(users: Seq<UserStateView>, reply_to: MessageId, idx: int)
    requires
        0 <= idx < users.len(),
        users[idx].wait_msg_id_game_session_to_wordle == Some(reply_to),
        forall|j: int| 0 <= j < users.len() && j != idx ==> (
        #[trigger] users[j]).wait_msg_id_game_session_to_wordle != Some(reply_to),
    ensures
        find_waiting_spec(users, reply_to) == Some(idx),
{
    lemma_find_waiting_spec(users, reply_to);
    match find_waiting_spec(users, reply_to) {
        Some(k) => {
            assert(users[k].wait_msg_id_game_session_to_wordle == Some(reply_to));
        },
        None => {
            assert(users[idx].wait_msg_id_game_session_to_wordle != Some(reply_to));
        },
    }
}

/// When `msg_id` matches exactly at `idx`, the lookup returns `idx`.
pub proof fn lemma_find_token_unique(users: Seq<UserStateView>, msg_id: MessageId, idx: int)
    requires
        0 <= idx < users.len(),
        users[idx].check_word_msg_id == Some(msg_id),
        forall|j: int| 0 <= j < users.len() && j != idx ==> (
        #[trigger] users[j]).check_word_msg_id != Some(msg_id),
    ensures
        find_token_spec(users, msg_id) == Some(idx),
{
    lemma_find_token_spec(users, msg_id);
    match find_token_spec(users, msg_id) {
        Some(k) => {
            assert(users[k].check_word_msg_id == Some(msg_id));
        },
        None => {
            assert(users[idx].check_word_msg_id != Some(msg_id));
        },
    }
}

} // verus!
