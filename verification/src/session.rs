//! The game mode's per-player bookkeeping: failed login attempts and the
//! account data of the players who are logged in.
use std::collections::HashMap;
use vstd::prelude::*;

verus! {

/// How many failed logins in a row get a player kicked.
pub const MAX_LOGIN_ATTEMPTS: usize = 3;

/// The skin that a new account starts with.
pub const DEFAULT_SKIN: i32 = 230;

/// How long after the kick message the kick itself follows, in milliseconds.
pub const KICK_DELAY_MS: i64 = 1000;

/// A position in the world, each coordinate held as the bit pattern of its
/// 32-bit float.
#[derive(Clone, Copy, Debug, PartialEq, Eq, Structural)]
pub struct Position {
    pub x: u32,
    pub y: u32,
    pub z: u32,
}

/// The stored data of a logged-in account.
#[derive(Clone, Copy, Debug, PartialEq, Eq, Structural)]
pub struct PlayerInfo {
    pub account_id: u64,
    pub skin: i32,
    pub pos: Position,
}

/// What a failed login leads to.
#[derive(Clone, Copy, Debug, PartialEq, Eq, Structural)]
pub enum FailedLogin {
    /// The limit is reached: the player is kicked.
    Kick,
    /// The player is warned; this many logins in a row have failed.
    Warn { attempts: usize },
}

/// Why a player is kicked.
#[derive(Clone, Copy, Debug, PartialEq, Eq, Structural)]
pub enum KickReason {
    /// Too many failed logins in a row.
    FailedLogins,
    /// The player cancelled authentication.
    AuthorizationCancelled,
    /// The player tried to spawn without being logged in.
    NotLoggedIn,
}

/// The abstract state of [`SanAndreasUnbound`].
pub struct SessionState {
    /// The logged-in players and their account data.
    pub authenticated: Map<i32, PlayerInfo>,
    /// Failed logins in a row, per player.
    pub login_attempts: Map<i32, usize>,
}

/// The game mode's per-player state.
pub struct SanAndreasUnbound {
    authenticated_players: HashMap<i32, PlayerInfo>,
    login_attempts: HashMap<i32, usize>,
}

impl View for SanAndreasUnbound {
    type V = SessionState;

    closed spec fn view(&self) -> SessionState {
        SessionState {
            authenticated: self.authenticated_players@,
            login_attempts: self.login_attempts@,
        }
    }
}

/// The failed logins in a row recorded for `pid`.
pub open spec fn attempts_of(attempts: Map<i32, usize>, pid: i32) -> int {
    if attempts.contains_key(pid) {
        attempts[pid] as int
    } else {
        0
    }
}

/// The state and outcome after a failed login of `pid`.
pub open spec fn login_failed(s: SessionState, pid: i32) -> (SessionState, FailedLogin) {
    let n = attempts_of(s.login_attempts, pid) + 1;
    (
        SessionState { login_attempts: s.login_attempts.insert(pid, n as usize), ..s },
        if n == MAX_LOGIN_ATTEMPTS {
            FailedLogin::Kick
        } else {
            FailedLogin::Warn { attempts: n as usize }
        },
    )
}

/// The state with the failed-login count of `pid` cleared.
pub open spec fn attempts_reset(s: SessionState, pid: i32) -> SessionState {
    SessionState { login_attempts: s.login_attempts.remove(pid), ..s }
}

/// What a spawn request of `pid` gets: the account data of a logged-in
/// player, nothing for anyone else.
pub open spec fn spawn_info(s: SessionState, pid: i32) -> Option<PlayerInfo> {
    if s.authenticated.contains_key(pid) {
        Some(s.authenticated[pid])
    } else {
        None
    }
}

impl SanAndreasUnbound {
    /// No player logged in and no failed login recorded.
    pub fn new() -> (g: Self)
        ensures
            g@.authenticated == Map::<i32, PlayerInfo>::empty(),
            g@.login_attempts == Map::<i32, usize>::empty(),
    {
        SanAndreasUnbound { authenticated_players: HashMap::new(), login_attempts: HashMap::new() }
    }

    /// The failed logins in a row recorded for `pid`.
    pub fn login_attempts(&self, pid: i32) -> (n: usize)
        ensures
            n == attempts_of(self@.login_attempts, pid),
    {
        match self.login_attempts.get(&pid) {
            Some(n) => *n,
            None => 0,
        }
    }

    /// Whether `pid` is logged in.
    pub fn is_authenticated(&self, pid: i32) -> (b: bool)
        ensures
            b == self@.authenticated.contains_key(pid),
    {
        self.authenticated_players.contains_key(&pid)
    }

    /// A player connected: any count of failed logins under that id is cleared.
    pub fn on_player_connect(&mut self, pid: i32)
        ensures
            final(self)@ == attempts_reset(old(self)@, pid),
    {
        self.login_attempts.remove(&pid);
    }

    /// A player logged in: their count of failed logins is cleared.
    pub fn on_player_login(&mut self, pid: i32)
        ensures
            final(self)@ == attempts_reset(old(self)@, pid),
    {
        self.login_attempts.remove(&pid);
    }

    /// A login of `pid` failed: the count goes up by one, and reaching
    /// [`MAX_LOGIN_ATTEMPTS`] gets the player kicked.
    pub fn on_login_attempt_failed(&mut self, pid: i32) -> (f: FailedLogin)
        requires
            attempts_of(old(self)@.login_attempts, pid) < usize::MAX,
        ensures
            (final(self)@, f) == login_failed(old(self)@, pid),
    {
        let n = self.login_attempts(pid) + 1;
        self.login_attempts.insert(pid, n);
        if n == MAX_LOGIN_ATTEMPTS {
            FailedLogin::Kick
        } else {
            FailedLogin::Warn { attempts: n }
        }
    }

    /// The account data of `pid` was loaded: the player counts as logged in.
    pub fn on_player_info_loaded(&mut self, pid: i32, info: PlayerInfo)
        ensures
            final(self)@ == (SessionState {
                authenticated: old(self)@.authenticated.insert(pid, info),
                ..old(self)@
            }),
    {
        self.authenticated_players.insert(pid, info);
    }

    /// `pid` spawns: a logged-in player gets their skin and position back,
    /// anyone else is to be kicked.
    pub fn on_player_spawn(&self, pid: i32) -> (r: Option<PlayerInfo>)
        ensures
            r == spawn_info(self@, pid),
    {
        match self.authenticated_players.get(&pid) {
            Some(info) => Some(*info),
            None => None,
        }
    }

    /// `pid` asks to pick a class: returns whether the player may leave
    /// spectator mode, which only a logged-in player may.
    pub fn on_player_request_class(&self, pid: i32) -> (leave_spectating: bool)
        ensures
            leave_spectating == self@.authenticated.contains_key(pid),
    {
        self.authenticated_players.contains_key(&pid)
    }

    /// `pid` disconnected: a logged-in player is logged out, and their data is
    /// returned to be saved.
    pub fn on_player_disconnect(&mut self, pid: i32) -> (r: Option<PlayerInfo>)
        ensures
            r == spawn_info(old(self)@, pid),
            final(self)@ == (SessionState {
                authenticated: old(self)@.authenticated.remove(pid),
                ..old(self)@
            }),
    {
        self.authenticated_players.remove(&pid)
    }

    /// `pid` died at `pos`: a logged-in player's stored position becomes `pos`.
    pub fn on_player_death(&mut self, pid: i32, pos: Position)
        ensures
            final(self)@ == (if old(self)@.authenticated.contains_key(pid) {
                SessionState {
                    authenticated: old(self)@.authenticated.insert(
                        pid,
                        PlayerInfo { pos: pos, ..old(self)@.authenticated[pid] },
                    ),
                    ..old(self)@
                }
            } else {
                old(self)@
            }),
    {
        match self.authenticated_players.get(&pid) {
            Some(info) => {
                let updated = PlayerInfo { pos: pos, ..*info };
                self.authenticated_players.insert(pid, updated);
            },
            None => {},
        }
    }
}

/// What loading an account's data found.
#[derive(Clone, Copy, Debug, PartialEq, Eq, Structural)]
pub enum InfoLoad {
    /// The account has stored data.
    Stored(PlayerInfo),
    /// The account has none yet: default data is to be stored for it.
    Created(PlayerInfo),
}

/// The data of account `account_id` from the rows `(skin, position)` stored
/// for it: the last row when there is one; otherwise a new record with the
/// default skin at the player's current position.
pub fn load_player_info(account_id: u64, rows: &Vec<(i32, Position)>, current_pos: Position) -> (r:
    InfoLoad)
    ensures
        rows@.len() > 0 ==> r == InfoLoad::Stored(
            PlayerInfo {
                account_id: account_id,
                skin: rows@.last().0,
                pos: rows@.last().1,
            },
        ),
        rows@.len() == 0 ==> r == InfoLoad::Created(
            PlayerInfo { account_id: account_id, skin: DEFAULT_SKIN, pos: current_pos },
        ),
{
    if rows.len() > 0 {
        let (skin, pos) = rows[rows.len() - 1];
        InfoLoad::Stored(PlayerInfo { account_id, skin, pos })
    } else {
        InfoLoad::Created(PlayerInfo { account_id, skin: DEFAULT_SKIN, pos: current_pos })
    }
}

/// The state after `n` failed logins of `pid` in a row.
pub open spec fn after_failures(s: SessionState, pid: i32, n: nat) -> SessionState
    decreases n,
{
    if n == 0 {
        s
    } else {
        login_failed(after_failures(s, pid, (n - 1) as nat), pid).0
    }
}

/// Each failed login in a row adds one to the player's count.
pub proof fn lemma_failures_count_up(s: SessionState, pid: i32, n: nat)
    requires
        attempts_of(s.login_attempts, pid) == 0,
        n <= usize::MAX,
    ensures
        attempts_of(after_failures(s, pid, n).login_attempts, pid) == n,
        after_failures(s, pid, n).authenticated == s.authenticated,
    decreases n,
{
    if n > 0 {
        lemma_failures_count_up(s, pid, (n - 1) as nat);
    }
}

/// Starting from no failed login (a fresh connection, or right after a
/// successful login), the `n`-th failed login in a row kicks the player
/// exactly when `n` is [`MAX_LOGIN_ATTEMPTS`]; every other one warns with
/// the count `n`.
pub proof fn lemma_kicked_exactly_at_limit(s: SessionState, pid: i32, n: nat)
    requires
        attempts_of(s.login_attempts, pid) == 0,
        1 <= n <= usize::MAX,
    ensures
        login_failed(after_failures(s, pid, (n - 1) as nat), pid).1 == (if n == MAX_LOGIN_ATTEMPTS {
            FailedLogin::Kick
        } else {
            FailedLogin::Warn { attempts: n as usize }
        }),
{
    lemma_failures_count_up(s, pid, (n - 1) as nat);
}

/// A connection or a successful login starts the count afresh: the next
/// failed login only warns, with the count 1.
pub proof fn lemma_reset_restarts_count(s: SessionState, pid: i32)
    ensures
        attempts_of(attempts_reset(s, pid).login_attempts, pid) == 0,
        login_failed(attempts_reset(s, pid), pid).1 == (FailedLogin::Warn { attempts: 1 }),
{
}

/// A failed login counts against that player only.
pub proof fn lemma_failure_is_per_player(s: SessionState, pid: i32, other: i32)
    requires
        pid != other,
    ensures
        attempts_of(login_failed(s, pid).0.login_attempts, other) == attempts_of(s.login_attempts, other),
        attempts_of(attempts_reset(s, pid).login_attempts, other) == attempts_of(s.login_attempts, other),
{
}

/// Once a player's data is loaded they spawn with it; once they disconnect
/// the data is handed back for saving and a later spawn is refused.
pub proof fn lemma_spawn_follows_login_and_disconnect(s: SessionState, pid: i32, info: PlayerInfo)
    ensures
        ({
            let loaded = SessionState { authenticated: s.authenticated.insert(pid, info), ..s };
            let gone = SessionState { authenticated: loaded.authenticated.remove(pid), ..loaded };
            &&& spawn_info(loaded, pid) == Some(info)
            &&& spawn_info(gone, pid) == None::<PlayerInfo>
        }),
{
}

/// A player who is not logged in cannot spawn: the spawn is refused exactly
/// when there is no account data for the player.
pub proof fn lemma_spawn_requires_login(s: SessionState, pid: i32)
    ensures
        spawn_info(s, pid) is None <==> !s.authenticated.contains_key(pid),
{
}

/// The recorded count is the stored one, or 0 for a player with none.
pub proof fn lemma_attempts_of_reads_count(attempts: Map<i32, usize>, pid: i32)
    ensures
        attempts.contains_key(pid) ==> attempts_of(attempts, pid) == attempts[pid],
        !attempts.contains_key(pid) ==> attempts_of(attempts, pid) == 0,
        attempts_of(attempts, pid) >= 0,
{
}

/// Clearing a player's count removes exactly that count: the other counts
/// and every logged-in player's data stay as they were, so a connect or a
/// login never logs anyone out.
pub proof fn lemma_reset_touches_only_the_count(s: SessionState, pid: i32, other: i32)
    ensures
        attempts_reset(s, pid).authenticated == s.authenticated,
        !attempts_reset(s, pid).login_attempts.contains_key(pid),
        other != pid ==> attempts_reset(s, pid).login_attempts.contains_key(other)
            == s.login_attempts.contains_key(other),
        other != pid && s.login_attempts.contains_key(other) ==> attempts_reset(s, pid).login_attempts[other]
            == s.login_attempts[other],
        spawn_info(attempts_reset(s, pid), other) == spawn_info(s, other),
        spawn_info(attempts_reset(s, pid), pid) == spawn_info(s, pid),
{
}

/// A failed login adds one to that player's count and changes nothing else;
/// it kicks when the new count reaches the limit and otherwise warns with
/// the new count.
pub proof fn lemma_failed_login_adds_one(s: SessionState, pid: i32, other: i32)
    requires
        attempts_of(s.login_attempts, pid) < usize::MAX,
    ensures
        ({
            let (s1, f) = login_failed(s, pid);
            let n = attempts_of(s.login_attempts, pid) + 1;
            &&& s1.authenticated == s.authenticated
            &&& s1.login_attempts.contains_key(pid)
            &&& s1.login_attempts[pid] == n
            &&& (other != pid ==> attempts_of(s1.login_attempts, other) == attempts_of(
                s.login_attempts,
                other,
            ))
            &&& (n == 3 ==> f == FailedLogin::Kick)
            &&& (n != 3 ==> f == FailedLogin::Warn { attempts: n as usize })
        }),
{
}

/// A spawn gets back exactly the stored data of a logged-in player, and
/// nothing for anyone else.
pub proof fn lemma_spawn_info_reads_account(s: SessionState, pid: i32)
    ensures
        s.authenticated.contains_key(pid) ==> spawn_info(s, pid) == Some(s.authenticated[pid]),
        !s.authenticated.contains_key(pid) ==> spawn_info(s, pid) == None::<PlayerInfo>,
{
}

} // verus!
