//! The account authentication state machine: who is being asked to register,
//! who is being asked to log in, and what each event leads to.
use std::collections::HashSet;
use vstd::prelude::*;

verus! {

/// The id of the dialog through which players register and log in.
pub const AUTH_DIALOG: i32 = 32700;

/// The bcrypt cost that new accounts are hashed with unless set otherwise.
pub const DEFAULT_BCRYPT_COST: u32 = 12;

/// The button a player answered a dialog with.
#[derive(Clone, Copy, Debug, PartialEq, Eq, Structural)]
pub enum DialogButton {
    /// The accept button.
    Left,
    /// The cancel button.
    Right,
}

/// The dialog that a player is shown next.
#[derive(Clone, Copy, Debug, PartialEq, Eq, Structural)]
pub enum Prompt {
    /// The account does not exist yet: ask for a new password.
    Register,
    /// The account exists: ask for its password.
    Login,
    /// The password was wrong: ask for it again.
    RetryLogin,
}

/// What to do with a player's answer to a dialog.
#[derive(Clone, Copy, Debug, PartialEq, Eq, Structural)]
pub enum DialogDecision {
    /// Not an answer that the authentication waits for.
    Ignored,
    /// The player cancelled authentication.
    Cancelled,
    /// Create the account with the entered password, hashed at this cost.
    Register { cost: u32 },
    /// Check the entered password against the stored hash.
    Login,
}

/// The result of checking a login.
#[derive(Clone, Copy, Debug, PartialEq, Eq, Structural)]
pub enum LoginOutcome {
    /// The password matched.
    LoggedIn,
    /// The password did not match; the player is asked again.
    Failed,
}

/// The texts of a dialog.
pub struct Dialog {
    pub title: &'static str,
    pub body: &'static str,
    pub accept: &'static str,
    pub cancel: &'static str,
}

/// The abstract state of [`Auth`].
pub struct AuthState {
    /// Players whose next dialog answer is a new password.
    pub registering: Set<i32>,
    /// Players whose next dialog answer is their password.
    pub logging_in: Set<i32>,
    /// The bcrypt cost of new accounts.
    pub bcrypt_cost: u32,
}

/// The authentication state: the players waiting to register or to log in,
/// and the cost that new passwords are hashed with.
pub struct Auth {
    reg_requestee: HashSet<i32>,
    login_requestee: HashSet<i32>,
    bcrypt_cost: u32,
}

impl View for Auth {
    type V = AuthState;

    closed spec fn view(&self) -> AuthState {
        AuthState {
            registering: self.reg_requestee@,
            logging_in: self.login_requestee@,
            bcrypt_cost: self.bcrypt_cost,
        }
    }
}

/// The state and prompt after the account check for `pid` came back.
pub open spec fn registration_checked(s: AuthState, pid: i32, registered: bool) -> (AuthState, Prompt) {
    if registered {
        (AuthState { logging_in: s.logging_in.insert(pid), ..s }, Prompt::Login)
    } else {
        (AuthState { registering: s.registering.insert(pid), ..s }, Prompt::Register)
    }
}

/// The state and outcome after the password check for `pid` came back.
pub open spec fn login_checked(s: AuthState, pid: i32, success: bool) -> (AuthState, LoginOutcome) {
    if success {
        (s, LoginOutcome::LoggedIn)
    } else {
        (AuthState { logging_in: s.logging_in.insert(pid), ..s }, LoginOutcome::Failed)
    }
}

/// The state and decision after `pid` answered dialog `dialog_id`.
pub open spec fn dialog_answered(s: AuthState, pid: i32, dialog_id: i32, button: DialogButton) -> (
    AuthState,
    DialogDecision,
) {
    if dialog_id != AUTH_DIALOG {
        (s, DialogDecision::Ignored)
    } else if button == DialogButton::Right {
        (
            AuthState {
                registering: s.registering.remove(pid),
                logging_in: s.logging_in.remove(pid),
                ..s
            },
            DialogDecision::Cancelled,
        )
    } else if s.registering.contains(pid) {
        (
            AuthState { registering: s.registering.remove(pid), ..s },
            DialogDecision::Register { cost: s.bcrypt_cost },
        )
    } else if s.logging_in.contains(pid) {
        (AuthState { logging_in: s.logging_in.remove(pid), ..s }, DialogDecision::Login)
    } else {
        (s, DialogDecision::Ignored)
    }
}

impl Auth {
    /// No player pending, and the default bcrypt cost.
    pub fn new() -> (a: Self)
        ensures
            a@.registering == Set::<i32>::empty(),
            a@.logging_in == Set::<i32>::empty(),
            a@.bcrypt_cost == DEFAULT_BCRYPT_COST,
    {
        Auth { reg_requestee: HashSet::new(), login_requestee: HashSet::new(), bcrypt_cost: 12 }
    }

    /// Sets the bcrypt cost that later registrations hash with.
    pub fn set_bcrypt_cost(&mut self, cost: u32)
        ensures
            final(self)@ == (AuthState { bcrypt_cost: cost, ..old(self)@ }),
    {
        self.bcrypt_cost = cost;
    }

    /// The bcrypt cost that registrations hash with.
    pub fn bcrypt_cost(&self) -> (cost: u32)
        ensures
            cost == self@.bcrypt_cost,
    {
        self.bcrypt_cost
    }

    /// Whether `pid` is waiting to enter a new password.
    pub fn is_registering(&self, pid: i32) -> (b: bool)
        ensures
            b == self@.registering.contains(pid),
    {
        self.reg_requestee.contains(&pid)
    }

    /// Whether `pid` is waiting to enter their password.
    pub fn is_logging_in(&self, pid: i32) -> (b: bool)
        ensures
            b == self@.logging_in.contains(pid),
    {
        self.login_requestee.contains(&pid)
    }

    /// The stored password hashes under `pid`'s name came back: none means
    /// no account, and the player is asked to register; otherwise to log in.
    pub fn on_registration_checked(&mut self, pid: i32, stored_hashes: &Vec<String>) -> (p: Prompt)
        ensures
            (final(self)@, p) == registration_checked(old(self)@, pid, stored_hashes@.len() > 0),
    {
        if stored_hashes.len() > 0 {
            self.login_requestee.insert(pid);
            Prompt::Login
        } else {
            self.reg_requestee.insert(pid);
            Prompt::Register
        }
    }

    /// The password check of `pid` came back: a failed one puts the player
    /// back among those asked to log in.
    pub fn on_login_checked(&mut self, pid: i32, success: bool) -> (o: LoginOutcome)
        ensures
            (final(self)@, o) == login_checked(old(self)@, pid, success),
    {
        if success {
            LoginOutcome::LoggedIn
        } else {
            self.login_requestee.insert(pid);
            LoginOutcome::Failed
        }
    }

    /// `pid` answered dialog `dialog_id` with `button`.
    pub fn on_dialog_response(&mut self, pid: i32, dialog_id: i32, button: DialogButton) -> (d:
        DialogDecision)
        ensures
            (final(self)@, d) == dialog_answered(old(self)@, pid, dialog_id, button),
    {
        if dialog_id != AUTH_DIALOG {
            return DialogDecision::Ignored;
        }
        if button == DialogButton::Right {
            self.reg_requestee.remove(&pid);
            self.login_requestee.remove(&pid);
            return DialogDecision::Cancelled;
        }
        if self.reg_requestee.contains(&pid) {
            self.reg_requestee.remove(&pid);
            DialogDecision::Register { cost: self.bcrypt_cost }
        } else if self.login_requestee.contains(&pid) {
            self.login_requestee.remove(&pid);
            DialogDecision::Login
        } else {
            DialogDecision::Ignored
        }
    }
}

impl Prompt {
    /// The dialog shown for this prompt.
    pub fn dialog(&self) -> (d: Dialog)
        ensures
            d.title@ == (match self {
                Prompt::Register => "Register your account"@,
                _ => "Login to your account"@,
            }),
            d.body@ == (match self {
                Prompt::Register => "Please enter a password for your account"@,
                Prompt::Login => "This account is Registered. Please enter your password to login."@,
                Prompt::RetryLogin => "Invalid Password. Please enter your password again to login."@,
            }),
            d.accept@ == (match self {
                Prompt::Register => "Register"@,
                _ => "Login"@,
            }),
            d.cancel@ == "Exit"@,
    {
        match self {
            Prompt::Register => Dialog {
                title: "Register your account",
                body: "Please enter a password for your account",
                accept: "Register",
                cancel: "Exit",
            },
            Prompt::Login => Dialog {
                title: "Login to your account",
                body: "This account is Registered. Please enter your password to login.",
                accept: "Login",
                cancel: "Exit",
            },
            Prompt::RetryLogin => Dialog {
                title: "Login to your account",
                body: "Invalid Password. Please enter your password again to login.",
                accept: "Login",
                cancel: "Exit",
            },
        }
    }

    /// The chat message sent before the dialog, if any: a player without an
    /// account is told so before being asked to register.
    pub fn notice(&self) -> (m: Option<&'static str>)
        ensures
            m matches Some(t) ==> t@ == "You are not registered!"@,
            m is Some <==> *self == Prompt::Register,
    {
        match self {
            Prompt::Register => Some("You are not registered!"),
            _ => None,
        }
    }
}

/// Cancelling the authentication dialog leaves the player waiting for
/// neither a new password nor a password, whatever they were waiting for.
pub proof fn lemma_cancel_clears_pending(s: AuthState, pid: i32)
    ensures
        ({
            let (s1, d) = dialog_answered(s, pid, AUTH_DIALOG, DialogButton::Right);
            &&& d == DialogDecision::Cancelled
            &&& !s1.registering.contains(pid)
            &&& !s1.logging_in.contains(pid)
            &&& s1.registering == s.registering.remove(pid)
            &&& s1.logging_in == s.logging_in.remove(pid)
            &&& s1.bcrypt_cost == s.bcrypt_cost
        }),
{
}

/// Answers to any dialog but the authentication dialog change nothing and
/// are ignored.
pub proof fn lemma_other_dialogs_ignored(s: AuthState, pid: i32, dialog_id: i32, button: DialogButton)
    requires
        dialog_id != AUTH_DIALOG,
    ensures
        dialog_answered(s, pid, dialog_id, button) == (s, DialogDecision::Ignored),
{
}

/// A player without an account is asked to register, and accepting the
/// dialog registers them at the current bcrypt cost.
pub proof fn lemma_unregistered_player_registers(s: AuthState, pid: i32)
    ensures
        ({
            let (s1, p) = registration_checked(s, pid, false);
            let (s2, d) = dialog_answered(s1, pid, AUTH_DIALOG, DialogButton::Left);
            &&& p == Prompt::Register
            &&& d == DialogDecision::Register { cost: s.bcrypt_cost }
            &&& !s2.registering.contains(pid)
        }),
{
}

/// A player with an account (and no registration pending) is asked to log
/// in, and accepting the dialog has the password checked.
pub proof fn lemma_registered_player_logs_in(s: AuthState, pid: i32)
    requires
        !s.registering.contains(pid),
    ensures
        ({
            let (s1, p) = registration_checked(s, pid, true);
            let (s2, d) = dialog_answered(s1, pid, AUTH_DIALOG, DialogButton::Left);
            &&& p == Prompt::Login
            &&& d == DialogDecision::Login
            &&& !s2.logging_in.contains(pid)
        }),
{
}

/// After a wrong password (and no registration pending) the player may try
/// again: accepting the dialog has the password checked once more.
pub proof fn lemma_failed_login_retries(s: AuthState, pid: i32)
    requires
        !s.registering.contains(pid),
    ensures
        ({
            let (s1, o) = login_checked(s, pid, false);
            let (s2, d) = dialog_answered(s1, pid, AUTH_DIALOG, DialogButton::Left);
            &&& o == LoginOutcome::Failed
            &&& d == DialogDecision::Login
        }),
{
}

/// A successful password check changes nothing in the state.
pub proof fn lemma_successful_login_keeps_state(s: AuthState, pid: i32)
    ensures
        login_checked(s, pid, true) == (s, LoginOutcome::LoggedIn),
{
}

/// An answer is acted on once: for a player waiting for at most one of the
/// two steps, the same answer given again is ignored and changes nothing.
pub proof fn lemma_answer_acted_on_once(s: AuthState, pid: i32, button: DialogButton)
    requires
        !(s.registering.contains(pid) && s.logging_in.contains(pid)),
    ensures
        ({
            let (s1, d1) = dialog_answered(s, pid, AUTH_DIALOG, button);
            let (s2, d2) = dialog_answered(s1, pid, AUTH_DIALOG, button);
            &&& (d1 != DialogDecision::Cancelled ==> d2 == DialogDecision::Ignored && s2 == s1)
            &&& (d1 == DialogDecision::Cancelled ==> d2 == DialogDecision::Cancelled && s2 == s1)
        }),
{
    let (s1, d1) = dialog_answered(s, pid, AUTH_DIALOG, button);
    if button == DialogButton::Right {
        assert(s1.registering.remove(pid) =~= s1.registering);
        assert(s1.logging_in.remove(pid) =~= s1.logging_in);
    }
}

/// Answers of one player leave what other players wait for unchanged.
pub proof fn lemma_answers_are_per_player(
    s: AuthState,
    pid: i32,
    other: i32,
    dialog_id: i32,
    button: DialogButton,
)
    requires
        pid != other,
    ensures
        ({
            let (s1, d) = dialog_answered(s, pid, dialog_id, button);
            &&& s1.registering.contains(other) == s.registering.contains(other)
            &&& s1.logging_in.contains(other) == s.logging_in.contains(other)
            &&& s1.bcrypt_cost == s.bcrypt_cost
        }),
{
}

/// A reply that comes back from the database work for a player.
#[derive(Clone, Copy, Debug, PartialEq, Eq, Structural)]
pub enum Reply {
    /// The account check: whether the name has an account.
    RegistrationChecked { pid: i32, registered: bool },
    /// The password check: whether the password matched.
    LoginChecked { pid: i32, success: bool },
}

/// The state after one reply.
pub open spec fn reply_handled(s: AuthState, r: Reply) -> AuthState {
    match r {
        Reply::RegistrationChecked { pid, registered } => registration_checked(s, pid, registered).0,
        Reply::LoginChecked { pid, success } => login_checked(s, pid, success).0,
    }
}

/// The state after the replies `rs`, handled in order.
pub open spec fn replies_handled(s: AuthState, rs: Seq<Reply>) -> AuthState
    decreases rs.len(),
{
    if rs.len() == 0 {
        s
    } else {
        replies_handled(reply_handled(s, rs[0]), rs.drop_first())
    }
}

/// The players that the replies `rs` ask to register: those found without an account.
pub open spec fn asked_to_register(rs: Seq<Reply>) -> Set<i32> {
    Set::new(
        |p: i32|
            exists|i: int|
                0 <= i < rs.len() && #[trigger] rs[i] == (Reply::RegistrationChecked {
                    pid: p,
                    registered: false,
                }),
    )
}

/// The players that the replies `rs` ask to log in: those found with an
/// account, and those whose password did not match.
pub open spec fn asked_to_log_in(rs: Seq<Reply>) -> Set<i32> {
    Set::new(
        |p: i32|
            exists|i: int|
                0 <= i < rs.len() && (#[trigger] rs[i] == (Reply::RegistrationChecked {
                    pid: p,
                    registered: true,
                }) || rs[i] == (Reply::LoginChecked { pid: p, success: false })),
    )
}

/// Over any sequence of account-check and password-check replies, the
/// players waiting to register or to log in only grow: each set becomes the
/// old one plus the players the replies ask for that step, and the bcrypt
/// cost is kept.
pub proof fn lemma_replies_only_add_pending(s: AuthState, rs: Seq<Reply>)
    ensures
        replies_handled(s, rs).registering == s.registering.union(asked_to_register(rs)),
        replies_handled(s, rs).logging_in == s.logging_in.union(asked_to_log_in(rs)),
        replies_handled(s, rs).bcrypt_cost == s.bcrypt_cost,
        s.registering.subset_of(replies_handled(s, rs).registering),
        s.logging_in.subset_of(replies_handled(s, rs).logging_in),
    decreases rs.len(),
{
    if rs.len() == 0 {
        assert(asked_to_register(rs) =~= Set::<i32>::empty());
        assert(asked_to_log_in(rs) =~= Set::<i32>::empty());
        assert(s.registering.union(asked_to_register(rs)) =~= s.registering);
        assert(s.logging_in.union(asked_to_log_in(rs)) =~= s.logging_in);
    } else {
        let s1 = reply_handled(s, rs[0]);
        let rest = rs.drop_first();
        lemma_replies_only_add_pending(s1, rest);
        assert forall|p: i32| #[trigger] asked_to_register(rest).contains(p) implies asked_to_register(
            rs,
        ).contains(p) by {
            let i = choose|i: int|
                0 <= i < rest.len() && #[trigger] rest[i] == (Reply::RegistrationChecked {
                    pid: p,
                    registered: false,
                });
            assert(rs[i + 1] == rest[i]);
        }
        assert forall|p: i32| #[trigger] asked_to_log_in(rest).contains(p) implies asked_to_log_in(
            rs,
        ).contains(p) by {
            let i = choose|i: int|
                0 <= i < rest.len() && (#[trigger] rest[i] == (Reply::RegistrationChecked {
                    pid: p,
                    registered: true,
                }) || rest[i] == (Reply::LoginChecked { pid: p, success: false }));
            assert(rs[i + 1] == rest[i]);
        }
        assert forall|p: i32| #[trigger] asked_to_register(rs).contains(p) implies s1.registering.union(
            asked_to_register(rest),
        ).contains(p) by {
            let i = choose|i: int|
                0 <= i < rs.len() && #[trigger] rs[i] == (Reply::RegistrationChecked {
                    pid: p,
                    registered: false,
                });
            if i > 0 {
                assert(rest[i - 1] == rs[i]);
            }
        }
        assert forall|p: i32| #[trigger] asked_to_log_in(rs).contains(p) implies s1.logging_in.union(
            asked_to_log_in(rest),
        ).contains(p) by {
            let i = choose|i: int|
                0 <= i < rs.len() && (#[trigger] rs[i] == (Reply::RegistrationChecked {
                    pid: p,
                    registered: true,
                }) || rs[i] == (Reply::LoginChecked { pid: p, success: false }));
            if i > 0 {
                assert(rest[i - 1] == rs[i]);
            }
        }
        assert(replies_handled(s, rs).registering =~= s.registering.union(asked_to_register(rs)));
        assert(replies_handled(s, rs).logging_in =~= s.logging_in.union(asked_to_log_in(rs)));
    }
}

/// An account check adds the player to exactly one waiting set: to those
/// asked to log in when the account exists, to those asked to register
/// otherwise; the other set and the cost stay as they were.
pub proof fn lemma_registration_check_adds_player(s: AuthState, pid: i32, registered: bool)
    ensures
        ({
            let (s1, p) = registration_checked(s, pid, registered);
            &&& s1.bcrypt_cost == s.bcrypt_cost
            &&& (registered ==> p == Prompt::Login && s1.logging_in == s.logging_in.insert(pid)
                && s1.registering == s.registering)
            &&& (!registered ==> p == Prompt::Register && s1.registering == s.registering.insert(pid)
                && s1.logging_in == s.logging_in)
        }),
{
}

/// A password check that matched logs the player in and changes nothing; one
/// that did not match asks the player to log in again, and changes nothing
/// else.
pub proof fn lemma_login_check_outcome(s: AuthState, pid: i32, success: bool)
    ensures
        ({
            let (s1, o) = login_checked(s, pid, success);
            &&& s1.bcrypt_cost == s.bcrypt_cost
            &&& s1.registering == s.registering
            &&& (success ==> o == LoginOutcome::LoggedIn && s1.logging_in == s.logging_in)
            &&& (!success ==> o == LoginOutcome::Failed && s1.logging_in == s.logging_in.insert(pid))
        }),
{
}

/// An accepted answer to the authentication dialog: a player waiting to
/// register is registered at the current cost and no longer waits to
/// register; otherwise a player waiting to log in has the password checked
/// and no longer waits to log in; anyone else is ignored. The cost never
/// changes, and the set not acted on stays as it was.
pub proof fn lemma_accept_answer(s: AuthState, pid: i32)
    ensures
        ({
            let (s1, d) = dialog_answered(s, pid, AUTH_DIALOG, DialogButton::Left);
            &&& s1.bcrypt_cost == s.bcrypt_cost
            &&& (s.registering.contains(pid) ==> d == DialogDecision::Register {
                cost: s.bcrypt_cost,
            } && s1.registering == s.registering.remove(pid) && s1.logging_in == s.logging_in)
            &&& (!s.registering.contains(pid) && s.logging_in.contains(pid) ==> d == DialogDecision::Login
                && s1.logging_in == s.logging_in.remove(pid) && s1.registering == s.registering)
            &&& (!s.registering.contains(pid) && !s.logging_in.contains(pid) ==> d
                == DialogDecision::Ignored && s1 == s)
        }),
{
}

} // verus!
