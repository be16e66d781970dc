//! The text that the game mode sends out: database statements and chat
//! messages, built from the player's values.
use vstd::prelude::*;
use vstd::string::*;
use crate::session::{KickReason, DEFAULT_SKIN, MAX_LOGIN_ATTEMPTS};

verus! {

/// The decimal digit character of `d` (`d < 10`).
pub open spec fn digit_char(d: nat) -> char {
    if d == 0 { '0' }
    else if d == 1 { '1' }
    else if d == 2 { '2' }
    else if d == 3 { '3' }
    else if d == 4 { '4' }
    else if d == 5 { '5' }
    else if d == 6 { '6' }
    else if d == 7 { '7' }
    else if d == 8 { '8' }
    else { '9' }
}

/// The decimal notation of `n`, without leading zeros.
pub open spec fn decimal(n: nat) -> Seq<char>
    decreases n,
{
    if n < 10 {
        seq![digit_char(n)]
    } else {
        decimal(n / 10) + seq![digit_char(n % 10)]
    }
}

/// The one-character string of the digit `d`.
fn digit_str(d: u64) -> (s: &'static str)
    requires
        d < 10,
    ensures
        s@ == seq![digit_char(d as nat)],
{
    if d == 0 {
        proof { reveal_strlit("0"); }
        "0"
    } else if d == 1 {
        proof { reveal_strlit("1"); }
        "1"
    } else if d == 2 {
        proof { reveal_strlit("2"); }
        "2"
    } else if d == 3 {
        proof { reveal_strlit("3"); }
        "3"
    } else if d == 4 {
        proof { reveal_strlit("4"); }
        "4"
    } else if d == 5 {
        proof { reveal_strlit("5"); }
        "5"
    } else if d == 6 {
        proof { reveal_strlit("6"); }
        "6"
    } else if d == 7 {
        proof { reveal_strlit("7"); }
        "7"
    } else if d == 8 {
        proof { reveal_strlit("8"); }
        "8"
    } else {
        proof { reveal_strlit("9"); }
        "9"
    }
}

/// Appends the decimal notation of `n` to `s`.
fn append_decimal(s: &mut String, n: u64)
    ensures
        final(s)@ == old(s)@ + decimal(n as nat),
    decreases n,
{
    if n >= 10 {
        append_decimal(s, n / 10);
    }
    s.append(digit_str(n % 10));
    proof {
        assert(s@ =~= old(s)@ + decimal(n as nat));
    }
}

/// The decimal notation of `n`.
pub fn to_decimal(n: u64) -> (s: String)
    ensures
        s@ == decimal(n as nat),
{
    let mut s = String::new();
    append_decimal(&mut s, n);
    proof {
        assert(s@ =~= decimal(n as nat));
    }
    s
}

/// The statement that fetches the stored password hash of `username`; no row
/// means no account.
pub fn registration_check_query(username: &str) -> (q: String)
    ensures
        q@ == "SELECT password FROM User WHERE username='"@ + username@ + "'"@,
{
    let mut q = String::from_str("SELECT password FROM User WHERE username='");
    q.append(username);
    q.append("'");
    q
}

/// The statement that fetches the account id and password hash of `username`.
pub fn login_query(username: &str) -> (q: String)
    ensures
        q@ == "SELECT id,password FROM User WHERE username='"@ + username@ + "'"@,
{
    let mut q = String::from_str("SELECT id,password FROM User WHERE username='");
    q.append(username);
    q.append("'");
    q
}

/// The statement that creates the account `username` with the password hash
/// `hash`, laid out over several lines.
pub open spec fn insert_user_statement(username: Seq<char>, hash: Seq<char>) -> Seq<char> {
    "INSERT INTO  User(username,password) VALUES(\n                            '"@ + username + "',\n                            '"@ + hash
        + "'\n                        )\n                    "@
}

/// The statement that creates the account `username` with the password hash `hash`.
pub fn insert_user_query(username: &str, hash: &str) -> (q: String)
    ensures
        q@ == insert_user_statement(username@, hash@),
{
    let mut q = String::from_str("INSERT INTO  User(username,password) VALUES(\n                            '");
    q.append(username);
    q.append("',\n                            '");
    q.append(hash);
    q.append("'\n                        )\n                    ");
    q
}

/// The statement that fetches the stored data of account `account_id`.
pub fn player_info_query(account_id: u64) -> (q: String)
    ensures
        q@ == "SELECT * FROM UserInfo WHERE id="@ + decimal(account_id as nat),
{
    let mut q = String::from_str("SELECT * FROM UserInfo WHERE id=");
    append_decimal(&mut q, account_id);
    q
}

/// The statement that stores the data of a new account `account_id`: the
/// default skin at the origin (laid out over several lines).
pub fn insert_player_info_query(account_id: u64) -> (q: String)
    ensures
        q@ == "INSERT INTO UserInfo VALUES(\n                        "@ + decimal(account_id as nat) + ",\n                        "@
            + decimal(DEFAULT_SKIN as nat) + ",\n                        0.0,\n                        0.0,\n                        0.0\n                    )"@,
{
    let mut q = String::from_str("INSERT INTO UserInfo VALUES(\n                        ");
    append_decimal(&mut q, account_id);
    q.append(",\n                        ");
    append_decimal(&mut q, DEFAULT_SKIN as u64);
    q.append(",\n                        0.0,\n                        0.0,\n                        0.0\n                    )");
    q
}

/// The message that announces a kick for `reason`.
pub fn kick_message(reason: &str) -> (m: String)
    ensures
        m@ == "You are kicked from server (Reason: "@ + reason@ + ") !!"@,
{
    let mut m = String::from_str("You are kicked from server (Reason: ");
    m.append(reason);
    m.append(") !!");
    m
}

/// The warning after the `attempts`-th failed login in a row.
pub fn failed_login_warning(attempts: usize) -> (m: String)
    ensures
        m@ == "WARNING: Invalid Password Entered ("@ + decimal(attempts as nat) + "/"@
            + decimal(MAX_LOGIN_ATTEMPTS as nat) + ")"@,
{
    let mut m = String::from_str("WARNING: Invalid Password Entered (");
    append_decimal(&mut m, attempts as u64);
    m.append("/");
    append_decimal(&mut m, MAX_LOGIN_ATTEMPTS as u64);
    m.append(")");
    m
}

/// The log line when a timer that is not active is killed.
pub fn invalid_timer_warning(id: usize) -> (m: String)
    ensures
        m@ == "[WARNING] Tried to kill invalid Timer with ID: "@ + decimal(id as nat),
{
    let mut m = String::from_str("[WARNING] Tried to kill invalid Timer with ID: ");
    append_decimal(&mut m, id as u64);
    m
}

impl KickReason {
    /// The reason as shown to the kicked player.
    pub fn text(&self) -> (t: &'static str)
        ensures
            t@ == (match self {
                KickReason::FailedLogins => "Multiple failed attempts to login"@,
                KickReason::AuthorizationCancelled => "Didn't login to their account"@,
                KickReason::NotLoggedIn => "Not logged in"@,
            }),
    {
        match self {
            KickReason::FailedLogins => "Multiple failed attempts to login",
            KickReason::AuthorizationCancelled => "Didn't login to their account",
            KickReason::NotLoggedIn => "Not logged in",
        }
    }
}

/// The value of a decimal digit character.
pub open spec fn digit_value(c: char) -> int {
    c as int - '0' as int
}

/// The number that a string of decimal digits denotes.
pub open spec fn decimal_value(s: Seq<char>) -> int
    decreases s.len(),
{
    if s.len() == 0 {
        0
    } else {
        decimal_value(s.drop_last()) * 10 + digit_value(s.last())
    }
}

/// A digit character denotes its digit.
proof fn lemma_digit_char_value(k: nat)
    requires
        k < 10,
    ensures
        digit_value(digit_char(k)) == k,
        '0' <= digit_char(k) <= '9',
        k > 0 ==> digit_char(k) != '0',
{
}

/// The decimal notation of `n` consists of digits, has no leading zero, and
/// reads back as `n`.
pub proof fn lemma_decimal_reads_back(n: nat)
    ensures
        decimal(n).len() >= 1,
        forall|i: int| 0 <= i < decimal(n).len() ==> '0' <= #[trigger] decimal(n)[i] <= '9',
        n > 0 ==> decimal(n)[0] != '0',
        decimal_value(decimal(n)) == n,
    decreases n,
{
    lemma_digit_char_value(n % 10);
    if n < 10 {
        assert(n % 10 == n);
        assert(decimal(n).drop_last() =~= Seq::<char>::empty());
        assert(decimal_value(decimal(n)) == decimal_value(Seq::<char>::empty()) * 10 + digit_value(
            digit_char(n),
        ));
    } else {
        lemma_decimal_reads_back(n / 10);
        let d = decimal(n);
        assert(d.drop_last() =~= decimal(n / 10));
        assert(d[0] == decimal(n / 10)[0]);
        assert forall|i: int| 0 <= i < d.len() implies '0' <= #[trigger] d[i] <= '9' by {
            if i < d.len() - 1 {
                assert(d[i] == decimal(n / 10)[i]);
            }
        }
        assert(d.last() == digit_char(n % 10));
        assert(decimal_value(d) == n / 10 * 10 + n % 10);
        assert(n == (n / 10) * 10 + n % 10) by (nonlinear_arith);
    }
}

/// The registration statement stores the name and the hash verbatim: it is
/// the fixed opening, the name, the fixed separator, the hash and the fixed
/// closing, so the name stands whole in its quoted field and the hash whole
/// in the next one, whatever their contents.
pub proof fn lemma_insert_user_statement_fields(username: Seq<char>, hash: Seq<char>)
    ensures
        insert_user_statement(username, hash) == "INSERT INTO  User(username,password) VALUES(\n                            '"@ + username + "',\n                            '"@ + hash + "'\n                        )\n                    "@,
        insert_user_statement(username, hash).len() == "INSERT INTO  User(username,password) VALUES(\n                            '"@.len() + username.len() + "',\n                            '"@.len()
            + hash.len() + "'\n                        )\n                    "@.len(),
        insert_user_statement(username, hash).subrange(
            ("INSERT INTO  User(username,password) VALUES(\n                            '"@.len()) as int,
            ("INSERT INTO  User(username,password) VALUES(\n                            '"@.len() + username.len()) as int,
        ) == username,
        insert_user_statement(username, hash).subrange(
            ("INSERT INTO  User(username,password) VALUES(\n                            '"@.len() + username.len() + "',\n                            '"@.len()) as int,
            ("INSERT INTO  User(username,password) VALUES(\n                            '"@.len() + username.len() + "',\n                            '"@.len() + hash.len()) as int,
        ) == hash,
{
    let st = insert_user_statement(username, hash);
    let a = "INSERT INTO  User(username,password) VALUES(\n                            '"@;
    let b = "',\n                            '"@;
    assert(st.subrange(a.len() as int, (a.len() + username.len()) as int) =~= username);
    assert(st.subrange(
        (a.len() + username.len() + b.len()) as int,
        (a.len() + username.len() + b.len() + hash.len()) as int,
    )
        =~= hash);
}

/// Two registration statements are equal only for the same name and hash.
pub proof fn lemma_insert_user_statement_injective(u1: Seq<char>, h1: Seq<char>, u2: Seq<char>, h2: Seq<char>)
    requires
        u1.len() == u2.len(),
        insert_user_statement(u1, h1) == insert_user_statement(u2, h2),
    ensures
        u1 == u2,
        h1 == h2,
{
    lemma_insert_user_statement_fields(u1, h1);
    lemma_insert_user_statement_fields(u2, h2);
}

} // verus!
