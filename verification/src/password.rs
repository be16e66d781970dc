//! Password hashing and checking, done by the `bcrypt` crate.
use vstd::prelude::*;
use crate::text::{digit_char, insert_user_query, insert_user_statement, lemma_insert_user_statement_fields};

verus! {

/// Why hashing or checking a password failed.
#[derive(Debug)]
pub enum PasswordError {
    /// The cost is outside bcrypt's range of 4 to 31.
    CostNotAllowed(u32),
    /// The stored hash is not a well-formed bcrypt hash.
    InvalidHash(&'static str),
    /// No random salt could be drawn.
    Random,
    /// The password is longer than bcrypt accepts.
    Truncation(usize),
}

/// What `bcrypt::verify` answers for `password` against the stored `hash`.
pub uninterp spec fn bcrypt_verify(password: Seq<char>, hash: Seq<char>) -> Result<bool, PasswordError>;

/// Whether `hash` is a hash of `password`: checking `password` against it
/// succeeds and says that they match.
pub open spec fn hash_accepts(password: Seq<char>, hash: Seq<char>) -> bool {
    bcrypt_verify(password, hash) == Ok::<bool, PasswordError>(true)
}

/// The cost field of a bcrypt hash made at `cost` (4 to 31): two digits and
/// the separating `$`.
pub open spec fn cost_field(cost: u32) -> Seq<char> {
    seq![digit_char((cost / 10) as nat), digit_char((cost % 10) as nat), '$']
}

/// Calls `bcrypt::hash`, which draws a random salt and hashes `password` at
/// `cost`. Claimed of it: a cost outside 4..=31 fails (with `CostNotAllowed`,
/// or `Random` when drawing the salt fails first); on success the hash is 60
/// characters starting with `$2b$` and the two-digit cost, and `bcrypt::verify` accepts `password`
/// against it (it parses cost and salt back out of the hash and recomputes
/// the same digest). The salt, and so the hash itself, is left unstated.
#[verifier::external_body]
fn bcrypt_hash(password: &str, cost: u32) -> (r: Result<String, PasswordError>)
    ensures
        r matches Ok(h) ==> {
            &&& 4 <= cost <= 31
            &&& h@.len() == 60
            &&& h@.subrange(0, 4) == "$2b$"@
            &&& h@.subrange(4, 7) == cost_field(cost)
            &&& hash_accepts(password@, h@)
        },
        r matches Err(e) ==> {
            ||| e == PasswordError::Random
            ||| (e == PasswordError::CostNotAllowed(cost) && !(4 <= cost <= 31))
        },
{
    match bcrypt::hash(password, cost) {
        Ok(h) => Ok(h),
        Err(bcrypt::BcryptError::CostNotAllowed(c)) => Err(PasswordError::CostNotAllowed(c)),
        Err(bcrypt::BcryptError::InvalidHash(m)) => Err(PasswordError::InvalidHash(m)),
        Err(bcrypt::BcryptError::Rand(_)) => Err(PasswordError::Random),
        Err(bcrypt::BcryptError::Truncation(n)) => Err(PasswordError::Truncation(n)),
    }
}

/// Calls `bcrypt::verify`, which checks `password` against the stored `hash`.
/// Claimed of it: its answer depends on the two strings alone, and is named
/// [`bcrypt_verify`]; what that answer is on given strings is left unstated.
#[verifier::external_body]
fn bcrypt_check(password: &str, hash: &str) -> (r: Result<bool, PasswordError>)
    ensures
        r == bcrypt_verify(password@, hash@),
{
    match bcrypt::verify(password, hash) {
        Ok(b) => Ok(b),
        Err(bcrypt::BcryptError::CostNotAllowed(c)) => Err(PasswordError::CostNotAllowed(c)),
        Err(bcrypt::BcryptError::InvalidHash(m)) => Err(PasswordError::InvalidHash(m)),
        Err(bcrypt::BcryptError::Rand(_)) => Err(PasswordError::Random),
        Err(bcrypt::BcryptError::Truncation(n)) => Err(PasswordError::Truncation(n)),
    }
}

/// What checking `password` against the first account row `(account_id,
/// stored_hash)` gives: the account id with whether the password matched.
pub open spec fn login_result(account_id: u64, stored_hash: Seq<char>, password: Seq<char>) -> Result<
    (u64, bool),
    PasswordError,
> {
    match bcrypt_verify(password, stored_hash) {
        Ok(b) => Ok((account_id, b)),
        Err(e) => Err(e),
    }
}

/// The outcome of a registration of `username` once hashing the password gave
/// `hashed`: a hash becomes the statement that stores the account under that
/// name with that hash; a hashing error is passed on unchanged.
pub fn registration_statement(username: &str, hashed: Result<String, PasswordError>) -> (r: Result<
    String,
    PasswordError,
>)
    ensures
        hashed matches Ok(h) ==> (r matches Ok(q) && q@ == insert_user_statement(username@, h@)),
        hashed matches Err(e) ==> (r matches Err(e2) && e2 == e),
{
    match hashed {
        Ok(h) => Ok(insert_user_query(username, h.as_str())),
        Err(e) => Err(e),
    }
}

/// Prepares the registration of `username` with `password`: hashes the
/// password at `cost` and returns the statement that stores the account.
pub fn register_account(username: &str, password: &str, cost: u32) -> (r: Result<String, PasswordError>)
    ensures
        r matches Ok(q) ==> exists|h: Seq<char>|
            {
                &&& q@ == insert_user_statement(username@, h)
                &&& h.len() == 60
                &&& h.subrange(0, 4) == "$2b$"@
                &&& h.subrange(4, 7) == cost_field(cost)
                &&& #[trigger] hash_accepts(password@, h)
            },
        r matches Err(e) ==> {
            ||| e == PasswordError::Random
            ||| (e == PasswordError::CostNotAllowed(cost) && !(4 <= cost <= 31))
        },
        !(4 <= cost <= 31) ==> r is Err,
{
    let hashed = bcrypt_hash(password, cost);
    proof {
        assert(hashed matches Ok(h) ==> hash_accepts(password@, h@));
    }
    registration_statement(username, hashed)
}

/// Checks a login of `password` against the account rows found for the
/// player's name, of which the first one counts. There must be one: the
/// player was asked to log in because the name has an account.
pub fn check_login(rows: &Vec<(u64, String)>, password: &str) -> (r: Result<(u64, bool), PasswordError>)
    requires
        rows@.len() > 0,
    ensures
        r == login_result(rows@[0].0, rows@[0].1@, password@),
{
    let account_id = rows[0].0;
    match bcrypt_check(password, rows[0].1.as_str()) {
        Ok(b) => Ok((account_id, b)),
        Err(e) => Err(e),
    }
}

/// Checking a password reports exactly what bcrypt answers, for the first
/// account row: a match or a mismatch comes back as that account with that
/// answer (a wrong password is a mismatch, not an error), and only a bcrypt
/// error is an error, passed on unchanged.
pub proof fn lemma_login_result_carries_bcrypt_answer(account_id: u64, stored_hash: Seq<char>, password: Seq<char>)
    ensures
        bcrypt_verify(password, stored_hash) == Ok::<bool, PasswordError>(true) ==> login_result(
            account_id,
            stored_hash,
            password,
        ) == Ok::<(u64, bool), PasswordError>((account_id, true)),
        bcrypt_verify(password, stored_hash) == Ok::<bool, PasswordError>(false) ==> login_result(
            account_id,
            stored_hash,
            password,
        ) == Ok::<(u64, bool), PasswordError>((account_id, false)),
        forall|e: PasswordError|
            bcrypt_verify(password, stored_hash) == Err::<bool, PasswordError>(e) ==> login_result(
                account_id,
                stored_hash,
                password,
            ) == Err::<(u64, bool), PasswordError>(e),
        login_result(account_id, stored_hash, password) is Ok <==> bcrypt_verify(password, stored_hash) is Ok,
{
}

/// A hash is accepted for a password exactly when bcrypt says they match.
pub proof fn lemma_hash_accepts_is_a_match(password: Seq<char>, hash: Seq<char>)
    ensures
        hash_accepts(password, hash) <==> bcrypt_verify(password, hash) == Ok::<bool, PasswordError>(true),
{
}

/// The cost field of a hash is the cost written as two decimal digits,
/// followed by `$`.
pub proof fn lemma_cost_field_is_two_digits(cost: u32)
    requires
        4 <= cost <= 31,
    ensures
        cost_field(cost).len() == 3,
        '0' <= cost_field(cost)[0] <= '9',
        '0' <= cost_field(cost)[1] <= '9',
        (cost_field(cost)[0] as int - '0' as int) * 10 + (cost_field(cost)[1] as int - '0' as int) == cost,
        cost_field(cost)[2] == '$',
{
    assert(cost / 10 <= 3);
}

/// A password logs in against the hash made of it at registration: when
/// `hash` is a hash of `password`, checking `password` against an account row
/// holding `hash` gives that account, matched.
pub proof fn lemma_registered_password_logs_in(password: Seq<char>, hash: Seq<char>, account_id: u64)
    requires
        hash_accepts(password, hash),
    ensures
        login_result(account_id, hash, password) == Ok::<(u64, bool), PasswordError>((account_id, true)),
{
}

/// The hash that a successful registration stores is accepted for the
/// registered password: in the statement, the field after the name holds
/// exactly that hash.
pub proof fn lemma_stored_hash_accepts_password(username: Seq<char>, password: Seq<char>, hash: Seq<char>)
    requires
        hash_accepts(password, hash),
    ensures
        ({
            let q = insert_user_statement(username, hash);
            let start = "INSERT INTO  User(username,password) VALUES(\n                            '"@.len()
                + username.len() + "',\n                            '"@.len();
            &&& q.subrange(start as int, (start + hash.len()) as int) == hash
            &&& hash_accepts(password, q.subrange(start as int, (start + hash.len()) as int))
        }),
{
    lemma_insert_user_statement_fields(username, hash);
}

} // verus!
