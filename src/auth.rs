use vstd::prelude::*;
use crate::text::prefixed;
use crate::envelope::DatabaseResult;
use crate::text::{push_char, signed_decimal, decimal_of_i64};

verus! {

/// Whether a password matches a stored bcrypt hash, or `None` where the hash
/// cannot be read (a bad prefix, cost or encoding).
pub uninterp spec fn bcrypt_verdict(password: Seq<char>, hash: Seq<char>) -> Option<bool>;

/// Relies on bcrypt::hash at bcrypt::DEFAULT_COST. The salt is drawn at random;
/// the text is the 60-character modular crypt form (`$2b$`, two cost digits,
/// `$`, 22 characters of salt and 31 of hash). The error is given as its
/// description.
#[verifier::external_body]
fn bcrypt_hash(password: &String) -> (r: Result<String, String>)
    ensures
        r is Ok ==> r->Ok_0@.len() == 60,
{
    bcrypt::hash(password.as_bytes(), bcrypt::DEFAULT_COST).map_err(|e| e.to_string())
}

/// Relies on bcrypt::verify: the verdict depends on the password and the hash
/// alone; the error is given as its description.
#[verifier::external_body]
fn bcrypt_verify(password: &String, hash: &String) -> (r: Result<bool, String>)
    ensures
        r is Ok <==> bcrypt_verdict(password@, hash@) is Some,
        r is Ok ==> bcrypt_verdict(password@, hash@) == Some(r->Ok_0),
{
    bcrypt::verify(password.as_bytes(), hash.as_str()).map_err(|e| e.to_string())
}

/// Relies on uuid::Uuid::new_v4 and its hyphenated text form, which is 36
/// characters long.
#[verifier::external_body]
fn random_uuid_text() -> (r: String)
    ensures
        r@.len() == 36,
{
    uuid::Uuid::new_v4().to_string()
}

/// Relies on chrono::Utc::now, as whole seconds since the Unix epoch.
#[verifier::external_body]
fn unix_now() -> (r: i64) {
    chrono::Utc::now().timestamp()
}

#[derive(Debug, PartialEq, Eq)]
pub struct PasswordHash {
    pub hash: String,
}

#[derive(Debug, PartialEq, Eq, Clone, Copy)]
pub struct PasswordCheck {
    pub is_valid: bool,
}

#[derive(Debug, PartialEq, Eq)]
pub struct AuthToken {
    pub token: String,
}

/// The answer to a hashing request, from what hashing gave.
pub fn hash_outcome(result: Result<String, String>) -> (r: DatabaseResult<PasswordHash>)
    ensures
        r.wf(),
        r.success == result is Ok,
        result is Ok ==> r.data->Some_0.hash == result->Ok_0,
        result is Err ==> r.error->Some_0@ == "Password hashing error: "@ + result->Err_0@,
{
    match result {
        Ok(hash) => DatabaseResult::success(PasswordHash { hash }),
        Err(e) => DatabaseResult::error(prefixed("Password hashing error: ", &e)),
    }
}

/// The answer to a verification request, from what verifying gave.
pub fn verify_outcome(result: Result<bool, String>) -> (r: DatabaseResult<PasswordCheck>)
    ensures
        r.wf(),
        r.success == result is Ok,
        result is Ok ==> r.data == Some(PasswordCheck { is_valid: result->Ok_0 }),
        result is Err ==> r.error->Some_0@ == "Password verification error: "@ + result->Err_0@,
{
    match result {
        Ok(is_valid) => DatabaseResult::success(PasswordCheck { is_valid }),
        Err(e) => DatabaseResult::error(prefixed("Password verification error: ", &e)),
    }
}

/// The token text: an identifier, a dash, and the issue time in seconds.
pub open spec fn token_text(id: Seq<char>, issued_at: int) -> Seq<char> {
    id + seq!['-'] + signed_decimal(issued_at)
}

/// The token made of an identifier and an issue time.
pub fn token_from(id: &String, issued_at: i64) -> (r: String)
    ensures
        r@ == token_text(id@, issued_at as int),
{
    let mut s = id.clone();
    push_char(&mut s, '-');
    let t = decimal_of_i64(issued_at);
    s.append(t.as_str());
    s
}

/// Hashes a password with a fresh random salt.
pub fn auth_hash_password(password: String) -> (r: DatabaseResult<PasswordHash>)
    ensures
        r.wf(),
        r.success ==> r.data->Some_0.hash@.len() == 60,
        !r.success ==> exists|d: Seq<char>|
            r.error->Some_0@ == #[trigger] ("Password hashing error: "@ + d),
{
    hash_outcome(bcrypt_hash(&password))
}

/// Checks a password against a stored hash: succeeds exactly where the hash
/// can be read, and then says whether the password matches it.
pub fn auth_verify_password(password: String, hash: String) -> (r: DatabaseResult<PasswordCheck>)
    ensures
        r.wf(),
        r.success == bcrypt_verdict(password@, hash@) is Some,
        r.success ==> r.data == Some(PasswordCheck { is_valid: bcrypt_verdict(password@, hash@)->Some_0 }),
{
    verify_outcome(bcrypt_verify(&password, &hash))
}

/// Issues an opaque token: a random identifier and the present time.
pub fn auth_generate_token(user_id: String, email: String) -> (r: DatabaseResult<AuthToken>)
    ensures
        r.wf(),
        r.success,
        exists|id: Seq<char>, t: int| id.len() == 36
            && #[trigger] token_text(id, t) == r.data->Some_0.token@,
{
    let id = random_uuid_text();
    let t = unix_now();
    let token = token_from(&id, t);
    DatabaseResult::success(AuthToken { token })
}

} // verus!
