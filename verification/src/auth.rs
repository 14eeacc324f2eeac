//! Passwords and the rules for new accounts.

use vstd::prelude::*;
use crate::config::Accounts;
use crate::error::Error;

verus! {

/// Whether `password` is the password that the Argon2 hash string `stored`
/// was made from; false also where `stored` is no such string.
pub uninterp spec fn password_verifies(password: Seq<char>, stored: Seq<char>) -> bool;

/// `PasswordHash::new` and `Argon2::verify_password` with the default
/// context: parses `stored` as a PHC hash string, hashes `password` with
/// the salt and parameters found in it and compares the outputs.
#[verifier::external_body]
fn argon2_verify(password: &str, stored: &str) -> (ok: bool)
    ensures
        ok == password_verifies(password@, stored@),
{
    match argon2::PasswordHash::new(stored) {
        Ok(parsed) => argon2::PasswordVerifier::verify_password(
            &argon2::Argon2::default(),
            password.as_bytes(),
            &parsed,
        ).is_ok(),
        Err(_) => false,
    }
}

/// Whether the regular expression `pattern` matches somewhere in `text`;
/// `None` where `pattern` is no regular expression.
pub uninterp spec fn pattern_matches(pattern: Seq<char>, text: Seq<char>) -> Option<bool>;

/// `Regex::new` and `Regex::is_match`: compiles `pattern` and looks for a
/// match in `text`; a pattern that does not compile gives `None`.
#[verifier::external_body]
fn regex_is_match(pattern: &str, text: &str) -> (hit: Option<bool>)
    ensures
        hit == pattern_matches(pattern@, text@),
{
    match regex::Regex::new(pattern) {
        Ok(re) => Some(re.is_match(text)),
        Err(_) => None,
    }
}

/// Derives the hash string under which a password is stored, with a fresh
/// random salt: `Argon2::hash_password` with the default parameters on a
/// salt from `SaltString::generate`. The salt makes every result different;
/// what holds of each is that it verifies the password it was made from.
/// Hashing fails on more than 4 GiB of password, which the bound excludes;
/// the call panics where the system cannot supply random bytes.
#[verifier::external_body]
pub fn kdf(input: &str) -> (hash: String)
    requires
        input@.len() <= 0x3FFF_FFFF,
    ensures
        password_verifies(input@, hash@),
{
    let salt = argon2::password_hash::SaltString::generate(&mut argon2::password_hash::rand_core::OsRng);
    argon2::PasswordHasher::hash_password(&argon2::Argon2::default(), input.as_bytes(), &salt).unwrap().to_string()
}

/// The answer to a login attempt, given whether the password verified:
/// wrong passwords are refused without a word.
pub fn login_verdict(password_ok: bool) -> (verdict: Result<(), Error>)
    ensures
        password_ok ==> verdict is Ok,
        !password_ok ==> verdict matches Err(Error::Unauthorized),
{
    if password_ok {
        Ok(())
    } else {
        Err(Error::Unauthorized)
    }
}

/// Checks the password of a login attempt against the stored hash string.
pub fn check_login(password: &str, stored: &str) -> (verdict: Result<(), Error>)
    ensures
        password_verifies(password@, stored@) ==> verdict is Ok,
        !password_verifies(password@, stored@) ==> verdict matches Err(Error::Unauthorized),
{
    login_verdict(argon2_verify(password, stored))
}

/// Whether a registration's credentials meet the rules: the user name is
/// judged first; a credential that its rule does not match is a bad request
/// that names it; a rule that is no regular expression is an internal
/// failure.
pub open spec fn registration_gives(
    username: Option<bool>,
    password: Option<bool>,
    verdict: Result<(), Error>,
) -> bool {
    match username {
        None => verdict matches Err(Error::Internal(why)) && why@ == "Invalid username rule"@,
        Some(false) => verdict matches Err(Error::BadRequest(why)) && why@
            == "Username does not meet requirements"@,
        Some(true) => match password {
            None => verdict matches Err(Error::Internal(why)) && why@ == "Invalid password rule"@,
            Some(false) => verdict matches Err(Error::BadRequest(why)) && why@
                == "Password does not meet requirements"@,
            Some(true) => verdict is Ok,
        },
    }
}

/// The answer to a registration, given what became of holding the user name
/// to its rule.
pub fn username_verdict(username: Option<bool>) -> (verdict: Result<(), Error>)
    ensures
        registration_gives(username, Some(true), verdict),
{
    match username {
        None => Err(Error::Internal(String::from_str("Invalid username rule"))),
        Some(false) => Err(Error::BadRequest(String::from_str("Username does not meet requirements"))),
        Some(true) => Ok(()),
    }
}

/// The answer to a registration whose user name meets its rule, given what
/// became of holding the password to its rule.
pub fn password_verdict(password: Option<bool>) -> (verdict: Result<(), Error>)
    ensures
        registration_gives(Some(true), password, verdict),
{
    match password {
        None => Err(Error::Internal(String::from_str("Invalid password rule"))),
        Some(false) => Err(Error::BadRequest(String::from_str("Password does not meet requirements"))),
        Some(true) => Ok(()),
    }
}

/// Holds the credentials of a registration to the rules for accounts. The
/// password is looked at only where the user name has passed.
pub fn validate_registration(accounts: &Accounts, username: &str, password: &str) -> (verdict: Result<(), Error>)
    ensures
        registration_gives(
            pattern_matches(accounts.username_regex@, username@),
            pattern_matches(accounts.password_regex@, password@),
            verdict,
        ),
{
    match username_verdict(regex_is_match(accounts.username_regex.as_str(), username)) {
        Err(e) => Err(e),
        Ok(_) => password_verdict(regex_is_match(accounts.password_regex.as_str(), password)),
    }
}

} // verus!
