//! Checking a user's password against the stored salted hash.
pub mod user_store;

use vstd::prelude::*;

use password_auth::VerifyError;

use crate::authentication::user_store::{User, UserStore};

verus! {

#[verifier::external_type_specification]
#[verifier::external_body]
pub struct ExVerifyError(password_auth::VerifyError);

/// Whether `password` verifies against the PHC hash string `hash`.
pub uninterp spec fn password_verifies(password: Seq<char>, hash: Seq<char>) -> bool;

/// Relies on password_auth::verify_password: `Ok` exactly when the password
/// verifies against the hash string, which depends on the two arguments alone.
#[verifier::external_body]
fn check_password_hash(password: &str, hash: &str) -> (r: Result<(), VerifyError>)
    ensures
        r is Ok <==> password_verifies(password@, hash@),
{
    password_auth::verify_password(password, hash)
}

/// Relies on password_auth::generate_hash: a hash under a fresh random salt of
/// its own, which verify_password accepts for the same password. Of its
/// inputs, only a password of more than 2^32 - 1 bytes makes it panic; it
/// also panics if the operating system's random source fails.
#[verifier::external_body]
pub(crate) fn hash_password(password: &str) -> (r: String)
    requires
        password@.len() <= 0x3fff_ffff,
    ensures
        password_verifies(password@, r@),
{
    password_auth::generate_hash(password)
}

pub const ERROR_INCORRECT_USER_NAME_OR_PASSWORD: &'static str = "incorrect username or password";

/// The one message that every failed authentication carries.
pub open spec fn incorrect_credentials_message() -> Seq<char> {
    ERROR_INCORRECT_USER_NAME_OR_PASSWORD@
}

/// What a password is checked against: the password followed by the salt.
pub open spec fn salted(password: Seq<char>, salt: Seq<char>) -> Seq<char> {
    password + salt
}

/// Whether `password` is the password of the stored record `user`.
pub open spec fn matches_record(user: User, password: Seq<char>) -> bool {
    password_verifies(salted(password, user.salt@), user.hash@)
}

/// The outcome of authenticating `password` against the result of a lookup:
/// a missing record and a wrong password give the same error.
pub open spec fn authentication_outcome(found: Result<User, String>, password: Seq<char>) -> Result<
    (),
    Seq<char>,
> {
    match found {
        Ok(user) => if matches_record(user, password) {
            Ok(())
        } else {
            Err(incorrect_credentials_message())
        },
        Err(_) => Err(incorrect_credentials_message()),
    }
}

/// Checks `password`, followed by the record's salt, against the record's hash.
pub fn verify_password(user: User, password: &str) -> (r: Result<(), VerifyError>)
    ensures
        r is Ok <==> matches_record(user, password@),
{
    let mut with_salt = String::from_str(password);
    with_salt.append(user.salt.as_str());
    check_password_hash(with_salt.as_str(), user.hash.as_str())
}

/// Decides an authentication from the result of the record lookup and the
/// supplied password, without telling an unknown user from a wrong password.
pub fn authenticate_user(found: Result<User, String>, password: &str) -> (r: Result<(), String>)
    ensures
        match r {
            Ok(()) => authentication_outcome(found, password@) == Ok::<(), Seq<char>>(()),
            Err(e) => authentication_outcome(found, password@) == Err::<(), Seq<char>>(e@),
        },
{
    match found {
        Ok(user) => match verify_password(user, password) {
            Ok(_) => Ok(()),
            Err(_) => Err(String::from_str(ERROR_INCORRECT_USER_NAME_OR_PASSWORD)),
        },
        Err(_) => Err(String::from_str(ERROR_INCORRECT_USER_NAME_OR_PASSWORD)),
    }
}

/// A source of the username and password to check.
pub trait InputReader {
    fn get_username_and_password(&self) -> (String, String);
}

/// Whether `r` is what `authenticate_user` gives for the lookup result
/// `found` and the password `password`.
pub open spec fn is_outcome_of(
    r: Result<(), String>,
    found: Result<User, String>,
    password: Seq<char>,
) -> bool {
    match r {
        Ok(()) => authentication_outcome(found, password) == Ok::<(), Seq<char>>(()),
        Err(e) => authentication_outcome(found, password) == Err::<(), Seq<char>>(e@),
    }
}

/// Reads the credentials, looks the user up and checks the password. The
/// result is what `authenticate_user` gives for a lookup result and a
/// password (those read, which the two traits leave unspecified); every
/// failure carries the same message.
pub fn authenticate<I: InputReader, U: UserStore>(input_reader: &I, user_store: &U) -> (r: Result<
    (),
    String,
>)
    ensures
        exists|found: Result<User, String>, password: Seq<char>|
            #[trigger] is_outcome_of(r, found, password),
        r is Err ==> r->Err_0@ == incorrect_credentials_message(),
{
    let (user_name, password) = input_reader.get_username_and_password();
    let found = user_store.get_user_by_username(user_name.as_str());
    let ghost looked_up = found;
    let r = authenticate_user(found, password.as_str());
    proof {
        assert(is_outcome_of(r, looked_up, password@));
    }
    r
}

/// A password whose salted form verifies against the stored hash is accepted.
pub proof fn lemma_matching_password_accepted(user: User, password: Seq<char>)
    requires
        password_verifies(salted(password, user.salt@), user.hash@),
    ensures
        authentication_outcome(Ok(user), password) == Ok::<(), Seq<char>>(()),
{
}

/// A password whose salted form does not verify against the stored hash is
/// rejected, with the one generic message.
pub proof fn lemma_non_matching_password_rejected(user: User, password: Seq<char>)
    requires
        !password_verifies(salted(password, user.salt@), user.hash@),
    ensures
        authentication_outcome(Ok(user), password) == Err::<(), Seq<char>>(
            incorrect_credentials_message(),
        ),
{
}

/// An unknown username and a known username with a wrong password give the
/// very same error.
pub proof fn lemma_failures_indistinguishable(
    missing: String,
    name_password: Seq<char>,
    user: User,
    wrong_password: Seq<char>,
)
    requires
        !matches_record(user, wrong_password),
    ensures
        authentication_outcome(Err(missing), name_password) == authentication_outcome(
            Ok(user),
            wrong_password,
        ),
        authentication_outcome(Err(missing), name_password) == Err::<(), Seq<char>>(
            incorrect_credentials_message(),
        ),
{
}

} // verus!
