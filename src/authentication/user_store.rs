//! Stored credential records and the lookup of a record by username.
use vstd::prelude::*;

use crate::authentication::hash_password;

verus! {

/// A stored credential record: the hash is computed over the password
/// followed by the salt.
#[derive(Debug)]
pub struct User {
    pub username: String,
    pub hash: String,
    pub salt: String,
}

/// Resolves a username to its credential record.
pub trait UserStore {
    fn get_user_by_username(&self, username: &str) -> (r: Result<User, String>)
        ensures
            r is Ok ==> r->Ok_0.username@ == username@,
    ;
}

pub const KNOWN_USER_NAME: &'static str = "test_user";

pub const KNOWN_PASSWORD: &'static str = "password";

pub const KNOWN_SALT: &'static str = "salt";

pub const ERROR_NO_SUCH_USER: &'static str = "no such user";

/// A store that holds one user, `test_user`, whose password is `password`.
pub struct UserStoreFake;

impl UserStore for UserStoreFake {
    fn get_user_by_username(&self, username: &str) -> (r: Result<User, String>)
        ensures
            r is Ok <==> username@ == KNOWN_USER_NAME@,
            r is Ok ==> r->Ok_0.salt@ == KNOWN_SALT@,
            r is Ok ==> crate::authentication::matches_record(r->Ok_0, KNOWN_PASSWORD@),
            r is Err ==> r->Err_0@ == ERROR_NO_SUCH_USER@,
    {
        if String::from_str(username) != String::from_str(KNOWN_USER_NAME) {
            return Err(String::from_str(ERROR_NO_SUCH_USER));
        }
        let salt = String::from_str(KNOWN_SALT);
        let mut salted = String::from_str(KNOWN_PASSWORD);
        salted.append(salt.as_str());
        proof {
            reveal_strlit("password");
            reveal_strlit("salt");
        }
        let hash = hash_password(salted.as_str());
        Ok(User { username: String::from_str(KNOWN_USER_NAME), hash, salt })
    }
}

} // verus!
