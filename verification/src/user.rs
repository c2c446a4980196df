//! User accounts: the stored record, the registration and login
//! changesets with their validation rules, and the preparation of a
//! new account record with a hashed password.

use vstd::prelude::*;
use vstd::string::{StrSliceExecFns, StringExecFns};
use vstd::utf8::encode_utf8;

use argon2::PasswordHasher;

use crate::error::Error;
use crate::validation::{email_is_valid, is_valid_email};

verus! {

/// A stored user account.
#[derive(Clone)]
pub struct User {
    pub id: i64,
    pub email: String,
    pub password_hash: String,
}

/// A changeset for creating a new user account.
pub struct RegisterUser {
    pub email: String,
    pub password: String,
    pub confirm_password: String,
}

/// Credentials presented at login, with an optional redirect target.
pub struct UserCredentials {
    pub email: String,
    pub password: String,
    pub next: Option<String>,
}

/// The data inserted for a new account: the address and the password
/// hash — never the password itself.
pub struct NewUser {
    pub email: String,
    pub password_hash: String,
}

/// The first rule a registration changeset breaks, with its message,
/// or `None` when it is acceptable: the email must be well-formed, the
/// password at least 8 characters, and the confirmation equal to the
/// password.
pub open spec fn register_user_issue(
    email: Seq<char>,
    password: Seq<char>,
    confirm: Seq<char>,
) -> Option<Seq<char>> {
    if !is_valid_email(email) {
        Some("Must be a valid email address"@)
    } else if password.len() < 8 {
        Some("password must be at least 8 characters"@)
    } else if confirm != password {
        Some("passwords do not match"@)
    } else {
        None
    }
}

/// The first rule a login changeset breaks, with its message, or
/// `None`: the email must be well-formed and the password at least 8
/// characters.
pub open spec fn credentials_issue(email: Seq<char>, password: Seq<char>) -> Option<Seq<char>> {
    if !is_valid_email(email) {
        Some("Must be a valid email address"@)
    } else if password.len() < 8 {
        Some("password must be at least 8 characters"@)
    } else {
        None
    }
}

impl RegisterUser {
    /// Checks the changeset; rejected input carries the broken rule's
    /// message.
    pub fn validate(&self) -> (r: Result<(), Error>)
        ensures
            match r {
                Ok(()) => register_user_issue(
                    self.email@,
                    self.password@,
                    self.confirm_password@,
                ) is None,
                Err(e) => match e {
                    Error::Validation(m) => Some(m@) == register_user_issue(
                        self.email@,
                        self.password@,
                        self.confirm_password@,
                    ),
                    _ => false,
                },
            },
    {
        if !email_is_valid(self.email.as_str()) {
            return Err(Error::Validation(String::from_str("Must be a valid email address")));
        }
        if self.password.as_str().unicode_len() < 8 {
            return Err(
                Error::Validation(String::from_str("password must be at least 8 characters")),
            );
        }
        if !crate::text::str_eq(self.confirm_password.as_str(), self.password.as_str()) {
            return Err(Error::Validation(String::from_str("passwords do not match")));
        }
        Ok(())
    }
}

impl UserCredentials {
    /// Checks the credentials; rejected input carries the broken
    /// rule's message.
    pub fn validate(&self) -> (r: Result<(), Error>)
        ensures
            match r {
                Ok(()) => credentials_issue(self.email@, self.password@) is None,
                Err(e) => match e {
                    Error::Validation(m) => Some(m@) == credentials_issue(
                        self.email@,
                        self.password@,
                    ),
                    _ => false,
                },
            },
    {
        if !email_is_valid(self.email.as_str()) {
            return Err(Error::Validation(String::from_str("Must be a valid email address")));
        }
        if self.password.as_str().unicode_len() < 8 {
            return Err(
                Error::Validation(String::from_str("password must be at least 8 characters")),
            );
        }
        Ok(())
    }
}

/// Relies on argon2's `PasswordHasher::hash_password` with the default
/// Argon2id parameters and a random salt: returns the PHC-format hash
/// string. The result depends on the random salt, so nothing is stated
/// about it.
#[verifier::external_body]
fn generate_password_hash(password: &str) -> (r: Result<String, ()>) {
    match argon2::Argon2::default().hash_password(password.as_bytes()) {
        Ok(h) => Ok(h.to_string()),
        Err(_) => Err(()),
    }
}

impl User {
    /// The record's id.
    pub fn id(&self) -> (r: i64)
        ensures
            r == self.id,
    {
        self.id
    }

    /// The bytes a session is authenticated against: the password
    /// hash, so that changing the password invalidates sessions.
    pub fn session_auth_hash(&self) -> (r: &[u8])
        ensures
            r@ == encode_utf8(self.password_hash@),
    {
        self.password_hash.as_str().as_bytes()
    }

    /// Validates a registration changeset and prepares the record to
    /// insert: the given email with a salted hash of the password.
    /// Rejected input surfaces its validation message; a hashing
    /// failure surfaces as an internal error.
    pub fn create(user: RegisterUser) -> (r: Result<NewUser, Error>)
        ensures
            match r {
                Ok(nu) => {
                    &&& register_user_issue(
                        user.email@,
                        user.password@,
                        user.confirm_password@,
                    ) is None
                    &&& nu.email@ == user.email@
                },
                Err(e) => match e {
                    Error::Validation(m) => Some(m@) == register_user_issue(
                        user.email@,
                        user.password@,
                        user.confirm_password@,
                    ),
                    Error::PasswordHash => register_user_issue(
                        user.email@,
                        user.password@,
                        user.confirm_password@,
                    ) is None,
                    _ => false,
                },
            },
    {
        match user.validate() {
            Ok(()) => {},
            Err(e) => {
                return Err(e);
            },
        }
        match generate_password_hash(user.password.as_str()) {
            Ok(password_hash) => Ok(NewUser { email: user.email, password_hash }),
            Err(()) => Err(Error::PasswordHash),
        }
    }
}

} // verus!
