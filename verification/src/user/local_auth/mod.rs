//! Password login.
//!
//! A [`LocalAuth`] is the record of a user's password. It is good for one
//! thing: to log that user in.

pub mod password;

pub use self::password::{
    CreationError, PlaintextPassword, ValidatedPassword, ValidationError, VerificationError,
};
use self::password::{Create, Password, Verify};
use crate::timestamp::{now, Timestamp};
use crate::user::{AuthenticatedUser, UnauthenticatedUser, UserLike};
use vstd::prelude::*;

verus! {

/// What the record of a user's password holds.
pub struct LocalAuthView {
    pub id: i32,
    pub password: Seq<char>,
    pub user_id: i32,
    pub created_at: Timestamp,
}

/// A user's password as the `local_auth` table records it.
pub struct LocalAuth {
    id: i32,
    password: Password,
    user_id: i32,
    created_at: Timestamp,
}

impl View for LocalAuth {
    type V = LocalAuthView;

    closed spec fn view(&self) -> LocalAuthView {
        LocalAuthView {
            id: self.id,
            password: self.password@,
            user_id: self.user_id,
            created_at: self.created_at,
        }
    }
}

impl LocalAuth {
    /// The record with these values.
    pub fn new(id: i32, password: Password, user_id: i32, created_at: Timestamp) -> (made:
        LocalAuth)
        ensures
            made@ == (LocalAuthView { id, password: password@, user_id, created_at }),
    {
        LocalAuth { id, password, user_id, created_at }
    }

    /// The record's id.
    pub fn id(&self) -> (r: i32)
        ensures
            r == self@.id,
    {
        self.id
    }

    /// When the password was recorded.
    pub fn created_at(&self) -> (r: Timestamp)
        ensures
            r == self@.created_at,
    {
        self.created_at
    }

    /// The id of the user whose password this is.
    pub fn user_id(&self) -> (r: i32)
        ensures
            r == self@.user_id,
    {
        self.user_id
    }

    /// The stored hash.
    pub fn password(&self) -> (r: &Password)
        ensures
            r@ == self@.password,
    {
        &self.password
    }

    /// Logs a user in with this password record.
    ///
    /// The record has to be the user's own; a record of another user is
    /// turned down with [`VerificationError::Process`] before any password
    /// is looked at. Then the candidate is checked against the hash, and
    /// where it matches the user comes back authenticated.
    pub(crate) fn log_in(self, user: UnauthenticatedUser, password: PlaintextPassword) -> (r:
        Result<AuthenticatedUser, VerificationError>)
        ensures
            match crate::user::log_in_outcome(user@, self@, password@) {
                Ok(()) => r matches Ok(authenticated) && authenticated@ == user@,
                Err(e) => r matches Err(got) && got == e,
            },
    {
        if self.user_id != user.id() {
            return Err(VerificationError::Process);
        }
        match self.password.verify(password) {
            Err(e) => Err(e),
            Ok(()) => Ok(
                AuthenticatedUser::authenticated(
                    user.id(),
                    user.primary_email(),
                    user.created_at(),
                ),
            ),
        }
    }

    /// A second record with the same values.
    pub fn duplicate(&self) -> (copy: LocalAuth)
        ensures
            copy@ == self@,
    {
        LocalAuth {
            id: self.id,
            password: self.password.duplicate(),
            user_id: self.user_id,
            created_at: self.created_at,
        }
    }
}

/// What a [`NewLocalAuth`] holds.
pub struct NewLocalAuthView {
    pub password: Seq<char>,
    pub created_at: Timestamp,
    pub user_id: i32,
}

/// A password that is about to be recorded for a user.
pub struct NewLocalAuth {
    password: Password,
    created_at: Timestamp,
    user_id: i32,
}

impl View for NewLocalAuth {
    type V = NewLocalAuthView;

    closed spec fn view(&self) -> NewLocalAuthView {
        NewLocalAuthView {
            password: self.password@,
            created_at: self.created_at,
            user_id: self.user_id,
        }
    }
}

/// What validating a password and confirming it against a second entry
/// gives: the objection of the standard policy, or the mismatch.
pub open spec fn double_entry_objection(first: Seq<char>, second: Seq<char>) -> Option<
    ValidationError,
> {
    match password::PasswordPolicy::standard_spec().objection(first) {
        Some(e) => Some(e),
        None => if first == second {
            None
        } else {
            Some(ValidationError::Mismatch)
        },
    }
}

impl NewLocalAuth {
    /// Validates a password and hashes it for a user.
    ///
    /// A password that the standard policy turns down gives the error that
    /// carries the policy's objection. Otherwise the password is hashed;
    /// where that works, the record belongs to the user and its hash
    /// accepts the password.
    pub fn new<U: UserLike>(user: &U, password: PlaintextPassword) -> (r: Result<
        NewLocalAuth,
        CreationError,
    >)
        ensures
            match password::PasswordPolicy::standard_spec().objection(password@) {
                Some(e) => r matches Err(got) && got == CreationError::validation(e),
                None => match r {
                    Ok(made) => made@.user_id == user.profile().id
                        && password::bcrypt_verdict(password@, made@.password) == Some(true),
                    Err(got) => got == CreationError::hashing(),
                },
            },
    {
        match password.validate() {
            Err(e) => Err(CreationError { rejected: Some(e) }),
            Ok(validated) => NewLocalAuth::create(user, validated),
        }
    }

    /// Validates a password that was entered twice and hashes it for a
    /// user. The second entry has to repeat the first exactly.
    pub fn new_from_two<U: UserLike>(
        user: &U,
        password: PlaintextPassword,
        password2: PlaintextPassword,
    ) -> (r: Result<NewLocalAuth, CreationError>)
        ensures
            match double_entry_objection(password@, password2@) {
                Some(e) => r matches Err(got) && got == CreationError::validation(e),
                None => match r {
                    Ok(made) => made@.user_id == user.profile().id
                        && password::bcrypt_verdict(password@, made@.password) == Some(true),
                    Err(got) => got == CreationError::hashing(),
                },
            },
    {
        match password.validate() {
            Err(e) => Err(CreationError { rejected: Some(e) }),
            Ok(validated) => match validated.compare(password2) {
                Err(e) => Err(CreationError { rejected: Some(e) }),
                Ok(confirmed) => NewLocalAuth::create(user, confirmed),
            },
        }
    }

    /// The record of a password that was hashed at the given time.
    pub fn hashed<U: UserLike>(user: &U, password: Password, created_at: Timestamp) -> (made:
        NewLocalAuth)
        ensures
            made@ == (NewLocalAuthView {
                password: password@,
                created_at,
                user_id: user.profile().id,
            }),
    {
        NewLocalAuth { password, created_at, user_id: user.id() }
    }

    fn create<U: UserLike>(user: &U, password: ValidatedPassword) -> (r: Result<
        NewLocalAuth,
        CreationError,
    >)
        ensures
            match r {
                Ok(made) => made@.user_id == user.profile().id && password::bcrypt_verdict(
                    password@,
                    made@.password,
                ) == Some(true),
                Err(got) => got == CreationError::hashing(),
            },
    {
        match Password::create(password) {
            Err(e) => Err(e),
            Ok(hashed) => Ok(NewLocalAuth::hashed(user, hashed, now())),
        }
    }

    /// The id of the user whose password this is.
    pub fn user_id(&self) -> (r: i32)
        ensures
            r == self@.user_id,
    {
        self.user_id
    }

    /// When the password was hashed.
    pub fn created_at(&self) -> (r: Timestamp)
        ensures
            r == self@.created_at,
    {
        self.created_at
    }

    /// The hash to store.
    pub fn password(&self) -> (r: &Password)
        ensures
            r@ == self@.password,
    {
        &self.password
    }

    /// The record that stands once this password is stored under `id`.
    pub(crate) fn into_record(self, id: i32) -> (record: LocalAuth)
        ensures
            record@ == (LocalAuthView {
                id,
                password: self@.password,
                user_id: self@.user_id,
                created_at: self@.created_at,
            }),
    {
        LocalAuth {
            id,
            password: self.password,
            user_id: self.user_id,
            created_at: self.created_at,
        }
    }
}

} // verus!
