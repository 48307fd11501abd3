//! Users, their credentials, and the states a user passes through.
//!
//! A user is never one record with a flag. Each state is a type of its own,
//! and a value of a type is the evidence that the check leading to it has
//! been made: an [`UnauthenticatedUser`] has been looked up, nothing more.

pub mod email;
pub mod local_auth;
pub mod permissions;
pub mod role;

use self::email::{
    EmailVerificationToken, EmailView, UnverifiedEmail, VerifiedEmail, VerifiedEmailView,
    VerifyEmail,
};
use self::local_auth::password::{bcrypt_verdict, outcome_of_verdict};
use self::local_auth::LocalAuth;
pub use self::local_auth::{LocalAuthView, PlaintextPassword, VerificationError};
use self::permissions::{
    after_grant, grant_result, grant_role_at, lemma_grant_keeps_rules,
    lemma_granted_role_is_held_once,
};
pub use self::permissions::{PermissionError, PermissionResult, PermissionedUser};
use crate::sql_types::Role;
use crate::store::{Store, StoreError, StoreView};
use crate::timestamp::{now, Timestamp};
use vstd::prelude::*;

verus! {

/// What is known of a user in any state.
pub struct UserView {
    pub id: i32,
    pub created_at: Timestamp,
    pub primary_email: Option<i32>,
}

/// What every representation of a user can tell.
pub trait UserLike {
    /// The user's record, as far as this representation shows it.
    spec fn profile(&self) -> UserView;

    /// The user's id.
    fn id(&self) -> (r: i32)
        ensures
            r == self.profile().id,
    ;

    /// The id of the user's primary email address, if one is set and this
    /// representation may show it.
    fn primary_email(&self) -> (r: Option<i32>)
        ensures
            r == self.profile().primary_email,
    ;

    /// When the user was recorded.
    fn created_at(&self) -> (r: Timestamp)
        ensures
            r == self.profile().created_at,
    ;

    /// Whether the user has confirmed an email address.
    fn is_verified(&self, store: &Store) -> (b: bool)
        ensures
            b == store@.has_role(self.profile().id, Role::Verified),
    {
        self.has_role(Role::Verified, store)
    }

    /// Whether the user moderates the instance.
    fn is_moderator(&self, store: &Store) -> (b: bool)
        ensures
            b == store@.has_role(self.profile().id, Role::Moderator),
    {
        self.has_role(Role::Moderator, store)
    }

    /// Whether the user administers the instance.
    fn is_admin(&self, store: &Store) -> (b: bool)
        ensures
            b == store@.has_role(self.profile().id, Role::Admin),
    {
        self.has_role(Role::Admin, store)
    }

    /// Whether the user holds a role: whether a grant to the user names
    /// the record of that role.
    fn has_role(&self, name: Role, store: &Store) -> (b: bool)
        ensures
            b == store@.has_role(self.profile().id, name),
    {
        store.has_role(self.id(), name)
    }
}

/// Why a verified address and its user were not stored.
#[derive(Clone, Copy, Debug, PartialEq, Eq, Structural)]
pub enum UserVerifyError {
    /// The store turned a step down.
    Store(StoreError),
    /// The address belongs to another user.
    IdMismatch,
}

/// Why a field of a user was not updated.
#[derive(Clone, Copy, Debug, PartialEq, Eq, Structural)]
pub enum UpdateFieldError {
    /// The store turned the update down.
    Store(StoreError),
    /// The records handed in do not belong together.
    Relation,
}

impl UserVerifyError {
    /// The error of storing a verification that stands for an error of
    /// updating a field.
    pub open spec fn of_update(e: UpdateFieldError) -> UserVerifyError {
        match e {
            UpdateFieldError::Store(cause) => UserVerifyError::Store(cause),
            UpdateFieldError::Relation => UserVerifyError::IdMismatch,
        }
    }

    /// Carries an error of updating a field over.
    pub fn from_update(e: UpdateFieldError) -> (r: UserVerifyError)
        ensures
            r == UserVerifyError::of_update(e),
    {
        match e {
            UpdateFieldError::Store(cause) => UserVerifyError::Store(cause),
            UpdateFieldError::Relation => UserVerifyError::IdMismatch,
        }
    }

    /// What to tell a reader about this error.
    pub fn message(&self) -> (text: &'static str)
        ensures
            text@ == (match self {
                UserVerifyError::Store(_) => "Error in the store"@,
                UserVerifyError::IdMismatch => "Cannot verify user with other user's ID"@,
            }),
    {
        match self {
            UserVerifyError::Store(_) => "Error in the store",
            UserVerifyError::IdMismatch => "Cannot verify user with other user's ID",
        }
    }
}

impl From<StoreError> for UserVerifyError {
    fn from(e: StoreError) -> (r: UserVerifyError) {
        UserVerifyError::Store(e)
    }
}

impl vstd::std_specs::convert::FromSpecImpl<StoreError> for UserVerifyError {
    open spec fn obeys_from_spec() -> bool {
        true
    }

    open spec fn from_spec(e: StoreError) -> UserVerifyError {
        UserVerifyError::Store(e)
    }
}

impl From<UpdateFieldError> for UserVerifyError {
    fn from(e: UpdateFieldError) -> (r: UserVerifyError) {
        UserVerifyError::from_update(e)
    }
}

impl vstd::std_specs::convert::FromSpecImpl<UpdateFieldError> for UserVerifyError {
    open spec fn obeys_from_spec() -> bool {
        true
    }

    open spec fn from_spec(e: UpdateFieldError) -> UserVerifyError {
        UserVerifyError::of_update(e)
    }
}

impl From<StoreError> for UpdateFieldError {
    fn from(e: StoreError) -> (r: UpdateFieldError) {
        UpdateFieldError::Store(e)
    }
}

impl vstd::std_specs::convert::FromSpecImpl<StoreError> for UpdateFieldError {
    open spec fn obeys_from_spec() -> bool {
        true
    }

    open spec fn from_spec(e: StoreError) -> UpdateFieldError {
        UpdateFieldError::Store(e)
    }
}

impl UpdateFieldError {
    /// What to tell a reader about this error.
    pub fn message(&self) -> (text: &'static str)
        ensures
            text@ == (match self {
                UpdateFieldError::Store(_) => "Error updating record"@,
                UpdateFieldError::Relation => "Provided records are not related"@,
            }),
    {
        match self {
            UpdateFieldError::Store(_) => "Error updating record",
            UpdateFieldError::Relation => "Provided records are not related",
        }
    }
}

/// A user as the `users` table records it.
#[derive(Clone, Copy, Debug)]
pub struct QueriedUser {
    id: i32,
    created_at: Timestamp,
    primary_email: Option<i32>,
}

impl View for QueriedUser {
    type V = UserView;

    closed spec fn view(&self) -> UserView {
        UserView { id: self.id, created_at: self.created_at, primary_email: self.primary_email }
    }
}

impl QueriedUser {
    /// The record with these values.
    pub fn new(id: i32, created_at: Timestamp, primary_email: Option<i32>) -> (made: QueriedUser)
        ensures
            made@ == (UserView { id, created_at, primary_email }),
    {
        QueriedUser { id, created_at, primary_email }
    }
}

impl UserLike for QueriedUser {
    open spec fn profile(&self) -> UserView {
        self@
    }

    fn id(&self) -> (r: i32) {
        self.id
    }

    fn primary_email(&self) -> (r: Option<i32>) {
        self.primary_email
    }

    fn created_at(&self) -> (r: Timestamp) {
        self.created_at
    }
}

/// A user who has been looked up and has not yet proved to be who they
/// claim to be.
#[derive(Debug)]
pub struct UnauthenticatedUser {
    id: i32,
    created_at: Timestamp,
    primary_email: Option<i32>,
}

impl View for UnauthenticatedUser {
    type V = UserView;

    closed spec fn view(&self) -> UserView {
        UserView { id: self.id, created_at: self.created_at, primary_email: self.primary_email }
    }
}

impl UnauthenticatedUser {
    /// The user that a record of the `users` table stands for.
    pub fn new(id: i32, created_at: Timestamp, primary_email: Option<i32>) -> (made:
        UnauthenticatedUser)
        ensures
            made@ == (UserView { id, created_at, primary_email }),
    {
        UnauthenticatedUser { id, created_at, primary_email }
    }
}

/// What logging in with a password record and a candidate is to give: the
/// record has to be this user's, and its hash has to accept the candidate.
pub open spec fn log_in_outcome(
    user: UserView,
    auth: LocalAuthView,
    candidate: Seq<char>,
) -> Result<(), VerificationError> {
    if auth.user_id != user.id {
        Err(VerificationError::Process)
    } else {
        outcome_of_verdict(bcrypt_verdict(candidate, auth.password))
    }
}

impl UnauthenticatedUser {
    /// Logs the user in with a password.
    ///
    /// A password record of another user is turned down with
    /// [`VerificationError::Process`], whatever the candidate. Otherwise the
    /// candidate is checked against the record's hash: a match gives the
    /// same user, authenticated; a candidate that does not match is
    /// [`VerificationError::Password`]; a hash that cannot be used is
    /// [`VerificationError::Process`].
    pub fn log_in_local(self, local_auth: LocalAuth, password: PlaintextPassword) -> (r: Result<
        AuthenticatedUser,
        VerificationError,
    >)
        ensures
            match log_in_outcome(self@, local_auth@, password@) {
                Ok(()) => r matches Ok(user) && user@ == self@,
                Err(e) => r matches Err(got) && got == e,
            },
    {
        local_auth.log_in(self, password)
    }

    /// Splits on whether the user has confirmed an email address: a user
    /// who holds the `Verified` role comes back unchanged, any other as an
    /// [`UnverifiedUser`], without the primary email address.
    pub fn to_verified(self, store: &Store) -> (r: Result<UnauthenticatedUser, UnverifiedUser>)
        ensures
            match r {
                Ok(user) => store@.has_role(self@.id, Role::Verified) && user@ == self@,
                Err(user) => !store@.has_role(self@.id, Role::Verified) && user@ == (UserView {
                    primary_email: None,
                    ..self@
                }),
            },
    {
        if self.is_verified(store) {
            Ok(self)
        } else {
            Err(UnverifiedUser { id: self.id, created_at: self.created_at })
        }
    }
}

impl UserLike for UnauthenticatedUser {
    open spec fn profile(&self) -> UserView {
        self@
    }

    fn id(&self) -> (r: i32) {
        self.id
    }

    fn primary_email(&self) -> (r: Option<i32>) {
        self.primary_email
    }

    fn created_at(&self) -> (r: Timestamp) {
        self.created_at
    }
}

/// A user who is about to be recorded: created now, with no email address
/// yet.
#[derive(Clone, Copy, Debug)]
pub struct NewUser {
    created_at: Timestamp,
    primary_email: Option<i32>,
}

/// What a [`NewUser`] holds.
pub struct NewUserView {
    pub created_at: Timestamp,
    pub primary_email: Option<i32>,
}

impl View for NewUser {
    type V = NewUserView;

    closed spec fn view(&self) -> NewUserView {
        NewUserView { created_at: self.created_at, primary_email: self.primary_email }
    }
}

impl NewUser {
    /// A user created at the given time, with no primary email address.
    pub fn created(created_at: Timestamp) -> (made: NewUser)
        ensures
            made@ == (NewUserView { created_at, primary_email: None }),
    {
        NewUser { created_at, primary_email: None }
    }

    /// A user created at the time the clock shows, with no primary email
    /// address.
    pub fn new() -> (made: NewUser)
        ensures
            made@.primary_email is None,
    {
        NewUser::created(now())
    }

    /// When the user was created.
    pub fn created_at(&self) -> (r: Timestamp)
        ensures
            r == self@.created_at,
    {
        self.created_at
    }

    /// The primary email address of a new user: none.
    pub fn primary_email(&self) -> (r: Option<i32>)
        ensures
            r == self@.primary_email,
    {
        self.primary_email
    }
}

/// A user who has not confirmed an email address. Such a user has no
/// primary email address to show.
pub struct UnverifiedUser {
    id: i32,
    created_at: Timestamp,
}

impl View for UnverifiedUser {
    type V = UserView;

    closed spec fn view(&self) -> UserView {
        UserView { id: self.id, created_at: self.created_at, primary_email: None }
    }
}

impl UserLike for UnverifiedUser {
    open spec fn profile(&self) -> UserView {
        self@
    }

    fn id(&self) -> (r: i32) {
        self.id
    }

    fn primary_email(&self) -> (r: Option<i32>) {
        None
    }

    fn created_at(&self) -> (r: Timestamp) {
        self.created_at
    }
}

impl UnverifiedUser {
    /// Every unverified user shows no primary email address.
    pub proof fn lemma_shows_no_email(&self)
        ensures
            self@.primary_email is None,
    {
    }

    /// Confirms an email address with the token that was sent to it.
    ///
    /// The token is checked against the address as
    /// [`email::verification_of`] says. On success the user counts as
    /// authenticated, and comes back paired with the change to the address:
    /// nothing is stored yet.
    pub fn verify(self, email: UnverifiedEmail, token: EmailVerificationToken) -> (r: Result<
        MemVerified,
        email::VerificationError,
    >)
        ensures
            match email::verification_of(email@, token@) {
                Ok(change) => r matches Ok(pending) && pending@ == (MemVerifiedView {
                    email: change,
                    user: self@,
                }),
                Err(e) => r matches Err(got) && got == e,
            },
    {
        match email.verify_and_log_in(self, token) {
            Ok((user, email)) => Ok(MemVerified { email, user }),
            Err(e) => Err(e),
        }
    }
}

/// A user who has proved to be who they claim to be.
pub struct AuthenticatedUser {
    id: i32,
    primary_email: Option<i32>,
    created_at: Timestamp,
}

impl View for AuthenticatedUser {
    type V = UserView;

    closed spec fn view(&self) -> UserView {
        UserView { id: self.id, created_at: self.created_at, primary_email: self.primary_email }
    }
}

impl UserLike for AuthenticatedUser {
    open spec fn profile(&self) -> UserView {
        self@
    }

    fn id(&self) -> (r: i32) {
        self.id
    }

    fn primary_email(&self) -> (r: Option<i32>) {
        self.primary_email
    }

    fn created_at(&self) -> (r: Timestamp) {
        self.created_at
    }
}

impl PermissionedUser for AuthenticatedUser {

}

/// What setting a user's primary email address answers: the address has to
/// be the user's own, and the user has to be recorded.
pub open spec fn set_email_result(s: StoreView, user: UserView, email: VerifiedEmailView) -> Result<
    (),
    UpdateFieldError,
> {
    if email.user_id != user.id {
        Err(UpdateFieldError::Relation)
    } else if !s.has_user(user.id) {
        Err(UpdateFieldError::Store(StoreError::NotFound))
    } else {
        Ok(())
    }
}

impl AuthenticatedUser {
    /// The authenticated user with these values. Only a check that
    /// authenticates a user calls this.
    pub(crate) fn authenticated(
        id: i32,
        primary_email: Option<i32>,
        created_at: Timestamp,
    ) -> (made: AuthenticatedUser)
        ensures
            made@ == (UserView { id, created_at, primary_email }),
    {
        AuthenticatedUser { id, primary_email, created_at }
    }

    /// Makes a verified address the user's primary one.
    ///
    /// An address of another user is turned down with
    /// [`UpdateFieldError::Relation`], and a user who is not recorded with
    /// [`StoreError::NotFound`]; either way nothing is written and `self`
    /// stays as it is. Otherwise the user's record and `self` both get the
    /// address as their primary one.
    pub fn set_default_email(&mut self, email: &VerifiedEmail, store: &mut Store) -> (r: Result<
        (),
        UpdateFieldError,
    >)
        ensures
            final(store)@.wf(),
            match set_email_result(old(store)@, old(self)@, email@) {
                Ok(()) => r is Ok && final(store)@ == old(store)@.with_primary_email(
                    old(self)@.id,
                    email@.id,
                ) && final(self)@ == (UserView { primary_email: Some(email@.id), ..old(self)@ }),
                Err(e) => r matches Err(got) && got == e && final(store)@ == old(store)@
                    && final(self)@ == old(self)@,
            },
    {
        if email.user_id() != self.id {
            store.rules_hold();
            return Err(UpdateFieldError::Relation);
        }
        match store.update_primary_email(self.id, email.id()) {
            Err(e) => Err(UpdateFieldError::Store(e)),
            Ok(()) => {
                self.primary_email = Some(email.id());
                Ok(())
            },
        }
    }

    /// Records that the user has verified an address: the address has to be
    /// the user's own, and then the user is granted the `Verified` role.
    fn verify(&self, email: &VerifiedEmail, at: Timestamp, store: &mut Store) -> (r: Result<
        (),
        UserVerifyError,
    >)
        ensures
            final(store)@.wf(),
            if self@.id != email@.user_id {
                r matches Err(e) && e == UserVerifyError::IdMismatch && final(store)@ == old(
                    store,
                )@
            } else {
                final(store)@ == after_grant(old(store)@, self@.id, Role::Verified, at)
                    && match grant_result(old(store)@, self@.id, Role::Verified) {
                    Ok(()) => r is Ok,
                    Err(cause) => r matches Err(e) && e == UserVerifyError::Store(cause),
                }
            },
    {
        if self.id != email.user_id() {
            store.rules_hold();
            return Err(UserVerifyError::IdMismatch);
        }
        match grant_role_at(self, Role::Verified, at, store) {
            Ok(()) => Ok(()),
            Err(e) => Err(UserVerifyError::Store(e)),
        }
    }

    /// Checks whether the user administers the instance: a user who holds
    /// the `Admin` role comes back as an [`AdminUser`], any other unchanged.
    pub fn elevate_if_admin(self, store: &Store) -> (r: Result<AdminUser, AuthenticatedUser>)
        ensures
            match r {
                Ok(admin) => store@.has_role(self@.id, Role::Admin) && admin@ == self@,
                Err(user) => !store@.has_role(self@.id, Role::Admin) && user@ == self@,
            },
    {
        if self.is_admin(store) {
            Ok(
                AdminUser {
                    id: self.id,
                    primary_email: self.primary_email,
                    created_at: self.created_at,
                },
            )
        } else {
            Err(self)
        }
    }
}

/// A user who administers the instance.
pub struct AdminUser {
    id: i32,
    primary_email: Option<i32>,
    created_at: Timestamp,
}

impl View for AdminUser {
    type V = UserView;

    closed spec fn view(&self) -> UserView {
        UserView { id: self.id, created_at: self.created_at, primary_email: self.primary_email }
    }
}

impl UserLike for AdminUser {
    open spec fn profile(&self) -> UserView {
        self@
    }

    fn id(&self) -> (r: i32) {
        self.id
    }

    fn primary_email(&self) -> (r: Option<i32>) {
        self.primary_email
    }

    fn created_at(&self) -> (r: Timestamp) {
        self.created_at
    }
}

impl PermissionedUser for AdminUser {

}

impl AdminUser {
    /// Grants a role to any user, with the time of the clock on the grant.
    pub fn grant_role<U: UserLike>(&self, user: &U, role: Role, store: &mut Store) -> (r: Result<
        (),
        StoreError,
    >)
        ensures
            final(store)@.wf(),
            r == grant_result(old(store)@, user.profile().id, role),
            exists|at: Timestamp|
                final(store)@ == #[trigger] after_grant(old(store)@, user.profile().id, role, at),
    {
        permissions::grant_role(user, role, store)
    }

    /// Grants a role to any user, with the given time on the grant.
    pub fn grant_role_at<U: UserLike>(
        &self,
        user: &U,
        role: Role,
        at: Timestamp,
        store: &mut Store,
    ) -> (r: Result<(), StoreError>)
        ensures
            final(store)@.wf(),
            r == grant_result(old(store)@, user.profile().id, role),
            final(store)@ == after_grant(old(store)@, user.profile().id, role, at),
    {
        grant_role_at(user, role, at, store)
    }

    /// Revokes a role from any user.
    pub fn revoke_role<U: UserLike>(&self, user: &U, role: Role, store: &mut Store) -> (r: Result<
        (),
        StoreError,
    >)
        ensures
            final(store)@.wf(),
            r is Ok,
            final(store)@ == permissions::after_revoke(old(store)@, user.profile().id, role),
    {
        permissions::revoke_role(user, role, store)
    }
}

/// What a [`MemVerified`] holds.
pub struct MemVerifiedView {
    pub email: EmailView,
    pub user: UserView,
}

/// A user who has just confirmed an email address, together with the change
/// that marks the address verified. Nothing of this is stored yet: the value
/// exists to be stored.
pub struct MemVerified {
    email: VerifyEmail,
    user: AuthenticatedUser,
}

impl View for MemVerified {
    type V = MemVerifiedView;

    closed spec fn view(&self) -> MemVerifiedView {
        MemVerifiedView { email: self.email@, user: self.user@ }
    }
}

/// What stands in the way of storing a verification, if anything does.
///
/// The address has to be the user's own ([`UserVerifyError::IdMismatch`]).
/// The user has to be recorded. The `Verified` role has to be grantable as
/// [`grant_result`] says. And the store has to hold, unverified still, the
/// very address that was confirmed: an address that is gone is
/// [`StoreError::NotFound`], one that has changed or is verified already is
/// [`StoreError::Conflict`].
pub open spec fn verification_obstacle(s: StoreView, pending: MemVerifiedView) -> Option<
    UserVerifyError,
> {
    if pending.email.user_id != pending.user.id {
        Some(UserVerifyError::IdMismatch)
    } else if !s.has_user(pending.user.id) {
        Some(UserVerifyError::Store(StoreError::NotFound))
    } else if grant_result(s, pending.user.id, Role::Verified) is Err {
        Some(UserVerifyError::Store(grant_result(s, pending.user.id, Role::Verified)->Err_0))
    } else if !s.has_email(pending.email.id) {
        Some(UserVerifyError::Store(StoreError::NotFound))
    } else if !s.awaits(pending.email) {
        Some(UserVerifyError::Store(StoreError::Conflict))
    } else {
        None
    }
}

/// The store after a verification has been stored at a given time: the
/// address is marked verified and has lost its token, the user holds the
/// `Verified` role, and the address is the user's primary one.
pub open spec fn after_verification(
    s: StoreView,
    pending: MemVerifiedView,
    at: Timestamp,
) -> StoreView {
    after_grant(
        s.with_email_replaced(pending.email),
        pending.user.id,
        Role::Verified,
        at,
    ).with_primary_email(pending.user.id, pending.email.id)
}

impl MemVerified {
    /// Stores the verification, with the time of the clock on the grant of
    /// the `Verified` role. See [`store_verify_at`](Self::store_verify_at).
    pub fn store_verify(self, store: &mut Store) -> (r: Result<
        (AuthenticatedUser, VerifiedEmail),
        UserVerifyError,
    >)
        ensures
            final(store)@.wf(),
            match verification_obstacle(old(store)@, self@) {
                Some(e) => r matches Err(got) && got == e && final(store)@ == old(store)@,
                None => r matches Ok(stored) && stored.0@ == (UserView {
                    primary_email: Some(self@.email.id),
                    ..self@.user
                }) && stored.1@ == (VerifiedEmailView {
                    id: self@.email.id,
                    email: self@.email.email,
                    user_id: self@.email.user_id,
                }) && exists|at: Timestamp|
                    final(store)@ == #[trigger] after_verification(old(store)@, self@, at),
            },
    {
        let at = now();
        let r = self.store_verify_at(at, store);
        proof {
            if verification_obstacle(old(store)@, self@) is None {
                assert(store@ == after_verification(old(store)@, self@, at));
            }
        }
        r
    }

    /// Stores the verification, all of it or nothing.
    ///
    /// Where nothing stands in the way (see [`verification_obstacle`]) the
    /// address is marked verified and loses its token, the user is granted
    /// the `Verified` role with the given time on the grant, and the address
    /// becomes the user's primary one; the user and the verified address
    /// come back. Otherwise the obstacle comes back and the store is as it
    /// was.
    pub fn store_verify_at(self, at: Timestamp, store: &mut Store) -> (r: Result<
        (AuthenticatedUser, VerifiedEmail),
        UserVerifyError,
    >)
        ensures
            final(store)@.wf(),
            match verification_obstacle(old(store)@, self@) {
                Some(e) => r matches Err(got) && got == e && final(store)@ == old(store)@,
                None => r matches Ok(stored) && stored.0@ == (UserView {
                    primary_email: Some(self@.email.id),
                    ..self@.user
                }) && stored.1@ == (VerifiedEmailView {
                    id: self@.email.id,
                    email: self@.email.email,
                    user_id: self@.email.user_id,
                }) && final(store)@ == after_verification(old(store)@, self@, at),
            },
    {
        let MemVerified { email, user } = self;
        let mut user = user;
        let user_id = user.id;
        store.rules_hold();
        if email.user_id() != user_id {
            return Err(UserVerifyError::IdMismatch);
        }
        // What could stop the grant or the update of the user is looked at
        // before anything is written, so that once the address has been
        // marked the two remaining writes cannot fail.
        if store.find_user(user_id).is_none() {
            return Err(UserVerifyError::Store(StoreError::NotFound));
        }
        if !store.has_role(user_id, Role::Verified) {
            if store.role_id(Role::Verified).is_none() {
                return Err(UserVerifyError::Store(StoreError::NotFound));
            }
            if !store.has_user_role_id_left() {
                return Err(UserVerifyError::Store(StoreError::OutOfIds));
            }
        }
        let verified = match email.store_verify(store) {
            Err(e) => return Err(UserVerifyError::Store(e)),
            Ok(verified) => verified,
        };
        proof {
            // Marking the address has left users, roles and grants alone.
            assert(store@.has_role(user_id, Role::Verified) == old(store)@.has_role(
                user_id,
                Role::Verified,
            ));
            assert(store@.has_role_named(Role::Verified) == old(store)@.has_role_named(
                Role::Verified,
            ));
        }
        match user.verify(&verified, at, store) {
            Err(e) => {
                // Ruled out by the checks above.
                assert(false);
                return Err(e);
            },
            Ok(()) => {},
        }
        assert(store@.has_user(user_id) == old(store)@.has_user(user_id));
        match user.set_default_email(&verified, store) {
            Err(e) => {
                // Ruled out by the checks above.
                assert(false);
                Err(UserVerifyError::from_update(e))
            },
            Ok(()) => Ok((user, verified)),
        }
    }
}

/// An email address of another user is never made a user's primary address:
/// whatever the store holds, the answer is [`UpdateFieldError::Relation`].
pub proof fn lemma_foreign_address_is_refused(
    s: StoreView,
    user: UserView,
    email: VerifiedEmailView,
)
    requires
        email.user_id != user.id,
    ensures
        set_email_result(s, user, email) == Err::<(), UpdateFieldError>(
            UpdateFieldError::Relation,
        ),
{
}

/// An address that is verified takes no token: whatever is returned for it,
/// the check fails and yields no change.
pub proof fn lemma_verified_address_takes_no_token(record: EmailView, token: Seq<char>)
    requires
        record.verified,
    ensures
        email::verification_of(record, token) == Err::<EmailView, VerificationError>(
            VerificationError::Process,
        ),
{
}

/// Marking an address verified keeps the rules of the store, and leaves the
/// address as the one record with its id.
pub proof fn lemma_replaced_address(s: StoreView, change: EmailView)
    requires
        s.wf(),
        s.awaits(change),
    ensures
        s.with_email_replaced(change).wf(),
        s.with_email_replaced(change).has_email(change.id),
        forall|i: int|
            0 <= i < s.with_email_replaced(change).emails.len() && (
            #[trigger] s.with_email_replaced(change).emails[i]).id == change.id
                ==> s.with_email_replaced(change).emails[i] == change,
        change.verified,
        change.verification_token is None,
{
    let after = s.with_email_replaced(change);
    let at = choose|i: int|
        0 <= i < s.emails.len() && !(#[trigger] s.emails[i]).verified && s.emails[i].verified()
            == change;
    assert(s.emails[at].id == change.id);
    assert(after.emails[at] == change);
    assert forall|i: int| 0 <= i < after.emails.len() implies (#[trigger] after.emails[i]).id
        == s.emails[i].id by {}
    assert forall|i: int, j: int| 0 <= i < j < after.emails.len() implies (
    #[trigger] after.emails[i]).id != (#[trigger] after.emails[j]).id by {
        assert(after.emails[i].id == s.emails[i].id);
        assert(after.emails[j].id == s.emails[j].id);
    }
    assert forall|i: int| 0 <= i < after.emails.len() implies (#[trigger] after.emails[i]).id
        <= after.last_email_id by {
        assert(after.emails[i].id == s.emails[i].id);
    }
    assert forall|i: int| 0 <= i < after.emails.len() implies (
    #[trigger] after.emails[i]).consistent() by {
        if s.emails[i].id != change.id {
            assert(after.emails[i] == s.emails[i]);
        }
    }
}

/// Setting a primary email address keeps the rules of the store and leaves
/// the user, if recorded, with that address.
pub proof fn lemma_primary_email_is_set(s: StoreView, user_id: i32, email_id: i32)
    requires
        s.wf(),
    ensures
        s.with_primary_email(user_id, email_id).wf(),
        s.with_primary_email(user_id, email_id).has_user(user_id) == s.has_user(user_id),
        forall|i: int|
            0 <= i < s.with_primary_email(user_id, email_id).users.len() && (
            #[trigger] s.with_primary_email(user_id, email_id).users[i]).id == user_id
                ==> s.with_primary_email(user_id, email_id).users[i].primary_email == Some(
                email_id,
            ),
{
    let after = s.with_primary_email(user_id, email_id);
    assert forall|i: int| 0 <= i < after.users.len() implies (#[trigger] after.users[i]).id
        == s.users[i].id by {}
    assert forall|i: int, j: int| 0 <= i < j < after.users.len() implies (
    #[trigger] after.users[i]).id != (#[trigger] after.users[j]).id by {
        assert(after.users[i].id == s.users[i].id);
        assert(after.users[j].id == s.users[j].id);
    }
    assert forall|i: int| 0 <= i < after.users.len() implies (#[trigger] after.users[i]).id
        <= after.last_user_id by {
        assert(after.users[i].id == s.users[i].id);
    }
    if s.has_user(user_id) {
        let i = choose|i: int| 0 <= i < s.users.len() && (#[trigger] s.users[i]).id == user_id;
        assert(after.users[i].id == user_id);
    }
    if after.has_user(user_id) {
        let i = choose|i: int|
            0 <= i < after.users.len() && (#[trigger] after.users[i]).id == user_id;
        assert(s.users[i].id == user_id);
    }
}

/// A verification that has been stored is final.
///
/// Where nothing stands in the way of storing a verification, the store
/// after it keeps its rules; the user holds the `Verified` role; the address
/// is recorded as verified, without a token, so that no token is accepted
/// for it any more; the address is the user's primary one; and to store the
/// same verification once more is turned down as a conflict.
pub proof fn lemma_stored_verification_is_final(
    s: StoreView,
    pending: MemVerifiedView,
    at: Timestamp,
)
    requires
        s.wf(),
        verification_obstacle(s, pending) is None,
    ensures
        ({
            let after = after_verification(s, pending, at);
            &&& after.wf()
            &&& after.has_role(pending.user.id, Role::Verified)
            &&& after.has_email(pending.email.id)
            &&& forall|i: int|
                0 <= i < after.emails.len() && (#[trigger] after.emails[i]).id == pending.email.id
                    ==> after.emails[i].verified && after.emails[i].verification_token is None
                    && forall|token: Seq<char>|
                    #[trigger] email::verification_of(after.emails[i], token) is Err
            &&& after.has_user(pending.user.id)
            &&& forall|i: int|
                0 <= i < after.users.len() && (#[trigger] after.users[i]).id == pending.user.id
                    ==> after.users[i].primary_email == Some(pending.email.id)
            &&& verification_obstacle(after, pending) == Some(
                UserVerifyError::Store(StoreError::Conflict),
            )
        }),
{
    let user_id = pending.user.id;
    let marked = s.with_email_replaced(pending.email);
    let granted = after_grant(marked, user_id, Role::Verified, at);
    let after = granted.with_primary_email(user_id, pending.email.id);
    lemma_replaced_address(s, pending.email);
    assert(marked.user_roles == s.user_roles);
    assert(marked.roles == s.roles);
    assert(marked.has_role(user_id, Role::Verified) == s.has_role(user_id, Role::Verified));
    assert(marked.has_role_named(Role::Verified) == s.has_role_named(Role::Verified));
    assert(grant_result(marked, user_id, Role::Verified) is Ok);
    lemma_grant_keeps_rules(marked, user_id, Role::Verified, at);
    lemma_granted_role_is_held_once(marked, user_id, Role::Verified, at);
    assert(granted.emails == marked.emails);
    assert(granted.users == s.users);
    lemma_primary_email_is_set(granted, user_id, pending.email.id);
    assert(after.user_roles == granted.user_roles);
    assert(after.roles == granted.roles);
    assert(after.has_role(user_id, Role::Verified) == granted.has_role(user_id, Role::Verified));
    assert(after.emails == marked.emails);
    assert(granted.has_user(user_id) == s.has_user(user_id));
    assert(after.has_email(pending.email.id) == marked.has_email(pending.email.id));
    assert forall|i: int|
        0 <= i < after.emails.len() && (#[trigger] after.emails[i]).id
            == pending.email.id implies after.emails[i].verified
        && after.emails[i].verification_token is None && forall|token: Seq<char>|
        #[trigger] email::verification_of(after.emails[i], token) is Err by {
        assert(marked.emails[i] == pending.email);
    }
    if after.awaits(pending.email) {
        let i = choose|i: int|
            0 <= i < after.emails.len() && !(#[trigger] after.emails[i]).verified
                && after.emails[i].verified() == pending.email;
        assert(after.emails[i].id == pending.email.id);
        assert(marked.emails[i] == pending.email);
    }
}

} // verus!
