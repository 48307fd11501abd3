//! Email addresses and their verification.
//!
//! An address is recorded unverified, together with the hash of a token that
//! is sent to it. Whoever returns the token turns the [`UnverifiedEmail`]
//! into a [`VerifyEmail`], the change that marks the record verified and
//! drops the token; once that change is stored the address is a
//! [`VerifiedEmail`]. There is no way back, and no second verification.

pub mod token;

pub use self::token::{CreationError, EmailToken, EmailVerificationToken, VerificationError};
use self::token::{create_token, hex_text, HashedEmailToken, TOKEN_BYTES, TOKEN_LENGTH};
use crate::store::{Store, StoreError};
use crate::user::local_auth::password::{bcrypt_verdict, outcome_of_verdict};
use crate::user::{AuthenticatedUser, UnverifiedUser, UserLike};
use vstd::prelude::*;

verus! {

/// What the record of an email address holds.
pub struct EmailView {
    pub id: i32,
    pub email: Seq<char>,
    pub user_id: i32,
    pub verified: bool,
    pub verification_token: Option<Seq<char>>,
}

impl EmailView {
    /// A verified address keeps no token.
    pub open spec fn consistent(self) -> bool {
        self.verified ==> self.verification_token is None
    }

    /// The same record, marked verified and without its token.
    pub open spec fn verified(self) -> EmailView {
        EmailView { verified: true, verification_token: None, ..self }
    }
}

/// What a verified address holds.
pub struct VerifiedEmailView {
    pub id: i32,
    pub email: Seq<char>,
    pub user_id: i32,
}

/// The view of an optional token hash.
pub open spec fn token_view(token: Option<HashedEmailToken>) -> Option<Seq<char>> {
    match token {
        Some(hash) => Some(hash@),
        None => None,
    }
}

/// A second optional token hash with the same text.
pub fn duplicate_token(token: &Option<HashedEmailToken>) -> (copy: Option<HashedEmailToken>)
    ensures
        token_view(copy) == token_view(*token),
{
    match token {
        Some(hash) => Some(hash.duplicate()),
        None => None,
    }
}

/// An email address that its owner has confirmed.
pub struct VerifiedEmail {
    id: i32,
    email: String,
    user_id: i32,
}

impl View for VerifiedEmail {
    type V = VerifiedEmailView;

    closed spec fn view(&self) -> VerifiedEmailView {
        VerifiedEmailView { id: self.id, email: self.email@, user_id: self.user_id }
    }
}

impl VerifiedEmail {
    /// The record's id.
    pub fn id(&self) -> (r: i32)
        ensures
            r == self@.id,
    {
        self.id
    }

    /// The address.
    pub fn email(&self) -> (r: &str)
        ensures
            r@ == self@.email,
    {
        self.email.as_str()
    }

    /// The id of the user the address belongs to.
    pub fn user_id(&self) -> (r: i32)
        ensures
            r == self@.user_id,
    {
        self.user_id
    }
}

/// An email address as the `emails` table records it, verified or not.
pub struct Email {
    id: i32,
    email: String,
    user_id: i32,
    verified: bool,
    verification_token: Option<HashedEmailToken>,
}

impl View for Email {
    type V = EmailView;

    closed spec fn view(&self) -> EmailView {
        EmailView {
            id: self.id,
            email: self.email@,
            user_id: self.user_id,
            verified: self.verified,
            verification_token: token_view(self.verification_token),
        }
    }
}

impl Email {
    #[verifier::type_invariant]
    spec fn well_formed(&self) -> bool {
        self.verified ==> self.verification_token is None
    }

    /// The record with these values. There is none for a verified address
    /// that still has a token.
    pub fn new(
        id: i32,
        email: String,
        user_id: i32,
        verified: bool,
        verification_token: Option<HashedEmailToken>,
    ) -> (made: Option<Email>)
        ensures
            made is Some <==> !(verified && verification_token is Some),
            made matches Some(record) ==> record@ == (EmailView {
                id,
                email: email@,
                user_id,
                verified,
                verification_token: token_view(verification_token),
            }),
    {
        if verified && verification_token.is_some() {
            None
        } else {
            Some(Email { id, email, user_id, verified, verification_token })
        }
    }

    /// The record's id.
    pub fn id(&self) -> (r: i32)
        ensures
            r == self@.id,
            self@.consistent(),
    {
        proof {
            use_type_invariant(self);
        }
        self.id
    }

    /// The address.
    pub fn email(&self) -> (r: &str)
        ensures
            r@ == self@.email,
    {
        self.email.as_str()
    }

    /// The id of the user the address belongs to.
    pub fn user_id(&self) -> (r: i32)
        ensures
            r == self@.user_id,
    {
        self.user_id
    }

    /// Whether the address has been confirmed.
    pub fn is_verified(&self) -> (r: bool)
        ensures
            r == self@.verified,
    {
        self.verified
    }

    /// The hash of the token that confirms the address, while there is one.
    pub fn verification_token(&self) -> (r: Option<&HashedEmailToken>)
        ensures
            match r {
                Some(hash) => self@.verification_token == Some(hash@),
                None => self@.verification_token is None,
            },
    {
        match &self.verification_token {
            Some(hash) => Some(hash),
            None => None,
        }
    }

    /// A second record with the same values.
    pub fn duplicate(&self) -> (copy: Email)
        ensures
            copy@ == self@,
    {
        proof {
            use_type_invariant(self);
        }
        Email {
            id: self.id,
            email: self.email.clone(),
            user_id: self.user_id,
            verified: self.verified,
            verification_token: duplicate_token(&self.verification_token),
        }
    }

    /// Splits on whether the address has been confirmed: a verified record
    /// becomes a [`VerifiedEmail`], any other an [`UnverifiedEmail`] with
    /// everything the record held.
    pub fn to_verified(self) -> (r: Result<VerifiedEmail, UnverifiedEmail>)
        ensures
            match r {
                Ok(verified) => self@.verified && verified@ == (VerifiedEmailView {
                    id: self@.id,
                    email: self@.email,
                    user_id: self@.user_id,
                }),
                Err(unverified) => !self@.verified && unverified@ == self@,
            },
    {
        if self.verified {
            Ok(VerifiedEmail { id: self.id, email: self.email, user_id: self.user_id })
        } else {
            Err(
                UnverifiedEmail {
                    id: self.id,
                    email: self.email,
                    user_id: self.user_id,
                    verified: false,
                    verification_token: self.verification_token,
                },
            )
        }
    }
}

/// The change that marks an address verified: the record as it is to stand
/// once the change is stored.
pub struct VerifyEmail {
    id: i32,
    email: String,
    user_id: i32,
    verified: bool,
    verification_token: Option<HashedEmailToken>,
}

impl View for VerifyEmail {
    type V = EmailView;

    closed spec fn view(&self) -> EmailView {
        EmailView {
            id: self.id,
            email: self.email@,
            user_id: self.user_id,
            verified: self.verified,
            verification_token: token_view(self.verification_token),
        }
    }
}

impl VerifyEmail {
    #[verifier::type_invariant]
    spec fn well_formed(&self) -> bool {
        self.verified && self.verification_token is None
    }

    /// The id of the record to change.
    pub fn id(&self) -> (r: i32)
        ensures
            r == self@.id,
            self@.verified,
            self@.verification_token is None,
    {
        proof {
            use_type_invariant(self);
        }
        self.id
    }

    /// The id of the user the address belongs to.
    pub fn user_id(&self) -> (r: i32)
        ensures
            r == self@.user_id,
    {
        self.user_id
    }

    /// The address.
    pub fn email(&self) -> (r: &str)
        ensures
            r@ == self@.email,
    {
        self.email.as_str()
    }

    /// Stores the change. The store must still hold, unverified, the very
    /// record that the change was made from: a record that is gone is
    /// [`StoreError::NotFound`], one that has changed or is verified already
    /// is [`StoreError::Conflict`], and either way nothing is written.
    /// Otherwise the record is marked verified and loses its token, and the
    /// verified address comes back.
    pub(crate) fn store_verify(self, store: &mut Store) -> (r: Result<VerifiedEmail, StoreError>)
        ensures
            final(store)@.wf(),
            match r {
                Ok(verified) => old(store)@.awaits(self@) && final(store)@ == old(
                    store,
                )@.with_email_replaced(self@) && verified@ == (VerifiedEmailView {
                    id: self@.id,
                    email: self@.email,
                    user_id: self@.user_id,
                }),
                Err(e) => final(store)@ == old(store)@ && !old(store)@.awaits(self@) && e == (
                if old(store)@.has_email(self@.id) {
                    StoreError::Conflict
                } else {
                    StoreError::NotFound
                }),
            },
    {
        let (record, verified) = self.into_parts();
        match store.store_verification(record) {
            Ok(()) => Ok(verified),
            Err(e) => Err(e),
        }
    }

    /// The record as it stands after the change, and the verified address
    /// that the change yields.
    fn into_parts(self) -> (parts: (Email, VerifiedEmail))
        ensures
            parts.0@ == self@,
            self@.verified,
            self@.verification_token is None,
            parts.1@ == (VerifiedEmailView {
                id: self@.id,
                email: self@.email,
                user_id: self@.user_id,
            }),
    {
        proof {
            use_type_invariant(&self);
        }
        let address = self.email.clone();
        (
            Email {
                id: self.id,
                email: self.email,
                user_id: self.user_id,
                verified: true,
                verification_token: None,
            },
            VerifiedEmail { id: self.id, email: address, user_id: self.user_id },
        )
    }
}

/// An email address that waits for its owner to return the token.
pub struct UnverifiedEmail {
    id: i32,
    email: String,
    user_id: i32,
    verified: bool,
    verification_token: Option<HashedEmailToken>,
}

impl View for UnverifiedEmail {
    type V = EmailView;

    closed spec fn view(&self) -> EmailView {
        EmailView {
            id: self.id,
            email: self.email@,
            user_id: self.user_id,
            verified: self.verified,
            verification_token: token_view(self.verification_token),
        }
    }
}

/// What returning `token` for a record is to yield: the change that marks
/// the record verified where the record is unverified, has a token hash, and
/// that hash accepts the token. A token that the hash turns down is
/// [`VerificationError::Password`]; a record that is verified already, or has
/// no hash, or has one that cannot be used, is [`VerificationError::Process`].
pub open spec fn verification_of(record: EmailView, token: Seq<char>) -> Result<
    EmailView,
    VerificationError,
> {
    if record.verified || record.verification_token is None {
        Err(VerificationError::Process)
    } else {
        match outcome_of_verdict(
            crate::user::local_auth::password::bcrypt_verdict(
                token,
                record.verification_token->0,
            ),
        ) {
            Ok(()) => Ok(record.verified()),
            Err(e) => Err(e),
        }
    }
}

impl UnverifiedEmail {
    /// The record's id.
    pub fn id(&self) -> (r: i32)
        ensures
            r == self@.id,
    {
        self.id
    }

    /// The address.
    pub fn email(&self) -> (r: &str)
        ensures
            r@ == self@.email,
    {
        self.email.as_str()
    }

    /// The id of the user the address belongs to.
    pub fn user_id(&self) -> (r: i32)
        ensures
            r == self@.user_id,
    {
        self.user_id
    }

    /// Checks a returned token against the record, and with it logs in the
    /// user who returned it: on success the user comes back authenticated,
    /// as yet without a primary email address, with the change to store.
    pub(crate) fn verify_and_log_in(
        self,
        user: UnverifiedUser,
        token: EmailVerificationToken,
    ) -> (r: Result<(AuthenticatedUser, VerifyEmail), VerificationError>)
        ensures
            match verification_of(self@, token@) {
                Ok(change) => r matches Ok(made) && made.1@ == change && made.0@ == user@,
                Err(e) => r matches Err(got) && got == e,
            },
    {
        proof {
            user.lemma_shows_no_email();
        }
        match self.verify(token) {
            Err(e) => Err(e),
            Ok(change) => Ok(
                (AuthenticatedUser::authenticated(user.id(), None, user.created_at()), change),
            ),
        }
    }

    /// Checks a returned token against the record. On success the record
    /// is used up and the change to store comes back.
    pub fn verify(self, token: EmailVerificationToken) -> (r: Result<
        VerifyEmail,
        VerificationError,
    >)
        ensures
            match verification_of(self@, token@) {
                Ok(change) => r matches Ok(made) && made@ == change,
                Err(e) => r matches Err(got) && got == e,
            },
    {
        if self.verified {
            return Err(VerificationError::Process);
        }
        match &self.verification_token {
            None => Err(VerificationError::Process),
            Some(hash) => match hash.verify_email(&token) {
                Err(e) => Err(e),
                Ok(()) => Ok(
                    VerifyEmail {
                        id: self.id,
                        email: self.email,
                        user_id: self.user_id,
                        verified: true,
                        verification_token: None,
                    },
                ),
            },
        }
    }
}

/// An email address that is about to be recorded: unverified, with the hash
/// of the token that will confirm it.
pub struct NewEmail {
    email: String,
    user_id: i32,
    verified: bool,
    verification_token: HashedEmailToken,
}

/// What a [`NewEmail`] holds.
pub struct NewEmailView {
    pub email: Seq<char>,
    pub user_id: i32,
    pub verified: bool,
    pub verification_token: Seq<char>,
}

impl View for NewEmail {
    type V = NewEmailView;

    closed spec fn view(&self) -> NewEmailView {
        NewEmailView {
            email: self.email@,
            user_id: self.user_id,
            verified: self.verified,
            verification_token: self.verification_token@,
        }
    }
}

impl NewEmail {
    #[verifier::type_invariant]
    spec fn well_formed(&self) -> bool {
        !self.verified
    }

    /// Pairs an address with a user and with a token that was drawn for it.
    pub fn with_token<U: UserLike>(
        email: String,
        user: &U,
        token: (EmailToken, HashedEmailToken),
    ) -> (made: (NewEmail, EmailToken))
        ensures
            made.0@ == (NewEmailView {
                email: email@,
                user_id: user.profile().id,
                verified: false,
                verification_token: token.1@,
            }),
            made.1@ == token.0@,
    {
        (
            NewEmail {
                email,
                user_id: user.id(),
                verified: false,
                verification_token: token.1,
            },
            token.0,
        )
    }

    /// Draws a token for an address of a user.
    ///
    /// Whether a token can be drawn and hashed is up to the random source
    /// and to bcrypt, as with [`token::create_token`], whose error is handed
    /// on. What comes back otherwise is the record to store and the token to
    /// send. The record has the address, belongs to the user and is
    /// unverified. The token spells out [`TOKEN_BYTES`] bytes in hexadecimal.
    /// The hash in the record accepts the token, and answers for every other
    /// text without a fault of the check.
    pub fn new<U: UserLike>(email: String, user: &U) -> (r: Result<
        (NewEmail, EmailToken),
        CreationError,
    >)
        ensures
            r matches Ok(made) ==> {
                &&& made.0@.email == email@
                &&& made.0@.user_id == user.profile().id
                &&& !made.0@.verified
                &&& made.1@.len() == TOKEN_LENGTH
                &&& exists|bytes: Seq<u8>|
                    bytes.len() == TOKEN_BYTES && made.1@ == #[trigger] hex_text(bytes)
                &&& bcrypt_verdict(made.1@, made.0@.verification_token) == Some(true)
                &&& forall|other: Seq<char>|
                    (#[trigger] bcrypt_verdict(other, made.0@.verification_token)) is Some
            },
    {
        match create_token() {
            Ok(token) => {
                let ghost text = token.0@;
                let ghost hash = token.1@;
                proof {
                    let bytes = choose|bytes: Seq<u8>|
                        bytes.len() == TOKEN_BYTES && text == #[trigger] hex_text(bytes);
                    assert(text == hex_text(bytes));
                    assert forall|other: Seq<char>|
                        (#[trigger] bcrypt_verdict(other, hash)) is Some by {
                        assert(token.1.verdict(other) is Some);
                    }
                }
                Ok(NewEmail::with_token(email, user, token))
            },
            Err(e) => Err(e),
        }
    }

    /// The address.
    pub fn email(&self) -> (r: &str)
        ensures
            r@ == self@.email,
    {
        self.email.as_str()
    }

    /// The id of the user the address belongs to.
    pub fn user_id(&self) -> (r: i32)
        ensures
            r == self@.user_id,
    {
        self.user_id
    }

    /// The hash of the token that will confirm the address.
    pub fn verification_token(&self) -> (r: &HashedEmailToken)
        ensures
            r@ == self@.verification_token,
    {
        &self.verification_token
    }

    /// The record that stands once this address is stored under `id`.
    pub(crate) fn into_record(self, id: i32) -> (record: Email)
        ensures
            record@ == (EmailView {
                id,
                email: self@.email,
                user_id: self@.user_id,
                verified: false,
                verification_token: Some(self@.verification_token),
            }),
    {
        Email {
            id,
            email: self.email,
            user_id: self.user_id,
            verified: false,
            verification_token: Some(self.verification_token),
        }
    }
}

} // verus!
