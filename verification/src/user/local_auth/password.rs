//! Plaintext passwords, the policy they are held to, and their salted hashes.
//!
//! A password enters as a [`PlaintextPassword`], becomes a
//! [`ValidatedPassword`] once it has passed a [`PasswordPolicy`], and is kept
//! only as a [`Password`], its bcrypt hash. None of the three can be printed:
//! each offers [`redacted`](Password::redacted) instead.

use vstd::prelude::*;
use vstd::string::StringSliceAdditionalSpecFns;

verus! {

/// What `bcrypt::verify` answers for a candidate and a stored hash: `Some` of
/// whether the candidate is the hashed text, `None` where it reports an error
/// (a hash that is not in bcrypt's format, or one naming a cost that bcrypt
/// does not allow).
pub uninterp spec fn bcrypt_verdict(candidate: Seq<char>, hash: Seq<char>) -> Option<bool>;

/// The error type of the `bcrypt` crate.
#[verifier::external_type_specification]
#[verifier::external_body]
pub struct ExBcryptError(bcrypt::BcryptError);

/// Calls `bcrypt::verify`. Its answer depends on the two texts alone, and is
/// the one that `bcrypt_verdict` names: an error exactly where the verdict is
/// `None`, otherwise the verdict's boolean.
#[verifier::external_body]
pub(crate) fn bcrypt_verify(candidate: &str, hash: &str) -> (r: Result<bool, bcrypt::BcryptError>)
    ensures
        r is Ok <==> bcrypt_verdict(candidate@, hash@) is Some,
        r matches Ok(b) ==> bcrypt_verdict(candidate@, hash@) == Some(b),
{
    bcrypt::verify(candidate, hash)
}

/// Calls `bcrypt::hash` with `bcrypt::DEFAULT_COST`. The salt is drawn from
/// the operating system, so the text that comes back differs from call to
/// call. Two things hold of every text it returns. `bcrypt::verify` accepts
/// the hashed plaintext against it, since verification re-derives the hash
/// from the salt and the cost that the text itself carries. And
/// `bcrypt::verify` answers for every candidate against it, since the only
/// errors it reports are those of a text that is not in bcrypt's format or
/// names a cost out of range, which does not depend on the candidate.
#[verifier::external_body]
pub(crate) fn bcrypt_hash(plaintext: &str) -> (r: Result<String, bcrypt::BcryptError>)
    ensures
        r matches Ok(h) ==> bcrypt_verdict(plaintext@, h@) == Some(true),
        r matches Ok(h) ==> forall|candidate: Seq<char>|
            (#[trigger] bcrypt_verdict(candidate, h@)) is Some,
{
    bcrypt::hash(plaintext, bcrypt::DEFAULT_COST)
}

/// The most bytes of a password that take part in its hash. A longer
/// password would be hashed as its first 72 bytes, so none is accepted.
pub const MAX_PASSWORD_BYTES: usize = 72;

/// The text shown in place of a password or a hash.
pub const REDACTION: &'static str = "********";

/// The number of bytes that a text takes in UTF-8.
pub open spec fn byte_length(text: Seq<char>) -> nat {
    vstd::utf8::encode_utf8(text).len()
}

/// Why a password check did not succeed.
#[derive(Clone, Copy, Debug, PartialEq, Eq, Structural)]
pub enum VerificationError {
    /// The check itself could not be carried out: the stored hash is
    /// malformed, or the records handed in do not belong together.
    Process,
    /// The check was carried out and the candidate is not the password.
    Password,
}

impl VerificationError {
    /// What to tell a reader about this error.
    pub fn message(&self) -> (text: &'static str)
        ensures
            text@ == (match self {
                VerificationError::Process => "Error validating password"@,
                VerificationError::Password => "Invalid password"@,
            }),
    {
        match self {
            VerificationError::Process => "Error validating password",
            VerificationError::Password => "Invalid password",
        }
    }
}

/// Why a plaintext password was turned down.
#[derive(Clone, Copy, Debug, PartialEq, Eq, Structural)]
pub enum ValidationError {
    /// The password is empty.
    Empty,
    /// The password has fewer bytes than the policy asks for.
    TooShort,
    /// The password has more bytes than the policy allows.
    TooLong,
    /// The two entries of the password differ.
    Mismatch,
}

/// Why no password hash was created: the plaintext was turned down, for the
/// reason given, or (with no reason given) the hash could not be computed.
#[derive(Clone, Copy, Debug, PartialEq, Eq, Structural)]
pub struct CreationError {
    pub rejected: Option<ValidationError>,
}

impl CreationError {
    /// The error of a hash that could not be computed.
    pub open spec fn hashing() -> CreationError {
        CreationError { rejected: None }
    }

    /// The error of a plaintext that was turned down.
    pub open spec fn validation(reason: ValidationError) -> CreationError {
        CreationError { rejected: Some(reason) }
    }

    /// What to tell a reader about this error.
    pub fn message(&self) -> (text: &'static str)
        ensures
            text@ == "Error creating password"@,
    {
        "Error creating password"
    }
}

/// The bounds, in bytes, that a password has to keep.
///
/// Whatever the bounds, an empty password is turned down and so is one of
/// more than [`MAX_PASSWORD_BYTES`] bytes.
#[derive(Clone, Copy, Debug, PartialEq, Eq, Structural)]
pub struct PasswordPolicy {
    pub min_length: usize,
    pub max_length: usize,
}

impl PasswordPolicy {
    /// The policy with these bounds.
    pub fn new(min_length: usize, max_length: usize) -> (policy: PasswordPolicy)
        ensures
            policy.min_length == min_length,
            policy.max_length == max_length,
    {
        PasswordPolicy { min_length, max_length }
    }

    /// The policy that asks for no more than the fixed floor and ceiling:
    /// at least one byte, at most [`MAX_PASSWORD_BYTES`].
    pub fn standard() -> (policy: PasswordPolicy)
        ensures
            policy.min_length == 1,
            policy.max_length == MAX_PASSWORD_BYTES,
    {
        PasswordPolicy { min_length: 1, max_length: MAX_PASSWORD_BYTES }
    }

    /// What this policy says of a text: the reason to turn it down, or `None`
    /// where it passes.
    pub open spec fn objection(&self, text: Seq<char>) -> Option<ValidationError> {
        if text.len() == 0 {
            Some(ValidationError::Empty)
        } else if byte_length(text) < self.min_length {
            Some(ValidationError::TooShort)
        } else if byte_length(text) > self.max_length || byte_length(text) > MAX_PASSWORD_BYTES {
            Some(ValidationError::TooLong)
        } else {
            None
        }
    }

    /// Whether a text passes this policy.
    pub open spec fn admits(&self, text: Seq<char>) -> bool {
        self.objection(text) is None
    }

    /// Holds a text to this policy.
    pub fn check(&self, text: &str) -> (r: Result<(), ValidationError>)
        ensures
            r is Ok <==> self.admits(text@),
            r matches Err(e) ==> self.objection(text@) == Some(e),
    {
        let bytes = text.as_bytes().len();
        if text.is_empty() {
            Err(ValidationError::Empty)
        } else if bytes < self.min_length {
            Err(ValidationError::TooShort)
        } else if bytes > self.max_length || bytes > MAX_PASSWORD_BYTES {
            Err(ValidationError::TooLong)
        } else {
            Ok(())
        }
    }
}

/// Whether a text can be a validated password under any policy: it is not
/// empty and has at most [`MAX_PASSWORD_BYTES`] bytes.
pub open spec fn acceptable(text: Seq<char>) -> bool {
    text.len() > 0 && byte_length(text) <= MAX_PASSWORD_BYTES
}

/// A password as it was typed, before anything is known about it.
pub struct PlaintextPassword(String);

impl View for PlaintextPassword {
    type V = Seq<char>;

    closed spec fn view(&self) -> Seq<char> {
        self.0@
    }
}

impl PlaintextPassword {
    /// Wraps a typed password.
    pub fn new(text: String) -> (p: PlaintextPassword)
        ensures
            p@ == text@,
    {
        PlaintextPassword(text)
    }

    /// The text to show in place of the password.
    pub fn redacted(&self) -> (shown: String)
        ensures
            shown@ == REDACTION@,
    {
        REDACTION.to_owned()
    }

    /// Holds the password to the standard policy.
    pub fn validate(self) -> (r: Result<ValidatedPassword, ValidationError>)
        ensures
            r is Ok <==> PasswordPolicy::standard_spec().admits(self@),
            r matches Ok(v) ==> v@ == self@,
            r matches Err(e) ==> PasswordPolicy::standard_spec().objection(self@) == Some(e),
    {
        self.validate_with(&PasswordPolicy::standard())
    }

    /// Holds the password to a policy: the same text comes back as a
    /// [`ValidatedPassword`] if the policy admits it, the policy's objection
    /// otherwise.
    pub fn validate_with(self, policy: &PasswordPolicy) -> (r: Result<
        ValidatedPassword,
        ValidationError,
    >)
        ensures
            r is Ok <==> policy.admits(self@),
            r matches Ok(v) ==> v@ == self@,
            r matches Err(e) ==> policy.objection(self@) == Some(e),
    {
        match policy.check(self.0.as_str()) {
            Ok(()) => Ok(ValidatedPassword { text: self.0 }),
            Err(e) => Err(e),
        }
    }
}

impl PasswordPolicy {
    /// The value of [`PasswordPolicy::standard`].
    pub open spec fn standard_spec() -> PasswordPolicy {
        PasswordPolicy { min_length: 1, max_length: MAX_PASSWORD_BYTES }
    }
}

/// A password that has passed a policy: not empty, and short enough to be
/// hashed in full.
pub struct ValidatedPassword {
    text: String,
}

impl View for ValidatedPassword {
    type V = Seq<char>;

    closed spec fn view(&self) -> Seq<char> {
        self.text@
    }
}

impl ValidatedPassword {
    #[verifier::type_invariant]
    spec fn well_formed(&self) -> bool {
        acceptable(self.text@)
    }

    /// The number of bytes of the password, which is never zero and never
    /// above [`MAX_PASSWORD_BYTES`].
    pub fn byte_len(&self) -> (n: usize)
        ensures
            n == byte_length(self@),
            acceptable(self@),
    {
        proof {
            use_type_invariant(self);
        }
        self.text.as_str().as_bytes().len()
    }

    /// The text to show in place of the password.
    pub fn redacted(&self) -> (shown: String)
        ensures
            shown@ == REDACTION@,
    {
        REDACTION.to_owned()
    }

    /// Confirms a password against its second entry: the two must be the
    /// same text, character for character.
    pub fn compare(self, again: PlaintextPassword) -> (r: Result<
        ValidatedPassword,
        ValidationError,
    >)
        ensures
            r is Ok <==> self@ == again@,
            r matches Ok(v) ==> v@ == self@,
            r matches Err(e) ==> e == ValidationError::Mismatch,
    {
        if self.text == again.0 {
            Ok(self)
        } else {
            Err(ValidationError::Mismatch)
        }
    }
}

/// What a check against a stored hash is to report, given bcrypt's verdict.
pub open spec fn outcome_of_verdict(verdict: Option<bool>) -> Result<(), VerificationError> {
    match verdict {
        Some(true) => Ok(()),
        Some(false) => Err(VerificationError::Password),
        None => Err(VerificationError::Process),
    }
}

/// Turns bcrypt's verdict into the result of a check: success for a match,
/// [`VerificationError::Password`] for a candidate that does not match, and
/// [`VerificationError::Process`] where bcrypt could not decide.
pub fn judge(verdict: Option<bool>) -> (r: Result<(), VerificationError>)
    ensures
        r == outcome_of_verdict(verdict),
{
    match verdict {
        Some(true) => Ok(()),
        Some(false) => Err(VerificationError::Password),
        None => Err(VerificationError::Process),
    }
}

/// Checks a candidate text against a hash text with bcrypt.
pub(crate) fn check_against_hash(candidate: &str, hash: &str) -> (r: Result<
    (),
    VerificationError,
>)
    ensures
        r == outcome_of_verdict(bcrypt_verdict(candidate@, hash@)),
{
    let verdict = match bcrypt_verify(candidate, hash) {
        Ok(matches) => Some(matches),
        Err(_) => None,
    };
    judge(verdict)
}

/// Something a plaintext password can be checked against.
pub trait Verify {
    /// Whether the candidate is what `self` stands for, or `None` where that
    /// cannot be decided.
    spec fn verdict(&self, candidate: Seq<char>) -> Option<bool>;

    /// Checks a candidate.
    fn verify(&self, given: PlaintextPassword) -> (r: Result<(), VerificationError>)
        ensures
            r == outcome_of_verdict(self.verdict(given@)),
    ;
}

/// Something that is made from a validated password and stands for it.
pub trait Create: Sized + Verify {
    /// Makes the value. Whenever one is made, it accepts the password it
    /// was made from.
    fn create(password: ValidatedPassword) -> (r: Result<Self, CreationError>)
        ensures
            r matches Ok(created) ==> created.verdict(password@) == Some(true),
            r matches Ok(created) ==> forall|candidate: Seq<char>|
                (#[trigger] created.verdict(candidate)) is Some,
            r matches Err(e) ==> e == CreationError::hashing(),
    ;
}

/// A stored password: the bcrypt hash of a plaintext, salt and cost
/// included.
pub struct Password(String);

impl View for Password {
    type V = Seq<char>;

    closed spec fn view(&self) -> Seq<char> {
        self.0@
    }
}

impl Password {
    /// Wraps a hash as it was stored.
    pub fn from_hash(hash: String) -> (p: Password)
        ensures
            p@ == hash@,
    {
        Password(hash)
    }

    /// The stored hash, for the one purpose of storing it again.
    pub fn as_hash(&self) -> (hash: &str)
        ensures
            hash@ == self@,
    {
        self.0.as_str()
    }

    /// A second value with the same hash.
    pub fn duplicate(&self) -> (copy: Password)
        ensures
            copy@ == self@,
    {
        Password(self.0.clone())
    }

    /// The text to show in place of the hash.
    pub fn redacted(&self) -> (shown: String)
        ensures
            shown@ == REDACTION@,
    {
        REDACTION.to_owned()
    }

    /// The stored password for what hashing gave: the hash where there is
    /// one, the error of a failed hashing where there is none.
    pub fn from_hashing(hashed: Option<String>) -> (r: Result<Password, CreationError>)
        ensures
            match hashed {
                Some(h) => r matches Ok(p) && p@ == h@,
                None => r == Err::<Password, CreationError>(CreationError::hashing()),
            },
    {
        match hashed {
            Some(h) => Ok(Password(h)),
            None => Err(CreationError { rejected: None }),
        }
    }
}

impl Verify for Password {
    open spec fn verdict(&self, candidate: Seq<char>) -> Option<bool> {
        bcrypt_verdict(candidate, self@)
    }

    fn verify(&self, given: PlaintextPassword) -> (r: Result<(), VerificationError>) {
        check_against_hash(given.0.as_str(), self.0.as_str())
    }
}

impl Create for Password {
    fn create(password: ValidatedPassword) -> (r: Result<Password, CreationError>) {
        let hashed = match bcrypt_hash(password.text.as_str()) {
            Ok(h) => Some(h),
            Err(_) => None,
        };
        Password::from_hashing(hashed)
    }
}

/// A hash that was created from a password accepts that password, and turns
/// any other candidate down as a wrong password or accepts it: checking against
/// it never fails for a fault of the check itself.
///
/// The two premises are what [`Create::create`] promises of every hash it
/// makes.
pub proof fn lemma_created_password_verifies(
    stored: Password,
    plaintext: Seq<char>,
    candidate: Seq<char>,
)
    requires
        stored.verdict(plaintext) == Some(true),
        forall|other: Seq<char>| (#[trigger] stored.verdict(other)) is Some,
    ensures
        outcome_of_verdict(stored.verdict(plaintext)) == Ok::<(), VerificationError>(()),
        outcome_of_verdict(stored.verdict(candidate)) != Err::<(), VerificationError>(
            VerificationError::Process,
        ),
{
    assert(stored.verdict(candidate) is Some);
}

} // verus!
