//! Email-verification tokens.
//!
//! A token is drawn at random when an email address is recorded. Its
//! plaintext goes out in the verification message and is kept nowhere; the
//! record holds its bcrypt hash, against which a returning token is checked.

use crate::user::local_auth::password::{
    bcrypt_hash, bcrypt_verdict, check_against_hash, outcome_of_verdict,
};
pub use crate::user::local_auth::password::VerificationError;
use vstd::prelude::*;
use vstd::string::{StrSliceExecFns, StringExecFns};

verus! {

/// The error type of the `rand` crate.
#[verifier::external_type_specification]
#[verifier::external_body]
pub struct ExRandError(rand::Error);

/// Fills 32 bytes from the operating system's random source, through
/// `try_fill_bytes` of `rand::rngs::OsRng`, and hands on its error where the
/// source is unavailable. Nothing is claimed about the bytes.
#[verifier::external_body]
pub(crate) fn os_random_bytes() -> (r: Result<[u8; 32], rand::Error>) {
    let mut bytes = [0u8; 32];
    rand::RngCore::try_fill_bytes(&mut rand::rngs::OsRng, &mut bytes)?;
    Ok(bytes)
}

/// The number of random bytes in a token.
pub const TOKEN_BYTES: usize = 32;

/// The number of characters in a token's text: two per byte.
pub const TOKEN_LENGTH: usize = 64;

/// The hexadecimal digit for a number below sixteen.
pub open spec fn hex_digit(nibble: int) -> char {
    "0123456789abcdef"@[nibble]
}

/// The text of a byte string in lower-case hexadecimal digits, two per byte,
/// the higher half of each byte first.
pub open spec fn hex_text(bytes: Seq<u8>) -> Seq<char>
    decreases bytes.len(),
{
    if bytes.len() == 0 {
        Seq::empty()
    } else {
        hex_text(bytes.drop_last()).push(hex_digit(bytes.last() as int / 16)).push(
            hex_digit(bytes.last() as int % 16),
        )
    }
}

/// The hexadecimal text of a byte string has two characters per byte.
pub proof fn lemma_hex_text_len(bytes: Seq<u8>)
    ensures
        hex_text(bytes).len() == 2 * bytes.len(),
    decreases bytes.len(),
{
    if bytes.len() > 0 {
        lemma_hex_text_len(bytes.drop_last());
    }
}

/// Why no token was created.
#[derive(Clone, Copy, Debug, PartialEq, Eq, Structural)]
pub enum CreationError {
    /// The operating system gave no random bytes.
    Entropy,
    /// The token's hash could not be computed.
    Hashing,
}

impl CreationError {
    /// What to tell a reader about this error.
    pub fn message(&self) -> (text: &'static str)
        ensures
            text@ == "Error creating token"@,
    {
        "Error creating token"
    }
}

/// The plaintext of a freshly drawn token, to be sent to the address that is
/// to be verified.
pub struct EmailToken(String);

impl View for EmailToken {
    type V = Seq<char>;

    closed spec fn view(&self) -> Seq<char> {
        self.0@
    }
}

impl EmailToken {
    /// The token whose text spells out the given bytes in hexadecimal.
    pub fn from_bytes(bytes: &[u8; 32]) -> (token: EmailToken)
        ensures
            token@ == hex_text(bytes@),
            token@.len() == TOKEN_LENGTH,
    {
        let digits = "0123456789abcdef";
        proof {
            reveal_strlit("0123456789abcdef");
            lemma_hex_text_len(bytes@);
        }
        let mut text = String::new();
        let mut i: usize = 0;
        while i < 32
            invariant
                i <= 32,
                bytes@.len() == 32,
                digits@ == "0123456789abcdef"@,
                digits@.len() == 16,
                digits.is_ascii(),
                text@ == hex_text(bytes@.subrange(0, i as int)),
            decreases 32 - i,
        {
            let byte = bytes[i];
            let high = (byte / 16) as usize;
            let low = (byte % 16) as usize;
            let high_digit = digits.substring_ascii(high, high + 1);
            let low_digit = digits.substring_ascii(low, low + 1);
            text.append(high_digit);
            text.append(low_digit);
            proof {
                let seen = bytes@.subrange(0, i as int + 1);
                assert(seen.drop_last() =~= bytes@.subrange(0, i as int));
                assert(seen.last() == byte);
                assert(high_digit@ =~= seq![hex_digit(byte as int / 16)]);
                assert(low_digit@ =~= seq![hex_digit(byte as int % 16)]);
                assert(text@ =~= hex_text(seen));
            }
            i += 1;
        }
        proof {
            assert(bytes@.subrange(0, 32) =~= bytes@);
        }
        EmailToken(text)
    }

    /// The token for what the random source gave: the token of the bytes
    /// where there are bytes, [`CreationError::Entropy`] where there are none.
    pub fn from_drawn(drawn: Option<[u8; 32]>) -> (r: Result<EmailToken, CreationError>)
        ensures
            match drawn {
                Some(bytes) => r matches Ok(token) && token@ == hex_text(bytes@),
                None => r matches Err(e) && e == CreationError::Entropy,
            },
    {
        match drawn {
            Some(bytes) => Ok(EmailToken::from_bytes(&bytes)),
            None => Err(CreationError::Entropy),
        }
    }

    /// The text of the token, to be put into the verification message.
    pub fn as_str(&self) -> (text: &str)
        ensures
            text@ == self@,
    {
        self.0.as_str()
    }
}

/// A token as it came back from whoever claims to own the address.
pub struct EmailVerificationToken(String);

impl View for EmailVerificationToken {
    type V = Seq<char>;

    closed spec fn view(&self) -> Seq<char> {
        self.0@
    }
}

impl EmailVerificationToken {
    /// Wraps a token that was handed in.
    pub fn new(text: String) -> (token: EmailVerificationToken)
        ensures
            token@ == text@,
    {
        EmailVerificationToken(text)
    }
}

/// The bcrypt hash of a token, as the email's record keeps it.
pub struct HashedEmailToken(String);

impl View for HashedEmailToken {
    type V = Seq<char>;

    closed spec fn view(&self) -> Seq<char> {
        self.0@
    }
}

impl HashedEmailToken {
    /// Wraps a hash as it was stored.
    pub fn from_hash(hash: String) -> (hashed: HashedEmailToken)
        ensures
            hashed@ == hash@,
    {
        HashedEmailToken(hash)
    }

    /// The stored hash, for the one purpose of storing it again.
    pub fn as_hash(&self) -> (hash: &str)
        ensures
            hash@ == self@,
    {
        self.0.as_str()
    }

    /// A second value with the same hash.
    pub fn duplicate(&self) -> (copy: HashedEmailToken)
        ensures
            copy@ == self@,
    {
        HashedEmailToken(self.0.clone())
    }

    /// Whether a token text is the one that was hashed, as bcrypt judges
    /// it; `None` where the stored hash is not a bcrypt hash.
    pub open spec fn verdict(&self, token: Seq<char>) -> Option<bool> {
        bcrypt_verdict(token, self@)
    }

    /// Checks a returning token against the stored hash: success for the
    /// hashed token, [`VerificationError::Password`] for another text, and
    /// [`VerificationError::Process`] where the stored hash is unusable.
    pub fn verify_email(&self, token: &EmailVerificationToken) -> (r: Result<
        (),
        VerificationError,
    >)
        ensures
            r == outcome_of_verdict(self.verdict(token@)),
    {
        check_against_hash(token.0.as_str(), self.0.as_str())
    }
}

/// Pairs a token with what hashing it gave: the pair where there is a hash,
/// [`CreationError::Hashing`] where there is none.
pub fn pair_with_hash(token: EmailToken, hashed: Option<String>) -> (r: Result<
    (EmailToken, HashedEmailToken),
    CreationError,
>)
    ensures
        match hashed {
            Some(h) => r matches Ok(pair) && pair.0@ == token@ && pair.1@ == h@,
            None => r matches Err(e) && e == CreationError::Hashing,
        },
{
    match hashed {
        Some(h) => Ok((token, HashedEmailToken(h))),
        None => Err(CreationError::Hashing),
    }
}

/// Draws a token and hashes it.
///
/// Both steps are up to what they call: drawing fails with
/// [`CreationError::Entropy`], hashing with [`CreationError::Hashing`]. Where
/// a pair comes back, the plaintext spells out [`TOKEN_BYTES`] bytes in
/// hexadecimal, the hash accepts the plaintext, and the hash answers for
/// every other text without a fault of the check.
pub fn create_token() -> (r: Result<(EmailToken, HashedEmailToken), CreationError>)
    ensures
        r matches Ok(pair) ==> pair.1.verdict(pair.0@) == Some(true) && pair.0@.len()
            == TOKEN_LENGTH,
        r matches Ok(pair) ==> exists|bytes: Seq<u8>|
            bytes.len() == TOKEN_BYTES && pair.0@ == #[trigger] hex_text(bytes),
        r matches Ok(pair) ==> forall|other: Seq<char>| (#[trigger] pair.1.verdict(other)) is Some,
{
    let drawn = match os_random_bytes() {
        Ok(bytes) => Some(bytes),
        Err(_) => None,
    };
    match EmailToken::from_drawn(drawn) {
        Err(e) => Err(e),
        Ok(token) => {
            let hashed = match bcrypt_hash(token.as_str()) {
                Ok(h) => Some(h),
                Err(_) => None,
            };
            proof {
                lemma_hex_text_len(drawn->0@);
            }
            pair_with_hash(token, hashed)
        },
    }
}

} // verus!
