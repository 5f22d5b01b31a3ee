use vstd::prelude::*;

verus! {

/// Why a registration or an issuance collided with what the store already holds.
#[derive(Clone, Copy, Debug, PartialEq, Eq, Structural)]
pub enum Conflict {
    /// A user with this email is already registered.
    EmailTaken,
    /// The hash of the freshly drawn secret is already stored.
    SecretCollision,
}

/// The failure taxonomy of the token lifecycle.
#[derive(Clone, Copy, Debug, PartialEq, Eq, Structural)]
pub enum AuthError {
    /// Malformed input, such as an empty secret.
    Validation,
    /// A uniqueness rule of the store was hit.
    Conflict(Conflict),
    /// Authentication failed; the cause is deliberately withheld.
    Rejected,
    /// The store holds no such row. Never shown to a caller as such.
    NotFound,
    /// The store timed out or could not be reached; safe to retry.
    TransientStore,
    /// Unrecoverable startup condition.
    FatalConfig,
}

impl AuthError {
    /// The text shown to a caller for this failure. It names the kind of
    /// failure and nothing of its cause: a rejection reads the same whether the
    /// email or the password was wrong, and no detail of the store comes
    /// through.
    pub open spec fn message_text(self) -> Seq<char> {
        match self {
            AuthError::Validation => "invalid input"@,
            AuthError::Conflict(Conflict::EmailTaken) => "email already registered"@,
            AuthError::Conflict(Conflict::SecretCollision) => "could not issue a token"@,
            AuthError::Rejected => "invalid credentials"@,
            AuthError::NotFound => "not found"@,
            AuthError::TransientStore => "temporarily unavailable, try again"@,
            AuthError::FatalConfig => "service is not configured"@,
        }
    }

    /// The text shown to a caller for this failure.
    pub fn message(&self) -> (text: String)
        ensures
            text@ == self.message_text(),
    {
        match self {
            AuthError::Validation => String::from_str("invalid input"),
            AuthError::Conflict(Conflict::EmailTaken) => String::from_str("email already registered"),
            AuthError::Conflict(Conflict::SecretCollision) => String::from_str(
                "could not issue a token",
            ),
            AuthError::Rejected => String::from_str("invalid credentials"),
            AuthError::NotFound => String::from_str("not found"),
            AuthError::TransientStore => String::from_str("temporarily unavailable, try again"),
            AuthError::FatalConfig => String::from_str("service is not configured"),
        }
    }

    /// Whether the caller may simply try again.
    pub fn is_retryable(&self) -> (r: bool)
        ensures
            r == (*self is TransientStore),
    {
        match self {
            AuthError::TransientStore => true,
            _ => false,
        }
    }
}

} // verus!
