use vstd::prelude::*;
use vstd::utf8::encode_utf8;
use crate::error::AuthError;

verus! {

/// The encoded hash that `argon2::hash_encoded` computes for a secret and a
/// salt under the crate's default configuration.
pub uninterp spec fn argon2id_encoded(secret: Seq<char>, salt: Seq<char>) -> Seq<char>;

/// What `argon2::verify_encoded` answers for an encoded hash and a secret;
/// `None` where it reports an error, such as a hash it cannot decode.
pub uninterp spec fn argon2_verify_encoded(encoded: Seq<char>, secret: Seq<char>) -> Option<bool>;

/// The inputs that Argon2 hashes under its default configuration: a secret of
/// at most 2^32 - 1 bytes and a salt of 8 to 2^32 - 1 bytes.
pub open spec fn argon2_accepts(secret: Seq<char>, salt: Seq<char>) -> bool {
    &&& encode_utf8(secret).len() <= 0xFFFF_FFFF
    &&& 8 <= encode_utf8(salt).len() <= 0xFFFF_FFFF
}

/// The characters that an encoded hash is written in: ASCII letters and
/// digits, and `$`, `=`, `,`, `+` and `/`.
pub open spec fn is_encoded_char(c: char) -> bool {
    ||| '0' <= c <= '9'
    ||| 'A' <= c <= 'Z'
    ||| 'a' <= c <= 'z'
    ||| c == '$'
    ||| c == '='
    ||| c == ','
    ||| c == '+'
    ||| c == '/'
}

/// A text that can be stored and sent as it is, without escaping.
pub open spec fn is_encoded_text(s: Seq<char>) -> bool {
    forall|i: int| 0 <= i < s.len() ==> is_encoded_char(#[trigger] s[i])
}

/// Whether `encoded` is the hash that Argon2 makes from `secret` under some
/// salt that it accepts.
pub open spec fn made_from(encoded: Seq<char>, secret: Seq<char>) -> bool {
    exists|salt: Seq<char>|
        argon2_accepts(secret, salt) && encoded == #[trigger] argon2id_encoded(secret, salt)
}

/// The error type of the Argon2 crate. Nothing is read from it.
#[verifier::external_type_specification]
#[verifier::external_body]
pub struct ExArgon2Error(argon2::Error);

/// Calls `argon2::hash_encoded` on the UTF-8 bytes of `secret` and `salt` with
/// `argon2::Config::default()`. Trusted: the call fails exactly on the lengths
/// that the configuration refuses; its result depends on the two inputs
/// alone; and the result is written in the characters of the encoding: names
/// and numbers of the parameters, and unpadded base64, between `$` signs.
#[verifier::external_body]
fn argon2_hash_encoded(secret: &str, salt: &str) -> (r: Result<String, argon2::Error>)
    ensures
        r is Ok <==> argon2_accepts(secret@, salt@),
        r matches Ok(h) ==> h@ == argon2id_encoded(secret@, salt@),
        r matches Ok(h) ==> is_encoded_text(h@),
{
    argon2::hash_encoded(secret.as_bytes(), salt.as_bytes(), &argon2::Config::default())
}

/// Calls `argon2::verify_encoded` on an encoded hash and the UTF-8 bytes of
/// `secret`. Trusted: the answer depends on the two inputs alone, and a hash
/// that `argon2::hash_encoded` made from the same secret verifies. Nothing is
/// claimed of the time and memory that a stored hash makes the call spend.
#[verifier::external_body]
fn argon2_verify(encoded: &str, secret: &str) -> (r: Result<bool, argon2::Error>)
    ensures
        r matches Ok(answer) ==> argon2_verify_encoded(encoded@, secret@) == Some(answer),
        r is Err ==> argon2_verify_encoded(encoded@, secret@) is None,
        made_from(encoded@, secret@) ==> r is Ok && r.unwrap(),
{
    argon2::verify_encoded(encoded, secret.as_bytes())
}

/// The two classes of secret. Each class has one fixed salt, so that hashing is
/// a function of the secret and a stored hash can be looked up by equality.
#[derive(Clone, Copy, Debug, PartialEq, Eq, Structural)]
pub enum SecretClass {
    Password,
    Token,
}

/// The salt shared by all secrets of a class.
pub open spec fn class_salt(class: SecretClass) -> Seq<char> {
    match class {
        SecretClass::Password => "unique_salt_for_password"@,
        SecretClass::Token => "unique_salt_for_tokens"@,
    }
}

/// The secrets that can be hashed: not empty, and no longer than Argon2 takes.
pub open spec fn hashable(secret: Seq<char>) -> bool {
    secret.len() > 0 && encode_utf8(secret).len() <= 0xFFFF_FFFF
}

/// Whether `secret` passes verification against a stored hash: Argon2 says
/// so, as it does of every hash that was made from the secret itself.
pub open spec fn verifies(stored_hash: Seq<char>, secret: Seq<char>) -> bool {
    argon2_verify_encoded(stored_hash, secret) == Some(true) || made_from(stored_hash, secret)
}

/// The stored form of a secret of the given class: its encoded Argon2 hash
/// under the class salt. Only a hashable secret has one.
pub open spec fn digest(class: SecretClass, secret: Seq<char>) -> Option<Seq<char>> {
    if hashable(secret) {
        Some(argon2id_encoded(secret, class_salt(class)))
    } else {
        None
    }
}

/// Argon2 accepts the salt of either class.
pub proof fn lemma_class_salt_accepted(class: SecretClass)
    ensures
        8 <= encode_utf8(class_salt(class)).len() <= 0xFFFF_FFFF,
{
    broadcast use vstd::utf8::is_ascii_chars_encode_utf8;

    reveal_strlit("unique_salt_for_password");
    reveal_strlit("unique_salt_for_tokens");
    assert(vstd::utf8::is_ascii_chars("unique_salt_for_password"@));
    assert(vstd::utf8::is_ascii_chars("unique_salt_for_tokens"@));
}

/// A secret verifies against its own digest, whatever the class.
pub proof fn lemma_digest_verifies(class: SecretClass, secret: Seq<char>)
    requires
        hashable(secret),
    ensures
        digest(class, secret) is Some,
        verifies(digest(class, secret).unwrap(), secret),
{
    lemma_class_salt_accepted(class);
    assert(argon2_accepts(secret, class_salt(class)));
}

/// One-way hashing of the secrets of one class.
#[derive(Clone, Copy, Debug)]
pub struct SecretHasher {
    pub class: SecretClass,
}

impl SecretHasher {
    pub fn new(class: SecretClass) -> (hasher: SecretHasher)
        ensures
            hasher.class == class,
    {
        SecretHasher { class }
    }

    /// The salt of this hasher's class.
    pub fn salt(&self) -> (salt: &'static str)
        ensures
            salt@ == class_salt(self.class),
    {
        match self.class {
            SecretClass::Password => "unique_salt_for_password",
            SecretClass::Token => "unique_salt_for_tokens",
        }
    }

    /// Hashes a secret. The same secret always gives the same hash, and the
    /// hash needs no escaping. An empty secret, or one too long to hash, is a
    /// validation failure.
    pub fn hash(&self, secret: &str) -> (r: Result<String, AuthError>)
        ensures
            r is Ok <==> hashable(secret@),
            r matches Ok(h) ==> digest(self.class, secret@) == Some(h@) && is_encoded_text(h@),
            r matches Err(e) ==> e == AuthError::Validation && digest(self.class, secret@) is None,
    {
        if secret.is_empty() {
            return Err(AuthError::Validation);
        }
        let bytes = secret.as_bytes();
        if bytes.len() > 0xFFFF_FFFF {
            return Err(AuthError::Validation);
        }
        let salt = self.salt();
        proof {
            lemma_class_salt_accepted(self.class);
        }
        match argon2_hash_encoded(secret, salt) {
            Ok(h) => Ok(h),
            Err(_) => Err(AuthError::Validation),
        }
    }

    /// Checks a secret against a stored hash. A stored hash that cannot be
    /// decoded verifies nothing.
    pub fn verify(&self, secret: &str, stored_hash: &str) -> (ok: bool)
        ensures
            ok == verifies(stored_hash@, secret@),
    {
        match argon2_verify(stored_hash, secret) {
            Ok(answer) => answer,
            Err(_) => false,
        }
    }
}

} // verus!
