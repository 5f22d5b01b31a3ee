use vstd::prelude::*;
use rand::Rng;

verus! {

/// Length of the identifier component of a raw secret.
pub const IDENTIFIER_LEN: usize = 36;

/// Length of the random tail of a raw secret.
pub const TAIL_LEN: usize = 40;

/// The character between the identifier and the tail.
pub const SEPARATOR: char = '_';

/// An ASCII letter or digit.
pub open spec fn is_alphanumeric(c: char) -> bool {
    ('0' <= c <= '9') || ('A' <= c <= 'Z') || ('a' <= c <= 'z')
}

/// A digit or a lower-case letter from `a` to `f`.
pub open spec fn is_lower_hex(c: char) -> bool {
    ('0' <= c <= '9') || ('a' <= c <= 'f')
}

/// The text form of a UUID: 32 lower-case hexadecimal digits in groups of
/// 8, 4, 4, 4 and 12, with a hyphen between two groups.
pub open spec fn is_identifier(s: Seq<char>) -> bool {
    &&& s.len() == IDENTIFIER_LEN
    &&& forall|i: int|
        0 <= i < s.len() ==> if i == 8 || i == 13 || i == 18 || i == 23 {
            s[i] == '-'
        } else {
            is_lower_hex(#[trigger] s[i])
        }
}

/// A string of `TAIL_LEN` ASCII letters and digits.
pub open spec fn is_tail(s: Seq<char>) -> bool {
    &&& s.len() == TAIL_LEN
    &&& forall|i: int| 0 <= i < s.len() ==> is_alphanumeric(#[trigger] s[i])
}

/// The identifier, the separator and the tail, in this order.
pub open spec fn joined(identifier: Seq<char>, tail: Seq<char>) -> Seq<char> {
    identifier.push(SEPARATOR) + tail
}

/// The fixed structure of a raw secret: an identifier and a random tail around
/// the separator.
pub open spec fn is_raw_secret(s: Seq<char>) -> bool {
    exists|identifier: Seq<char>, tail: Seq<char>|
        is_identifier(identifier) && is_tail(tail) && s == #[trigger] joined(identifier, tail)
}

/// Draws a version 4 UUID with `uuid::Uuid::new_v4` and hands back its text
/// form. Trusted: the text is the hyphenated lower-case form. Which UUID comes
/// is left open.
#[verifier::external_body]
fn random_identifier() -> (s: String)
    ensures
        is_identifier(s@),
{
    uuid::Uuid::new_v4().to_string()
}

/// Draws one byte from `rand::distributions::Alphanumeric` with the thread's
/// generator. Trusted: the byte is an ASCII letter or digit. Which one comes is
/// left open.
#[verifier::external_body]
fn random_alphanumeric() -> (b: u8)
    ensures
        is_alphanumeric(b as char),
{
    rand::thread_rng().sample(rand::distributions::Alphanumeric)
}

/// `String::push`: appends one character.
#[verifier::external_body]
fn push_char(s: &mut String, c: char)
    ensures
        final(s)@ == old(s)@.push(c),
{
    s.push(c)
}

/// Draws the random tail of a raw secret, one character at a time.
fn random_tail() -> (tail: String)
    ensures
        is_tail(tail@),
{
    let mut tail = String::new();
    let mut i: usize = 0;
    while i < TAIL_LEN
        invariant
            i <= TAIL_LEN,
            tail@.len() == i,
            forall|k: int| 0 <= k < tail@.len() ==> is_alphanumeric(#[trigger] tail@[k]),
        decreases TAIL_LEN - i,
    {
        let b = random_alphanumeric();
        push_char(&mut tail, b as char);
        i += 1;
    }
    tail
}

/// Puts a raw secret together from its two components.
pub fn join_secret(identifier: &str, tail: &str) -> (secret: String)
    ensures
        secret@ == joined(identifier@, tail@),
{
    let mut secret = String::from_str(identifier);
    push_char(&mut secret, SEPARATOR);
    secret.append(tail);
    secret
}

/// Generates a fresh raw secret: a random identifier, the separator, and
/// `TAIL_LEN` random letters and digits.
pub fn generate_secret() -> (secret: String)
    ensures
        is_raw_secret(secret@),
{
    let identifier = random_identifier();
    let tail = random_tail();
    join_secret(identifier.as_str(), tail.as_str())
}

} // verus!
