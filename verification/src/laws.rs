use vstd::prelude::*;
use crate::auth_service::{has_account, logged_in, registered};
use crate::clock::{expiry_of, NANOS_PER_DAY};
use crate::database::DatabaseView;
use crate::error::{AuthError, Conflict};
use crate::flow::DEFAULT_TTL_DAYS;
use crate::hasher::{digest, hashable, lemma_digest_verifies, verifies, SecretClass};
use crate::secret::{
    is_alphanumeric,
    is_identifier,
    is_lower_hex,
    is_raw_secret,
    is_tail,
    joined,
    IDENTIFIER_LEN,
    SEPARATOR,
    TAIL_LEN,
};
use crate::token_service::{issued, resolved, revoked, takes_any_secret};

verus! {

/// A raw secret is 77 characters long: an identifier, the separator, and the
/// tail.
pub proof fn law_raw_secret_shape(s: Seq<char>)
    requires
        is_raw_secret(s),
    ensures
        s.len() == IDENTIFIER_LEN + 1 + TAIL_LEN,
        s[IDENTIFIER_LEN as int] == SEPARATOR,
        is_identifier(s.subrange(0, IDENTIFIER_LEN as int)),
        is_tail(s.subrange(IDENTIFIER_LEN + 1, s.len() as int)),
{
    let (identifier, tail) = choose|identifier: Seq<char>, tail: Seq<char>|
        is_identifier(identifier) && is_tail(tail) && s == #[trigger] joined(identifier, tail);
    assert(s.subrange(0, IDENTIFIER_LEN as int) =~= identifier);
    assert(s.subrange(IDENTIFIER_LEN + 1, s.len() as int) =~= tail);
}

/// Every generated secret can be hashed.
pub proof fn law_raw_secret_is_hashable(secret: Seq<char>)
    requires
        is_raw_secret(secret),
    ensures
        hashable(secret),
        digest(SecretClass::Token, secret) is Some,
{
    broadcast use vstd::utf8::is_ascii_chars_encode_utf8;

    let (identifier, tail) = choose|identifier: Seq<char>, tail: Seq<char>|
        is_identifier(identifier) && is_tail(tail) && secret == #[trigger] joined(identifier, tail);
    assert forall|i: int| 0 <= i < secret.len() implies '\0' <= #[trigger] secret[i] <= '\u{7f}' by {
        if i < identifier.len() {
            assert(secret[i] == identifier[i]);
            assert(identifier[i] == '-' || is_lower_hex(identifier[i]));
        } else if i == identifier.len() {
            assert(secret[i] == '_');
        } else {
            assert(secret[i] == tail[i - identifier.len() - 1]);
            assert(is_alphanumeric(tail[i - identifier.len() - 1]));
        }
    }
    assert(vstd::utf8::is_ascii_chars(secret));
}

/// Each operation takes a well-formed database to a well-formed database.
pub proof fn law_operations_keep_well_formed(
    db: DatabaseView,
    user_id: u128,
    name: Seq<char>,
    ttl_days: Option<i64>,
    email: Seq<char>,
    password: Seq<char>,
    now: i128,
    secret: Seq<char>,
)
    requires
        db.wf(),
    ensures
        issued(db, user_id, name, ttl_days, now, secret).0.wf(),
        resolved(db, secret, now).0.wf(),
        revoked(db, secret).wf(),
        registered(db, email, password, now, secret).0.wf(),
        logged_in(db, email, password, now, secret).0.wf(),
{
}

/// A registration succeeds with the secret it was given whenever the email is
/// free, the password and the secret are hashable, the expiry is an instant,
/// the hash of the secret is not stored yet, and both tables have room.
pub proof fn law_register_succeeds(
    db: DatabaseView,
    email: Seq<char>,
    password: Seq<char>,
    now: i128,
    secret: Seq<char>,
)
    requires
        !db.users.rows.contains_key(email),
        hashable(password),
        hashable(secret),
        expiry_of(now, Some(DEFAULT_TTL_DAYS)) is Ok,
        !db.tokens.rows.contains_key(digest(SecretClass::Token, secret).unwrap()),
        !db.users.full(),
        !db.tokens.full(),
    ensures
        registered(db, email, password, now, secret).1 == Ok::<Seq<char>, AuthError>(secret),
{
}

/// A registration that succeeds hands back the secret it was given, and that
/// secret resolves to a user with the registered email at every time before
/// the default lifetime has passed.
pub proof fn law_register_then_resolve(
    db: DatabaseView,
    email: Seq<char>,
    password: Seq<char>,
    now: i128,
    secret: Seq<char>,
    later: i128,
)
    requires
        db.wf(),
        registered(db, email, password, now, secret).1 is Ok,
        later < now + DEFAULT_TTL_DAYS * NANOS_PER_DAY,
    ensures
        registered(db, email, password, now, secret).1 == Ok::<Seq<char>, AuthError>(secret),
        resolved(registered(db, email, password, now, secret).0, secret, later).1 is Ok,
        resolved(registered(db, email, password, now, secret).0, secret, later).1.unwrap().email
            == email,
{
    let password_hash = digest(SecretClass::Password, password).unwrap();
    db.users.lemma_insert_undone(db.users.fresh(email, password_hash, now));
}

/// After a registration that succeeded, the user is stored under the email,
/// and the registered password verifies against the stored hash.
pub proof fn law_register_stores_password(
    db: DatabaseView,
    email: Seq<char>,
    password: Seq<char>,
    now: i128,
    secret: Seq<char>,
)
    requires
        registered(db, email, password, now, secret).1 is Ok,
    ensures
        has_account(registered(db, email, password, now, secret).0, email, password),
{
    lemma_digest_verifies(SecretClass::Password, password);
}

/// A login with the email and the password of a registered user is never
/// rejected. It succeeds with the secret it was given exactly when the
/// credential can be stored: the secret is hashable, the expiry is an instant,
/// the hash is not stored yet, and the store has room.
pub proof fn law_login_of_registered_user(
    db: DatabaseView,
    email: Seq<char>,
    password: Seq<char>,
    now: i128,
    secret: Seq<char>,
)
    requires
        has_account(db, email, password),
    ensures
        logged_in(db, email, password, now, secret).1 != Err::<Seq<char>, AuthError>(
            AuthError::Rejected,
        ),
        logged_in(db, email, password, now, secret).1 is Ok <==> {
            &&& hashable(secret)
            &&& expiry_of(now, Some(DEFAULT_TTL_DAYS)) is Ok
            &&& !db.tokens.rows.contains_key(digest(SecretClass::Token, secret).unwrap())
            &&& !db.tokens.full()
        },
        logged_in(db, email, password, now, secret).1 is Ok ==> logged_in(
            db,
            email,
            password,
            now,
            secret,
        ).1 == Ok::<Seq<char>, AuthError>(secret),
{
}

/// The secret of a login that succeeded differs from every secret whose
/// credential was stored before the login.
pub proof fn law_login_secret_is_new(
    db: DatabaseView,
    email: Seq<char>,
    password: Seq<char>,
    now: i128,
    secret: Seq<char>,
    earlier_secret: Seq<char>,
)
    requires
        logged_in(db, email, password, now, secret).1 is Ok,
        digest(SecretClass::Token, earlier_secret) is Some,
        db.tokens.rows.contains_key(digest(SecretClass::Token, earlier_secret).unwrap()),
    ensures
        logged_in(db, email, password, now, secret).1 == Ok::<Seq<char>, AuthError>(secret),
        secret != earlier_secret,
{
}

/// After a login that succeeded, the new secret resolves to the user who
/// logged in at every time before the default lifetime has passed, and every
/// other secret resolves as it did before the login.
pub proof fn law_login_keeps_credentials(
    db: DatabaseView,
    email: Seq<char>,
    password: Seq<char>,
    now: i128,
    secret: Seq<char>,
    other_secret: Seq<char>,
    later: i128,
)
    requires
        db.wf(),
        logged_in(db, email, password, now, secret).1 is Ok,
    ensures
        later < now + DEFAULT_TTL_DAYS * NANOS_PER_DAY ==> resolved(
            logged_in(db, email, password, now, secret).0,
            secret,
            later,
        ).1 == Ok::<crate::entities::UserView, AuthError>(db.users.rows[email]),
        digest(SecretClass::Token, other_secret) != digest(SecretClass::Token, secret) ==> resolved(
            logged_in(db, email, password, now, secret).0,
            other_secret,
            later,
        ).1 == resolved(db, other_secret, later).1,
        digest(SecretClass::Token, other_secret) is Some && db.tokens.rows.contains_key(
            digest(SecretClass::Token, other_secret).unwrap(),
        ) ==> resolved(logged_in(db, email, password, now, secret).0, other_secret, later).1
            == resolved(db, other_secret, later).1,
{
    db.users.lemma_by_id(email);
}

/// A registration with an email that is already registered fails with the
/// conflict `EmailTaken` and changes nothing, whatever the password, the time
/// and the secret.
pub proof fn law_register_email_taken(
    db: DatabaseView,
    email: Seq<char>,
    password: Seq<char>,
    now: i128,
    secret: Seq<char>,
)
    requires
        db.users.rows.contains_key(email),
    ensures
        registered(db, email, password, now, secret) == (
            db,
            Err::<Seq<char>, AuthError>(AuthError::Conflict(Conflict::EmailTaken)),
        ),
{
}

/// A login with an email that nobody has, and a login with the email of a
/// user and a password that does not verify, end in the same way: the same
/// rejection, and the database as it was.
pub proof fn law_login_rejections_alike(
    db: DatabaseView,
    unknown_email: Seq<char>,
    any_password: Seq<char>,
    known_email: Seq<char>,
    wrong_password: Seq<char>,
    now1: i128,
    secret1: Seq<char>,
    now2: i128,
    secret2: Seq<char>,
)
    requires
        !db.users.rows.contains_key(unknown_email),
        db.users.rows.contains_key(known_email),
        !verifies(db.users.rows[known_email].password_hash, wrong_password),
    ensures
        logged_in(db, unknown_email, any_password, now1, secret1) == (
            db,
            Err::<Seq<char>, AuthError>(AuthError::Rejected),
        ),
        logged_in(db, known_email, wrong_password, now2, secret2) == logged_in(
            db,
            unknown_email,
            any_password,
            now1,
            secret1,
        ),
{
}

/// A secret whose credential was never stored, one whose credential was
/// revoked, and one whose credential has expired are all resolved in the same
/// way: the same rejection, and the database as it was.
pub proof fn law_resolve_rejections_alike(
    db: DatabaseView,
    never_issued: Seq<char>,
    revoked_secret: Seq<char>,
    expired: Seq<char>,
    now: i128,
)
    requires
        digest(SecretClass::Token, never_issued) is Some ==> !db.tokens.rows.contains_key(
            digest(SecretClass::Token, never_issued).unwrap(),
        ),
        digest(SecretClass::Token, expired) is Some,
        db.tokens.rows.contains_key(digest(SecretClass::Token, expired).unwrap()),
        db.tokens.rows[digest(SecretClass::Token, expired).unwrap()].expires_at is Some,
        db.tokens.rows[digest(SecretClass::Token, expired).unwrap()].expires_at.unwrap() <= now,
    ensures
        resolved(db, never_issued, now) == (
            db,
            Err::<crate::entities::UserView, AuthError>(AuthError::Rejected),
        ),
        resolved(db, expired, now) == resolved(db, never_issued, now),
        resolved(revoked(db, revoked_secret), revoked_secret, now) == (
            revoked(db, revoked_secret),
            Err::<crate::entities::UserView, AuthError>(AuthError::Rejected),
        ),
{
}

/// After a logout the secret is rejected at every time, and a second logout
/// changes nothing more.
pub proof fn law_logout_then_resolve(db: DatabaseView, secret: Seq<char>, now: i128)
    ensures
        resolved(revoked(db, secret), secret, now) == (
            revoked(db, secret),
            Err::<crate::entities::UserView, AuthError>(AuthError::Rejected),
        ),
        revoked(revoked(db, secret), secret) == revoked(db, secret),
{
    match digest(SecretClass::Token, secret) {
        Some(hash) => {
            assert(db.tokens.rows.remove(hash).remove(hash) =~= db.tokens.rows.remove(hash));
        },
        None => {},
    }
}

/// A logout leaves the credentials of every other secret as they were: what
/// resolved before still resolves to the same user.
pub proof fn law_logout_spares_others(
    db: DatabaseView,
    secret: Seq<char>,
    other_secret: Seq<char>,
    now: i128,
)
    requires
        digest(SecretClass::Token, other_secret) != digest(SecretClass::Token, secret),
    ensures
        resolved(revoked(db, secret), other_secret, now).1 == resolved(db, other_secret, now).1,
{
}

/// A credential issued for `ttl_days` days to a stored user resolves to that
/// user at every time before its lifetime has passed, and is rejected from
/// then on. One issued without a lifetime resolves at every time.
pub proof fn law_expiry(
    db: DatabaseView,
    user_id: u128,
    name: Seq<char>,
    ttl_days: Option<i64>,
    now: i128,
    secret: Seq<char>,
    later: i128,
)
    requires
        db.users.by_id(user_id) is Some,
        issued(db, user_id, name, ttl_days, now, secret).1 is Ok,
    ensures
        resolved(issued(db, user_id, name, ttl_days, now, secret).0, secret, later).1 == (match ttl_days {
            Some(days) if later >= now + days * NANOS_PER_DAY => Err::<
                crate::entities::UserView,
                AuthError,
            >(AuthError::Rejected),
            _ => Ok::<crate::entities::UserView, AuthError>(db.users.by_id(user_id).unwrap()),
        }),
{
}

/// A store without credentials takes any secret.
pub proof fn law_empty_store_takes_any_secret(db: DatabaseView)
    requires
        db.tokens.rows == Map::<Seq<char>, crate::entities::TokenView>::empty(),
        !db.tokens.full(),
    ensures
        takes_any_secret(db),
        takes_any_secret(DatabaseView::empty()),
{
}

/// No operation takes an account away: where a user was stored under an email
/// and a password verified against the stored hash, both still hold after any
/// registration, login, issuance, resolution or logout.
pub proof fn law_account_stays(
    db: DatabaseView,
    email: Seq<char>,
    password: Seq<char>,
    other_email: Seq<char>,
    other_password: Seq<char>,
    user_id: u128,
    name: Seq<char>,
    ttl_days: Option<i64>,
    now: i128,
    secret: Seq<char>,
)
    requires
        has_account(db, email, password),
    ensures
        has_account(registered(db, other_email, other_password, now, secret).0, email, password),
        has_account(logged_in(db, other_email, other_password, now, secret).0, email, password),
        has_account(issued(db, user_id, name, ttl_days, now, secret).0, email, password),
        has_account(resolved(db, secret, now).0, email, password),
        has_account(revoked(db, secret), email, password),
{
}

/// One call on the services, with the time it read and the secret it drew.
pub enum Call {
    Register { email: Seq<char>, password: Seq<char>, now: i128, secret: Seq<char> },
    Login { email: Seq<char>, password: Seq<char>, now: i128, secret: Seq<char> },
    Issue { user_id: u128, name: Seq<char>, ttl_days: Option<i64>, now: i128, secret: Seq<char> },
    Resolve { secret: Seq<char>, now: i128 },
    Logout { secret: Seq<char> },
}

/// The database after one call.
pub open spec fn after_call(db: DatabaseView, call: Call) -> DatabaseView {
    match call {
        Call::Register { email, password, now, secret } => registered(
            db,
            email,
            password,
            now,
            secret,
        ).0,
        Call::Login { email, password, now, secret } => logged_in(db, email, password, now, secret).0,
        Call::Issue { user_id, name, ttl_days, now, secret } => issued(
            db,
            user_id,
            name,
            ttl_days,
            now,
            secret,
        ).0,
        Call::Resolve { secret, now } => resolved(db, secret, now).0,
        Call::Logout { secret } => revoked(db, secret),
    }
}

/// The database after a sequence of calls, the first call first.
pub open spec fn after_calls(db: DatabaseView, calls: Seq<Call>) -> DatabaseView
    decreases calls.len(),
{
    if calls.len() == 0 {
        db
    } else {
        after_call(after_calls(db, calls.drop_last()), calls.last())
    }
}

/// An account outlives every sequence of calls.
pub proof fn law_account_outlives_calls(
    db: DatabaseView,
    email: Seq<char>,
    password: Seq<char>,
    calls: Seq<Call>,
)
    requires
        has_account(db, email, password),
    ensures
        has_account(after_calls(db, calls), email, password),
    decreases calls.len(),
{
    if calls.len() > 0 {
        law_account_outlives_calls(db, email, password, calls.drop_last());
    }
}

/// After a registration that succeeded, and after any calls since, whether
/// they succeeded or not, a login with the registered email and password
/// succeeds with the secret it was given, provided that the credential can be
/// stored: the secret is hashable, the expiry is an instant, the hash is not
/// stored yet, and the table has room. Credentials that the user holds, has
/// revoked or has let expire play no part.
pub proof fn law_login_after_any_calls(
    db: DatabaseView,
    email: Seq<char>,
    password: Seq<char>,
    registered_at: i128,
    first_secret: Seq<char>,
    calls: Seq<Call>,
    now: i128,
    secret: Seq<char>,
)
    requires
        registered(db, email, password, registered_at, first_secret).1 is Ok,
        hashable(secret),
        expiry_of(now, Some(DEFAULT_TTL_DAYS)) is Ok,
        !after_calls(
            registered(db, email, password, registered_at, first_secret).0,
            calls,
        ).tokens.rows.contains_key(digest(SecretClass::Token, secret).unwrap()),
        !after_calls(registered(db, email, password, registered_at, first_secret).0, calls).tokens.full(),
    ensures
        logged_in(
            after_calls(registered(db, email, password, registered_at, first_secret).0, calls),
            email,
            password,
            now,
            secret,
        ).1 == Ok::<Seq<char>, AuthError>(secret),
        secret.len() > 0,
{
    law_register_stores_password(db, email, password, registered_at, first_secret);
    law_account_outlives_calls(
        registered(db, email, password, registered_at, first_secret).0,
        email,
        password,
        calls,
    );
}

} // verus!
