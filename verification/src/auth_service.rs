use vstd::prelude::*;
use vstd::pervasive::unreached;
use crate::clock::{clock_range, lemma_clock_range_expiry, now_utc};
use crate::database::{Database, DatabaseView};
use crate::engine::{run, run_spec};
use crate::error::{AuthError, Conflict};
use crate::flow::{default_name, login_start, register_start, token_plan, Flow, Outcome, DEFAULT_TTL_DAYS};
use crate::hasher::{
    digest,
    hashable,
    is_encoded_text,
    lemma_digest_verifies,
    verifies,
    SecretClass,
    SecretHasher,
};
use crate::laws::law_raw_secret_is_hashable;
use crate::messages::{AuthResponse, LoginRequest, RegisterRequest};
use crate::secret::{generate_secret, is_raw_secret};
use crate::token_service::{
    issued,
    lemma_run_issue,
    revoked,
    secret_outcome,
    takes_any_secret,
    TokenService,
};

verus! {

/// The result of a registration or a login, as plain values.
pub open spec fn response_result(r: Result<AuthResponse, AuthError>) -> Result<Seq<char>, AuthError> {
    match r {
        Ok(response) => Ok(response.token@),
        Err(e) => Err(e),
    }
}

/// Registering `email` with `password` at `now`, with `secret` as the raw
/// secret of the first credential: the database afterwards, and what the
/// caller gets.
///
/// An email that is already registered is a conflict, whatever the password.
/// Otherwise the password and the secret must be hashable. Then the user is
/// stored with the hash of the password, and a credential for that user with
/// the default name and lifetime; the raw secret comes back. If the credential
/// cannot be stored the user is not kept either.
pub open spec fn registered(
    db: DatabaseView,
    email: Seq<char>,
    password: Seq<char>,
    now: i128,
    secret: Seq<char>,
) -> (DatabaseView, Result<Seq<char>, AuthError>) {
    if db.users.rows.contains_key(email) {
        (db, Err(AuthError::Conflict(Conflict::EmailTaken)))
    } else {
        match digest(SecretClass::Password, password) {
            None => (db, Err(AuthError::Validation)),
            Some(password_hash) => match token_plan(secret, now, Some(DEFAULT_TTL_DAYS)) {
                Err(e) => (db, Err(e)),
                Ok((hash, expires_at)) => if db.users.full() {
                    (db, Err(AuthError::TransientStore))
                } else if db.tokens.rows.contains_key(hash) {
                    (
                        DatabaseView { users: db.users.skipped(), ..db },
                        Err(AuthError::Conflict(Conflict::SecretCollision)),
                    )
                } else if db.tokens.full() {
                    (DatabaseView { users: db.users.skipped(), ..db }, Err(AuthError::TransientStore))
                } else {
                    let user = db.users.fresh(email, password_hash, now);
                    let row = db.tokens.fresh(user.id, default_name(), hash, expires_at, now);
                    (
                        DatabaseView {
                            users: db.users.inserted(user),
                            tokens: db.tokens.inserted(row),
                        },
                        Ok(secret),
                    )
                },
            },
        }
    }
}

/// A user is stored under `email`, and `password` verifies against the stored
/// hash.
pub open spec fn has_account(db: DatabaseView, email: Seq<char>, password: Seq<char>) -> bool {
    db.users.rows.contains_key(email) && verifies(db.users.rows[email].password_hash, password)
}

/// Logging in as `email` with `password` at `now`, with `secret` as the raw
/// secret of the credential to issue. Where no user has the email, and where
/// the password does not verify against the stored hash, the result is the
/// same rejection and the database stays as it was. Otherwise one more
/// credential is issued to the user, with the default name and lifetime.
pub open spec fn logged_in(
    db: DatabaseView,
    email: Seq<char>,
    password: Seq<char>,
    now: i128,
    secret: Seq<char>,
) -> (DatabaseView, Result<Seq<char>, AuthError>) {
    if has_account(db, email, password) {
        issued(db, db.users.rows[email].id, default_name(), Some(DEFAULT_TTL_DAYS), now, secret)
    } else {
        (db, Err(AuthError::Rejected))
    }
}

/// Run against the database, the registration flow does what `registered`
/// says.
pub proof fn lemma_run_register(
    db: DatabaseView,
    email: Seq<char>,
    password: Seq<char>,
    now: i128,
    secret: Seq<char>,
)
    requires
        db.wf(),
    ensures
        run_spec(db, register_start(email, password, now, secret), now) == (
            registered(db, email, password, now, secret).0,
            secret_outcome(registered(db, email, password, now, secret).1),
        ),
{
    reveal_with_fuel(run_spec, 6);
    if !db.users.rows.contains_key(email) && !db.users.full() {
        match digest(SecretClass::Password, password) {
            Some(password_hash) => {
                db.users.lemma_insert_undone(db.users.fresh(email, password_hash, now));
            },
            None => {},
        }
    }
}

/// Run against the database, the login flow does what `logged_in` says.
pub proof fn lemma_run_login(
    db: DatabaseView,
    email: Seq<char>,
    password: Seq<char>,
    now: i128,
    secret: Seq<char>,
)
    ensures
        run_spec(db, login_start(email, password, now, secret), now) == (
            logged_in(db, email, password, now, secret).0,
            secret_outcome(logged_in(db, email, password, now, secret).1),
        ),
{
    reveal_with_fuel(run_spec, 4);
    if db.users.rows.contains_key(email) {
        lemma_run_issue(db, db.users.rows[email].id, default_name(), Some(DEFAULT_TTL_DAYS), now, secret);
    }
}

/// The identity service: registration, login and logout.
#[derive(Clone, Copy, Debug)]
pub struct AuthService {
    token_service: TokenService,
}

impl AuthService {
    pub fn new(token_service: TokenService) -> (service: AuthService) {
        AuthService { token_service }
    }

    /// Registers a user at `now` and issues the first credential, with `secret`
    /// as its raw secret.
    pub fn register_at(&self, db: &mut Database, req: RegisterRequest, now: i128, secret: String) -> (r:
        Result<AuthResponse, AuthError>)
        requires
            old(db).wf(),
        ensures
            final(db).wf(),
            (final(db)@, response_result(r)) == registered(
                old(db)@,
                req.email@,
                req.password@,
                now,
                secret@,
            ),
    {
        proof {
            db.lemma_wf();
            lemma_run_register(db@, req.email@, req.password@, now, secret@);
        }
        match run(db, Flow::register(req.email, req.password, now, secret), now) {
            Outcome::Secret(token) => Ok(AuthResponse { token }),
            Outcome::Failed(e) => Err(e),
            _ => unreached(),
        }
    }

    /// Registers a user now and issues the first credential, with a freshly
    /// generated secret. Whatever time it is and whatever secret was drawn, the
    /// database and the result are as `registered` says for them. Where the
    /// email is free, the password hashable, and the store has room and takes
    /// any secret, the registration succeeds.
    pub fn register(&self, db: &mut Database, req: RegisterRequest) -> (r: Result<
        AuthResponse,
        AuthError,
    >)
        requires
            old(db).wf(),
        ensures
            final(db).wf(),
            exists|now: i128, secret: Seq<char>|
                clock_range(now) && is_raw_secret(secret) && (final(db)@, response_result(r))
                    == #[trigger] registered(old(db)@, req.email@, req.password@, now, secret),
            !old(db)@.users.rows.contains_key(req.email@) && hashable(req.password@) && !old(
                db,
            )@.users.full() && takes_any_secret(old(db)@) ==> r is Ok,
            r matches Ok(response) ==> is_raw_secret(response.token@),
            r is Ok ==> has_account(final(db)@, req.email@, req.password@),
    {
        let now = now_utc();
        let secret = generate_secret();
        proof {
            law_raw_secret_is_hashable(secret@);
            lemma_clock_range_expiry(now, Some(DEFAULT_TTL_DAYS));
            if hashable(req.password@) {
                lemma_digest_verifies(SecretClass::Password, req.password@);
            }
        }
        self.register_at(db, req, now, secret)
    }

    /// Checks the password of a user at `now` and issues one more credential,
    /// with `secret` as its raw secret.
    pub fn login_at(&self, db: &mut Database, req: LoginRequest, now: i128, secret: String) -> (r:
        Result<AuthResponse, AuthError>)
        requires
            old(db).wf(),
        ensures
            final(db).wf(),
            (final(db)@, response_result(r)) == logged_in(
                old(db)@,
                req.email@,
                req.password@,
                now,
                secret@,
            ),
    {
        proof {
            lemma_run_login(db@, req.email@, req.password@, now, secret@);
        }
        match run(db, Flow::login(req.email, req.password, now, secret), now) {
            Outcome::Secret(token) => Ok(AuthResponse { token }),
            Outcome::Failed(e) => Err(e),
            _ => unreached(),
        }
    }

    /// Checks the password of a user now and issues one more credential, with
    /// a freshly generated secret. Whatever time it is and whatever secret was
    /// drawn, the database and the result are as `logged_in` says for them.
    /// Where the user has an account with this password and the store takes
    /// any secret, the login succeeds.
    pub fn login(&self, db: &mut Database, req: LoginRequest) -> (r: Result<AuthResponse, AuthError>)
        requires
            old(db).wf(),
        ensures
            final(db).wf(),
            exists|now: i128, secret: Seq<char>|
                clock_range(now) && is_raw_secret(secret) && (final(db)@, response_result(r))
                    == #[trigger] logged_in(old(db)@, req.email@, req.password@, now, secret),
            has_account(old(db)@, req.email@, req.password@) && takes_any_secret(old(db)@) ==> r is Ok,
            r matches Ok(response) ==> is_raw_secret(response.token@),
            final(db)@.users == old(db)@.users,
    {
        let now = now_utc();
        let secret = generate_secret();
        proof {
            law_raw_secret_is_hashable(secret@);
            lemma_clock_range_expiry(now, Some(DEFAULT_TTL_DAYS));
        }
        self.login_at(db, req, now, secret)
    }

    /// Revokes the presented credential. Always succeeds, also when there was
    /// nothing to revoke.
    pub fn logout(&self, db: &mut Database, token: &str) -> (r: Result<(), AuthError>)
        requires
            old(db).wf(),
        ensures
            final(db).wf(),
            r is Ok,
            final(db)@ == revoked(old(db)@, token@),
    {
        self.token_service.revoke_token(db, token);
        Ok(())
    }

    /// Hashes a password into the form in which it is stored.
    pub fn hash_password(&self, password: &str) -> (r: Result<String, AuthError>)
        ensures
            match r {
                Ok(hash) => digest(SecretClass::Password, password@) == Some(hash@) && is_encoded_text(
                    hash@,
                ),
                Err(e) => e == AuthError::Validation && digest(SecretClass::Password, password@) is None,
            },
    {
        SecretHasher::new(SecretClass::Password).hash(password)
    }

    /// Checks a password against a stored hash.
    pub fn verify_password(&self, password: &str, hash: &str) -> (ok: bool)
        ensures
            ok == verifies(hash@, password@),
    {
        SecretHasher::new(SecretClass::Password).verify(password, hash)
    }
}

} // verus!
