use vstd::prelude::*;
use vstd::pervasive::unreached;
use crate::clock::{clock_range, lemma_clock_range_expiry, now_utc};
use crate::database::{Database, DatabaseView};
use crate::engine::{run, run_spec};
use crate::entities::{User, UserView};
use crate::error::{AuthError, Conflict};
use crate::flow::{issue_start, resolve_start, revoke_start, token_plan, Flow, Outcome, OutcomeView};
use crate::hasher::{digest, is_encoded_text, SecretClass, SecretHasher};
use crate::laws::law_raw_secret_is_hashable;
use crate::secret::{generate_secret, is_raw_secret};

verus! {

/// The result of an operation that hands out a raw secret, as plain values.
pub open spec fn secret_result(r: Result<String, AuthError>) -> Result<Seq<char>, AuthError> {
    match r {
        Ok(secret) => Ok(secret@),
        Err(e) => Err(e),
    }
}

/// The result of an operation that hands out an identity, as plain values.
pub open spec fn identity_result(r: Result<User, AuthError>) -> Result<UserView, AuthError> {
    match r {
        Ok(user) => Ok(user@),
        Err(e) => Err(e),
    }
}

/// Issuing a credential for `user_id` at `now` with `secret` as its raw secret:
/// the database afterwards, and what the caller gets. The secret comes back
/// when its hash was stored with the expiry `ttl_days` after `now`; a hash that
/// is already stored is a conflict and leaves the database as it was.
pub open spec fn issued(
    db: DatabaseView,
    user_id: u128,
    name: Seq<char>,
    ttl_days: Option<i64>,
    now: i128,
    secret: Seq<char>,
) -> (DatabaseView, Result<Seq<char>, AuthError>) {
    match token_plan(secret, now, ttl_days) {
        Err(e) => (db, Err(e)),
        Ok((hash, expires_at)) => if db.tokens.rows.contains_key(hash) {
            (db, Err(AuthError::Conflict(Conflict::SecretCollision)))
        } else if db.tokens.full() {
            (db, Err(AuthError::TransientStore))
        } else {
            let row = db.tokens.fresh(user_id, name, hash, expires_at, now);
            (DatabaseView { tokens: db.tokens.inserted(row), ..db }, Ok(secret))
        },
    }
}

/// Whatever secret is drawn, its credential can be stored: the table has room,
/// and no raw secret has its hash in it. A store without credentials is one
/// such.
pub open spec fn takes_any_secret(db: DatabaseView) -> bool {
    &&& !db.tokens.full()
    &&& forall|s: Seq<char>|
        is_raw_secret(s) ==> !db.tokens.rows.contains_key(
            #[trigger] digest(SecretClass::Token, s).unwrap(),
        )
}

/// Resolving a presented raw secret at `now`: the owner of the credential with
/// its hash, if that credential is stored and has not expired, and the
/// credential stamped as used; in every other case the same rejection, and the
/// database as it was.
pub open spec fn resolved(db: DatabaseView, raw_secret: Seq<char>, now: i128) -> (
    DatabaseView,
    Result<UserView, AuthError>,
) {
    match digest(SecretClass::Token, raw_secret) {
        None => (db, Err(AuthError::Rejected)),
        Some(hash) => match db.owner(hash, now) {
            None => (db, Err(AuthError::Rejected)),
            Some(user) => (DatabaseView { tokens: db.tokens.touched(hash, now), ..db }, Ok(user)),
        },
    }
}

/// Revoking a raw secret: the database without the credential with its hash.
pub open spec fn revoked(db: DatabaseView, raw_secret: Seq<char>) -> DatabaseView {
    match digest(SecretClass::Token, raw_secret) {
        None => db,
        Some(hash) => DatabaseView { tokens: db.tokens.deleted(hash), ..db },
    }
}

/// The outcome that stands for the result of an issuance.
pub open spec fn secret_outcome(r: Result<Seq<char>, AuthError>) -> OutcomeView {
    match r {
        Ok(secret) => OutcomeView::Secret(secret),
        Err(e) => OutcomeView::Failed(e),
    }
}

/// The outcome that stands for the result of a resolution.
pub open spec fn identity_outcome(r: Result<UserView, AuthError>) -> OutcomeView {
    match r {
        Ok(user) => OutcomeView::Identity(user),
        Err(e) => OutcomeView::Failed(e),
    }
}

/// Run against the database, the issuance flow does what `issued` says.
pub proof fn lemma_run_issue(
    db: DatabaseView,
    user_id: u128,
    name: Seq<char>,
    ttl_days: Option<i64>,
    now: i128,
    secret: Seq<char>,
)
    ensures
        run_spec(db, issue_start(user_id, name, ttl_days, now, secret), now) == (
            issued(db, user_id, name, ttl_days, now, secret).0,
            secret_outcome(issued(db, user_id, name, ttl_days, now, secret).1),
        ),
{
    reveal_with_fuel(run_spec, 3);
}

/// Run against the database, the resolution flow does what `resolved` says.
pub proof fn lemma_run_resolve(db: DatabaseView, raw_secret: Seq<char>, now: i128)
    ensures
        run_spec(db, resolve_start(raw_secret), now) == (
            resolved(db, raw_secret, now).0,
            identity_outcome(resolved(db, raw_secret, now).1),
        ),
{
    reveal_with_fuel(run_spec, 4);
}

/// Run against the database, the revocation flow does what `revoked` says,
/// and always ends well.
pub proof fn lemma_run_revoke(db: DatabaseView, raw_secret: Seq<char>, now: i128)
    ensures
        run_spec(db, revoke_start(raw_secret), now) == (revoked(db, raw_secret), OutcomeView::Revoked),
{
    reveal_with_fuel(run_spec, 3);
}

/// The credential service: issues, resolves and revokes bearer credentials.
#[derive(Clone, Copy, Debug)]
pub struct TokenService {}

impl TokenService {
    pub fn new() -> (service: TokenService) {
        TokenService {  }
    }

    /// Generates a fresh raw secret.
    pub fn generate_token(&self) -> (secret: String)
        ensures
            is_raw_secret(secret@),
    {
        generate_secret()
    }

    /// Hashes a raw secret into the form under which its credential is stored.
    pub fn hash_token(&self, token: &str) -> (r: Result<String, AuthError>)
        ensures
            match r {
                Ok(hash) => digest(SecretClass::Token, token@) == Some(hash@) && is_encoded_text(hash@),
                Err(e) => e == AuthError::Validation && digest(SecretClass::Token, token@) is None,
            },
    {
        SecretHasher::new(SecretClass::Token).hash(token)
    }

    /// Issues a credential at `now` with `secret` as its raw secret.
    pub fn create_token_at(
        &self,
        db: &mut Database,
        user_id: u128,
        name: String,
        expires_in_days: Option<i64>,
        now: i128,
        secret: String,
    ) -> (r: Result<String, AuthError>)
        requires
            old(db).wf(),
        ensures
            final(db).wf(),
            (final(db)@, secret_result(r)) == issued(
                old(db)@,
                user_id,
                name@,
                expires_in_days,
                now,
                secret@,
            ),
    {
        proof {
            lemma_run_issue(db@, user_id, name@, expires_in_days, now, secret@);
        }
        match run(db, Flow::issue(user_id, name, expires_in_days, now, secret), now) {
            Outcome::Secret(secret) => Ok(secret),
            Outcome::Failed(e) => Err(e),
            _ => unreached(),
        }
    }

    /// Issues a credential now, with a freshly generated secret, and hands the
    /// raw secret back. Whatever time it is and whatever secret was drawn, the
    /// database and the result are as `issued` says for them. Where the store
    /// takes any secret, the issuance succeeds.
    pub fn create_token(
        &self,
        db: &mut Database,
        user_id: u128,
        name: String,
        expires_in_days: Option<i64>,
    ) -> (r: Result<String, AuthError>)
        requires
            old(db).wf(),
        ensures
            final(db).wf(),
            exists|now: i128, secret: Seq<char>|
                clock_range(now) && is_raw_secret(secret) && (final(db)@, secret_result(r))
                    == #[trigger] issued(old(db)@, user_id, name@, expires_in_days, now, secret),
            takes_any_secret(old(db)@) ==> r is Ok,
            r matches Ok(secret) ==> is_raw_secret(secret@),
            final(db)@.users == old(db)@.users,
    {
        let now = now_utc();
        let secret = self.generate_token();
        proof {
            law_raw_secret_is_hashable(secret@);
            lemma_clock_range_expiry(now, expires_in_days);
        }
        self.create_token_at(db, user_id, name, expires_in_days, now, secret)
    }

    /// Resolves a presented raw secret at `now`.
    pub fn validate_token_at(&self, db: &mut Database, token: &str, now: i128) -> (r: Result<
        User,
        AuthError,
    >)
        requires
            old(db).wf(),
        ensures
            final(db).wf(),
            (final(db)@, identity_result(r)) == resolved(old(db)@, token@, now),
    {
        proof {
            lemma_run_resolve(db@, token@, now);
        }
        match run(db, Flow::resolve(token), now) {
            Outcome::Identity(user) => Ok(user),
            Outcome::Failed(e) => Err(e),
            _ => unreached(),
        }
    }

    /// Resolves a presented raw secret now. Whatever time it is, the database
    /// and the result are as `resolved` says for it.
    pub fn validate_token(&self, db: &mut Database, token: &str) -> (r: Result<User, AuthError>)
        requires
            old(db).wf(),
        ensures
            final(db).wf(),
            exists|now: i128|
                clock_range(now) && (final(db)@, identity_result(r)) == #[trigger] resolved(
                    old(db)@,
                    token@,
                    now,
                ),
            final(db)@.users == old(db)@.users,
    {
        let now = now_utc();
        self.validate_token_at(db, token, now)
    }

    /// Revokes a raw secret. Nothing is wrong with revoking what is not there.
    pub fn revoke_token(&self, db: &mut Database, token: &str)
        requires
            old(db).wf(),
        ensures
            final(db).wf(),
            final(db)@ == revoked(old(db)@, token@),
    {
        // A delete does not look at the time.
        let now: i128 = 0;
        proof {
            lemma_run_revoke(db@, token@, now);
        }
        let _ = run(db, Flow::revoke(token), now);
    }
}

} // verus!
