use vstd::prelude::*;
use crate::clock::{clock_range, now_utc};
use crate::database::{Database, DatabaseView};
use crate::entities::{User, UserView};
use crate::error::AuthError;
use crate::flow::{resolve_start, Flow, Outcome, OutcomeView, Progress, ProgressView};
use crate::token_service::{resolved, TokenService};

verus! {

/// What stands before the secret in an authorization header.
pub open spec fn bearer_prefix() -> Seq<char> {
    "Bearer "@
}

/// The raw secret that an authorization header carries: what follows the
/// prefix. A header that does not start with the prefix carries none.
pub open spec fn bearer_of(header: Seq<char>) -> Option<Seq<char>> {
    if bearer_prefix().is_prefix_of(header) {
        Some(header.skip(bearer_prefix().len() as int))
    } else {
        None
    }
}

/// A request header that may be absent, as plain values.
pub open spec fn header_view(header: Option<&str>) -> Option<Seq<char>> {
    match header {
        Some(text) => Some(text@),
        None => None,
    }
}

/// The raw secret of a request: that of its authorization header, if it has
/// one.
pub open spec fn presented(authorization: Option<Seq<char>>) -> Option<Seq<char>> {
    match authorization {
        Some(header) => bearer_of(header),
        None => None,
    }
}

/// Authenticating a request at `now`: a request without a well-formed
/// authorization header is rejected before the store is asked; any other is
/// resolved by its secret.
pub open spec fn authenticated(db: DatabaseView, authorization: Option<Seq<char>>, now: i128) -> (
    DatabaseView,
    Result<UserView, AuthError>,
) {
    match presented(authorization) {
        None => (db, Err(AuthError::Rejected)),
        Some(secret) => resolved(db, secret, now),
    }
}

/// How the authentication of a request begins.
pub open spec fn authenticate_start(authorization: Option<Seq<char>>) -> ProgressView {
    match presented(authorization) {
        None => ProgressView::Done(OutcomeView::Failed(AuthError::Rejected)),
        Some(secret) => resolve_start(secret),
    }
}

/// `str::strip_prefix`: what follows the prefix, for a string that starts with
/// it.
#[verifier::external_body]
fn strip_prefix<'a>(text: &'a str, prefix: &str) -> (r: Option<&'a str>)
    ensures
        match r {
            Some(rest) => text@ == prefix@ + rest@,
            None => !prefix@.is_prefix_of(text@),
        },
{
    text.strip_prefix(prefix)
}

/// Takes the raw secret out of an authorization header.
pub fn bearer_secret(header: &str) -> (r: Option<&str>)
    ensures
        header_view(r) == bearer_of(header@),
{
    let r = strip_prefix(header, "Bearer ");
    proof {
        match r {
            Some(rest) => {
                assert(header@.subrange(0, bearer_prefix().len() as int) =~= bearer_prefix());
                assert(header@.skip(bearer_prefix().len() as int) =~= rest@);
            },
            None => {},
        }
    }
    r
}

/// Begins the authentication of a request with this authorization header.
pub fn authenticate(authorization: Option<&str>) -> (p: Progress)
    ensures
        p@ == authenticate_start(header_view(authorization)),
{
    let secret = match authorization {
        Some(header) => bearer_secret(header),
        None => None,
    };
    match secret {
        Some(secret) => Flow::resolve(secret),
        None => Progress::Done(Outcome::Failed(AuthError::Rejected)),
    }
}

/// The identity that a request was authenticated as.
#[derive(Debug)]
pub struct AuthenticatedUser(pub User);

/// The result of an authentication, as plain values.
pub open spec fn authenticated_result(r: Result<AuthenticatedUser, AuthError>) -> Result<
    UserView,
    AuthError,
> {
    match r {
        Ok(identity) => Ok(identity.0@),
        Err(e) => Err(e),
    }
}

impl AuthenticatedUser {
    /// Authenticates a request at `now` by its authorization header.
    pub fn from_request_at(
        token_service: &TokenService,
        db: &mut Database,
        authorization: Option<&str>,
        now: i128,
    ) -> (r: Result<AuthenticatedUser, AuthError>)
        requires
            old(db).wf(),
        ensures
            final(db).wf(),
            (final(db)@, authenticated_result(r)) == authenticated(
                old(db)@,
                header_view(authorization),
                now,
            ),
    {
        let secret = match authorization {
            Some(header) => bearer_secret(header),
            None => None,
        };
        match secret {
            None => Err(AuthError::Rejected),
            Some(secret) => match token_service.validate_token_at(db, secret, now) {
                Ok(user) => Ok(AuthenticatedUser(user)),
                Err(e) => Err(e),
            },
        }
    }

    /// Authenticates a request now by its authorization header. Whatever time
    /// it is, the database and the result are as `authenticated` says for it.
    pub fn from_request(
        token_service: &TokenService,
        db: &mut Database,
        authorization: Option<&str>,
    ) -> (r: Result<AuthenticatedUser, AuthError>)
        requires
            old(db).wf(),
        ensures
            final(db).wf(),
            exists|now: i128|
                clock_range(now) && (final(db)@, authenticated_result(r)) == #[trigger] authenticated(
                    old(db)@,
                    header_view(authorization),
                    now,
                ),
            final(db)@.users == old(db)@.users,
    {
        let now = now_utc();
        AuthenticatedUser::from_request_at(token_service, db, authorization, now)
    }
}

} // verus!
