use vstd::prelude::*;
use crate::clock::{clock_range, expires_at, expiry_of, lemma_clock_range_expiry, now_utc};
use crate::database::{ReplyView, RequestView, StoreReply, StoreRequest};
use crate::entities::{User, UserView};
use crate::error::{AuthError, Conflict};
use crate::hasher::{digest, verifies, SecretClass, SecretHasher};
use crate::laws::law_raw_secret_is_hashable;
use crate::secret::{generate_secret, is_raw_secret};

verus! {

/// Lifetime, in days, of the credential that a registration or a login issues.
pub const DEFAULT_TTL_DAYS: i64 = 30;

/// Display name of the credential that a registration or a login issues.
pub open spec fn default_name() -> Seq<char> {
    "auth-token"@
}

/// The display name of the credential that a registration or a login issues.
pub fn default_token_name() -> (name: String)
    ensures
        name@ == default_name(),
{
    String::from_str("auth-token")
}

/// How an operation ended.
#[derive(Debug)]
pub enum Outcome {
    /// A credential was issued; this is its raw secret, shown this once.
    Secret(String),
    /// The presented secret belongs to this user.
    Identity(User),
    /// The credential is gone, or never was.
    Revoked,
    /// The operation failed.
    Failed(AuthError),
}

/// An `Outcome` as plain values.
pub enum OutcomeView {
    Secret(Seq<char>),
    Identity(UserView),
    Revoked,
    Failed(AuthError),
}

impl View for Outcome {
    type V = OutcomeView;

    open spec fn view(&self) -> OutcomeView {
        match *self {
            Outcome::Secret(secret) => OutcomeView::Secret(secret@),
            Outcome::Identity(user) => OutcomeView::Identity(user@),
            Outcome::Revoked => OutcomeView::Revoked,
            Outcome::Failed(e) => OutcomeView::Failed(e),
        }
    }
}

/// An operation that waits for the store's reply to its last request. The
/// variant says which reply is awaited and holds what the next step needs.
#[derive(Debug)]
pub enum Flow {
    /// A registration, waiting to learn whether the email is taken.
    RegisterLookup { email: String, password: String, secret: String, now: i128 },
    /// A registration, waiting for the user row.
    RegisterUser { secret: String, hash: String, expires_at: Option<i128> },
    /// A registration, waiting for the credential row.
    RegisterToken { user_id: u128, secret: String },
    /// A registration whose credential could not be stored, waiting for the
    /// user row to be taken back.
    RegisterUndo { error: AuthError },
    /// A login, waiting for the user row.
    LoginLookup { password: String, secret: String, now: i128 },
    /// An issuance, waiting for the credential row.
    IssueInsert { secret: String },
    /// A resolution, waiting for the owner of the credential.
    ResolveLookup { hash: String },
    /// A resolution that has succeeded, waiting for the last-use stamp.
    ResolveTouch { user: User },
    /// A revocation, waiting for the delete.
    RevokeDelete,
}

/// A `Flow` as plain values.
pub enum FlowView {
    RegisterLookup { email: Seq<char>, password: Seq<char>, secret: Seq<char>, now: i128 },
    RegisterUser { secret: Seq<char>, hash: Seq<char>, expires_at: Option<i128> },
    RegisterToken { user_id: u128, secret: Seq<char> },
    RegisterUndo { error: AuthError },
    LoginLookup { password: Seq<char>, secret: Seq<char>, now: i128 },
    IssueInsert { secret: Seq<char> },
    ResolveLookup { hash: Seq<char> },
    ResolveTouch { user: UserView },
    RevokeDelete,
}

impl View for Flow {
    type V = FlowView;

    open spec fn view(&self) -> FlowView {
        match *self {
            Flow::RegisterLookup { email, password, secret, now } => FlowView::RegisterLookup {
                email: email@,
                password: password@,
                secret: secret@,
                now,
            },
            Flow::RegisterUser { secret, hash, expires_at } => FlowView::RegisterUser {
                secret: secret@,
                hash: hash@,
                expires_at,
            },
            Flow::RegisterToken { user_id, secret } => FlowView::RegisterToken {
                user_id,
                secret: secret@,
            },
            Flow::RegisterUndo { error } => FlowView::RegisterUndo { error },
            Flow::LoginLookup { password, secret, now } => FlowView::LoginLookup {
                password: password@,
                secret: secret@,
                now,
            },
            Flow::IssueInsert { secret } => FlowView::IssueInsert { secret: secret@ },
            Flow::ResolveLookup { hash } => FlowView::ResolveLookup { hash: hash@ },
            Flow::ResolveTouch { user } => FlowView::ResolveTouch { user: user@ },
            Flow::RevokeDelete => FlowView::RevokeDelete,
        }
    }
}

/// Where an operation stands: it asks the store for one thing and goes on as
/// the flow when the reply is in, or it has ended.
#[derive(Debug)]
pub enum Progress {
    Ask(StoreRequest, Flow),
    Done(Outcome),
}

/// A `Progress` as plain values.
pub enum ProgressView {
    Ask(RequestView, FlowView),
    Done(OutcomeView),
}

impl View for Progress {
    type V = ProgressView;

    open spec fn view(&self) -> ProgressView {
        match *self {
            Progress::Ask(request, flow) => ProgressView::Ask(request@, flow@),
            Progress::Done(outcome) => ProgressView::Done(outcome@),
        }
    }
}

/// What is stored for a new credential: the hash of its secret and its expiry.
pub open spec fn token_plan(secret: Seq<char>, now: i128, ttl_days: Option<i64>) -> Result<
    (Seq<char>, Option<i128>),
    AuthError,
> {
    match digest(SecretClass::Token, secret) {
        None => Err(AuthError::Validation),
        Some(hash) => match expiry_of(now, ttl_days) {
            Err(e) => Err(e),
            Ok(expires_at) => Ok((hash, expires_at)),
        },
    }
}

/// How an issuance begins.
pub open spec fn issue_start(
    user_id: u128,
    name: Seq<char>,
    ttl_days: Option<i64>,
    now: i128,
    secret: Seq<char>,
) -> ProgressView {
    match token_plan(secret, now, ttl_days) {
        Err(e) => ProgressView::Done(OutcomeView::Failed(e)),
        Ok((hash, expires_at)) => ProgressView::Ask(
            RequestView::InsertToken { user_id, name, hash, expires_at },
            FlowView::IssueInsert { secret },
        ),
    }
}

/// How a resolution begins. A secret that cannot be hashed is rejected like
/// any other that is not known.
pub open spec fn resolve_start(raw_secret: Seq<char>) -> ProgressView {
    match digest(SecretClass::Token, raw_secret) {
        None => ProgressView::Done(OutcomeView::Failed(AuthError::Rejected)),
        Some(hash) => ProgressView::Ask(
            RequestView::FindTokenOwner { hash },
            FlowView::ResolveLookup { hash },
        ),
    }
}

/// How a revocation begins. For a secret that cannot be hashed there is
/// nothing to delete.
pub open spec fn revoke_start(raw_secret: Seq<char>) -> ProgressView {
    match digest(SecretClass::Token, raw_secret) {
        None => ProgressView::Done(OutcomeView::Revoked),
        Some(hash) => ProgressView::Ask(RequestView::DeleteToken { hash }, FlowView::RevokeDelete),
    }
}

/// How a registration begins.
pub open spec fn register_start(
    email: Seq<char>,
    password: Seq<char>,
    now: i128,
    secret: Seq<char>,
) -> ProgressView {
    ProgressView::Ask(
        RequestView::FindUserByEmail { email },
        FlowView::RegisterLookup { email, password, secret, now },
    )
}

/// How a login begins.
pub open spec fn login_start(
    email: Seq<char>,
    password: Seq<char>,
    now: i128,
    secret: Seq<char>,
) -> ProgressView {
    ProgressView::Ask(
        RequestView::FindUserByEmail { email },
        FlowView::LoginLookup { password, secret, now },
    )
}

impl FlowView {
    /// An upper bound on the requests still to come, the pending one included.
    pub open spec fn steps_left(self) -> nat {
        match self {
            FlowView::RegisterLookup { .. } => 4,
            FlowView::RegisterUser { .. } => 3,
            FlowView::RegisterToken { .. } => 2,
            FlowView::RegisterUndo { .. } => 1,
            FlowView::LoginLookup { .. } => 2,
            FlowView::IssueInsert { .. } => 1,
            FlowView::ResolveLookup { .. } => 2,
            FlowView::ResolveTouch { .. } => 1,
            FlowView::RevokeDelete => 1,
        }
    }

    /// The next step, given the store's reply to the pending request. A reply
    /// that does not answer the request counts as a failure of the store.
    pub open spec fn resume(self, reply: ReplyView) -> ProgressView {
        match self {
            FlowView::RegisterLookup { email, password, secret, now } => match reply {
                ReplyView::User(_) => ProgressView::Done(
                    OutcomeView::Failed(AuthError::Conflict(Conflict::EmailTaken)),
                ),
                ReplyView::NoRow => match digest(SecretClass::Password, password) {
                    None => ProgressView::Done(OutcomeView::Failed(AuthError::Validation)),
                    Some(password_hash) => match token_plan(secret, now, Some(DEFAULT_TTL_DAYS)) {
                        Err(e) => ProgressView::Done(OutcomeView::Failed(e)),
                        Ok((hash, expires_at)) => ProgressView::Ask(
                            RequestView::InsertUser { email, password_hash },
                            FlowView::RegisterUser { secret, hash, expires_at },
                        ),
                    },
                },
                _ => ProgressView::Done(OutcomeView::Failed(AuthError::TransientStore)),
            },
            FlowView::RegisterUser { secret, hash, expires_at } => match reply {
                ReplyView::User(user) => ProgressView::Ask(
                    RequestView::InsertToken {
                        user_id: user.id,
                        name: default_name(),
                        hash,
                        expires_at,
                    },
                    FlowView::RegisterToken { user_id: user.id, secret },
                ),
                ReplyView::Duplicate => ProgressView::Done(
                    OutcomeView::Failed(AuthError::Conflict(Conflict::EmailTaken)),
                ),
                _ => ProgressView::Done(OutcomeView::Failed(AuthError::TransientStore)),
            },
            FlowView::RegisterToken { user_id, secret } => match reply {
                ReplyView::TokenId(_) => ProgressView::Done(OutcomeView::Secret(secret)),
                ReplyView::Duplicate => ProgressView::Ask(
                    RequestView::DeleteUser { id: user_id },
                    FlowView::RegisterUndo { error: AuthError::Conflict(Conflict::SecretCollision) },
                ),
                _ => ProgressView::Ask(
                    RequestView::DeleteUser { id: user_id },
                    FlowView::RegisterUndo { error: AuthError::TransientStore },
                ),
            },
            FlowView::RegisterUndo { error } => ProgressView::Done(OutcomeView::Failed(error)),
            FlowView::LoginLookup { password, secret, now } => match reply {
                ReplyView::User(user) => if verifies(user.password_hash, password) {
                    issue_start(user.id, default_name(), Some(DEFAULT_TTL_DAYS), now, secret)
                } else {
                    ProgressView::Done(OutcomeView::Failed(AuthError::Rejected))
                },
                ReplyView::NoRow => ProgressView::Done(OutcomeView::Failed(AuthError::Rejected)),
                _ => ProgressView::Done(OutcomeView::Failed(AuthError::TransientStore)),
            },
            FlowView::IssueInsert { secret } => match reply {
                ReplyView::TokenId(_) => ProgressView::Done(OutcomeView::Secret(secret)),
                ReplyView::Duplicate => ProgressView::Done(
                    OutcomeView::Failed(AuthError::Conflict(Conflict::SecretCollision)),
                ),
                _ => ProgressView::Done(OutcomeView::Failed(AuthError::TransientStore)),
            },
            FlowView::ResolveLookup { hash } => match reply {
                ReplyView::User(user) => ProgressView::Ask(
                    RequestView::TouchToken { hash },
                    FlowView::ResolveTouch { user },
                ),
                ReplyView::NoRow => ProgressView::Done(OutcomeView::Failed(AuthError::Rejected)),
                _ => ProgressView::Done(OutcomeView::Failed(AuthError::TransientStore)),
            },
            FlowView::ResolveTouch { user } => ProgressView::Done(OutcomeView::Identity(user)),
            FlowView::RevokeDelete => match reply {
                ReplyView::Done => ProgressView::Done(OutcomeView::Revoked),
                _ => ProgressView::Done(OutcomeView::Failed(AuthError::TransientStore)),
            },
        }
    }
}

impl ProgressView {
    /// An upper bound on the requests still to come.
    pub open spec fn steps_left(self) -> nat {
        match self {
            ProgressView::Ask(_, flow) => flow.steps_left(),
            ProgressView::Done(_) => 0,
        }
    }
}

/// Hashes the secret of a new credential and computes its expiry.
pub fn plan_token(secret: &str, now: i128, ttl_days: Option<i64>) -> (r: Result<
    (String, Option<i128>),
    AuthError,
>)
    ensures
        match r {
            Ok((hash, expires_at)) => token_plan(secret@, now, ttl_days) == Ok::<
                (Seq<char>, Option<i128>),
                AuthError,
            >((hash@, expires_at)),
            Err(e) => token_plan(secret@, now, ttl_days) == Err::<(Seq<char>, Option<i128>), AuthError>(
                e,
            ),
        },
{
    let deadline = expires_at(now, ttl_days);
    match SecretHasher::new(SecretClass::Token).hash(secret) {
        Err(e) => Err(e),
        Ok(hash) => match deadline {
            Err(e) => Err(e),
            Ok(expires_at) => Ok((hash, expires_at)),
        },
    }
}

impl Flow {
    /// Begins the issuance of a credential for `user_id` at `now`, with `secret`
    /// as its raw secret.
    pub fn issue(user_id: u128, name: String, ttl_days: Option<i64>, now: i128, secret: String) -> (p:
        Progress)
        ensures
            p@ == issue_start(user_id, name@, ttl_days, now, secret@),
    {
        match plan_token(secret.as_str(), now, ttl_days) {
            Err(e) => Progress::Done(Outcome::Failed(e)),
            Ok((hash, expires_at)) => Progress::Ask(
                StoreRequest::InsertToken { user_id, name, hash, expires_at },
                Flow::IssueInsert { secret },
            ),
        }
    }

    /// Begins the resolution of a presented raw secret.
    pub fn resolve(raw_secret: &str) -> (p: Progress)
        ensures
            p@ == resolve_start(raw_secret@),
    {
        match SecretHasher::new(SecretClass::Token).hash(raw_secret) {
            Err(_) => Progress::Done(Outcome::Failed(AuthError::Rejected)),
            Ok(hash) => {
                let key = hash.clone();
                Progress::Ask(
                    StoreRequest::FindTokenOwner { hash: key },
                    Flow::ResolveLookup { hash },
                )
            },
        }
    }

    /// Begins the revocation of a raw secret.
    pub fn revoke(raw_secret: &str) -> (p: Progress)
        ensures
            p@ == revoke_start(raw_secret@),
    {
        match SecretHasher::new(SecretClass::Token).hash(raw_secret) {
            Err(_) => Progress::Done(Outcome::Revoked),
            Ok(hash) => Progress::Ask(StoreRequest::DeleteToken { hash }, Flow::RevokeDelete),
        }
    }

    /// Begins a registration at `now`, with `secret` as the raw secret of the
    /// credential to issue.
    pub fn register(email: String, password: String, now: i128, secret: String) -> (p: Progress)
        ensures
            p@ == register_start(email@, password@, now, secret@),
    {
        let key = email.clone();
        Progress::Ask(
            StoreRequest::FindUserByEmail { email: key },
            Flow::RegisterLookup { email, password, secret, now },
        )
    }

    /// Begins a login at `now`, with `secret` as the raw secret of the
    /// credential to issue.
    pub fn login(email: String, password: String, now: i128, secret: String) -> (p: Progress)
        ensures
            p@ == login_start(email@, password@, now, secret@),
    {
        Progress::Ask(
            StoreRequest::FindUserByEmail { email },
            Flow::LoginLookup { password, secret, now },
        )
    }

    /// Begins the issuance of a credential now, with a freshly generated
    /// secret. The store is always asked for the insert: a generated secret can
    /// be hashed, and a reading of the clock has an expiry.
    pub fn begin_issue(user_id: u128, name: String, ttl_days: Option<i64>) -> (p: Progress)
        ensures
            exists|now: i128, secret: Seq<char>|
                clock_range(now) && is_raw_secret(secret) && p@ == #[trigger] issue_start(
                    user_id,
                    name@,
                    ttl_days,
                    now,
                    secret,
                ),
            p@ matches ProgressView::Ask(request, flow) && request is InsertToken && flow is IssueInsert,
    {
        let now = now_utc();
        let secret = generate_secret();
        proof {
            law_raw_secret_is_hashable(secret@);
            lemma_clock_range_expiry(now, ttl_days);
        }
        Flow::issue(user_id, name, ttl_days, now, secret)
    }

    /// Begins a registration now, with a freshly generated secret.
    pub fn begin_register(email: String, password: String) -> (p: Progress)
        ensures
            exists|now: i128, secret: Seq<char>|
                clock_range(now) && is_raw_secret(secret) && p@ == #[trigger] register_start(
                    email@,
                    password@,
                    now,
                    secret,
                ),
    {
        let now = now_utc();
        let secret = generate_secret();
        Flow::register(email, password, now, secret)
    }

    /// Begins a login now, with a freshly generated secret.
    pub fn begin_login(email: String, password: String) -> (p: Progress)
        ensures
            exists|now: i128, secret: Seq<char>|
                clock_range(now) && is_raw_secret(secret) && p@ == #[trigger] login_start(
                    email@,
                    password@,
                    now,
                    secret,
                ),
    {
        let now = now_utc();
        let secret = generate_secret();
        Flow::login(email, password, now, secret)
    }

    /// Takes the store's reply to the pending request and decides what
    /// happens next.
    pub fn resume(self, reply: StoreReply) -> (next: Progress)
        ensures
            next@ == self@.resume(reply@),
            next@.steps_left() < self@.steps_left(),
    {
        match self {
            Flow::RegisterLookup { email, password, secret, now } => match reply {
                StoreReply::User(_) => Progress::Done(
                    Outcome::Failed(AuthError::Conflict(Conflict::EmailTaken)),
                ),
                StoreReply::NoRow => match SecretHasher::new(SecretClass::Password).hash(
                    password.as_str(),
                ) {
                    Err(e) => Progress::Done(Outcome::Failed(e)),
                    Ok(password_hash) => match plan_token(
                        secret.as_str(),
                        now,
                        Some(DEFAULT_TTL_DAYS),
                    ) {
                        Err(e) => Progress::Done(Outcome::Failed(e)),
                        Ok((hash, expires_at)) => Progress::Ask(
                            StoreRequest::InsertUser { email, password_hash },
                            Flow::RegisterUser { secret, hash, expires_at },
                        ),
                    },
                },
                _ => Progress::Done(Outcome::Failed(AuthError::TransientStore)),
            },
            Flow::RegisterUser { secret, hash, expires_at } => match reply {
                StoreReply::User(user) => Progress::Ask(
                    StoreRequest::InsertToken {
                        user_id: user.id,
                        name: default_token_name(),
                        hash,
                        expires_at,
                    },
                    Flow::RegisterToken { user_id: user.id, secret },
                ),
                StoreReply::Duplicate => Progress::Done(
                    Outcome::Failed(AuthError::Conflict(Conflict::EmailTaken)),
                ),
                _ => Progress::Done(Outcome::Failed(AuthError::TransientStore)),
            },
            Flow::RegisterToken { user_id, secret } => match reply {
                StoreReply::TokenId(_) => Progress::Done(Outcome::Secret(secret)),
                StoreReply::Duplicate => Progress::Ask(
                    StoreRequest::DeleteUser { id: user_id },
                    Flow::RegisterUndo { error: AuthError::Conflict(Conflict::SecretCollision) },
                ),
                _ => Progress::Ask(
                    StoreRequest::DeleteUser { id: user_id },
                    Flow::RegisterUndo { error: AuthError::TransientStore },
                ),
            },
            Flow::RegisterUndo { error } => Progress::Done(Outcome::Failed(error)),
            Flow::LoginLookup { password, secret, now } => match reply {
                StoreReply::User(user) => {
                    let hasher = SecretHasher::new(SecretClass::Password);
                    if hasher.verify(password.as_str(), user.password_hash.as_str()) {
                        Flow::issue(user.id, default_token_name(), Some(DEFAULT_TTL_DAYS), now, secret)
                    } else {
                        Progress::Done(Outcome::Failed(AuthError::Rejected))
                    }
                },
                StoreReply::NoRow => Progress::Done(Outcome::Failed(AuthError::Rejected)),
                _ => Progress::Done(Outcome::Failed(AuthError::TransientStore)),
            },
            Flow::IssueInsert { secret } => match reply {
                StoreReply::TokenId(_) => Progress::Done(Outcome::Secret(secret)),
                StoreReply::Duplicate => Progress::Done(
                    Outcome::Failed(AuthError::Conflict(Conflict::SecretCollision)),
                ),
                _ => Progress::Done(Outcome::Failed(AuthError::TransientStore)),
            },
            Flow::ResolveLookup { hash } => match reply {
                StoreReply::User(user) => Progress::Ask(
                    StoreRequest::TouchToken { hash },
                    Flow::ResolveTouch { user },
                ),
                StoreReply::NoRow => Progress::Done(Outcome::Failed(AuthError::Rejected)),
                _ => Progress::Done(Outcome::Failed(AuthError::TransientStore)),
            },
            Flow::ResolveTouch { user } => Progress::Done(Outcome::Identity(user)),
            Flow::RevokeDelete => match reply {
                StoreReply::Done => Progress::Done(Outcome::Revoked),
                _ => Progress::Done(Outcome::Failed(AuthError::TransientStore)),
            },
        }
    }
}

} // verus!
