use vstd::prelude::*;
use crate::entities::{User, UserView};
use crate::error::AuthError;
use crate::store::{TokenStore, TokenTable, UserStore, UserTable};

verus! {

/// One single-row operation on the store.
#[derive(Debug)]
pub enum StoreRequest {
    /// The user with this email, compared as stored.
    FindUserByEmail { email: String },
    /// A new user row.
    InsertUser { email: String, password_hash: String },
    /// Takes a user row back.
    DeleteUser { id: u128 },
    /// A new credential row.
    InsertToken { user_id: u128, name: String, hash: String, expires_at: Option<i128> },
    /// The owner of the credential with this hash, unless it has expired.
    FindTokenOwner { hash: String },
    /// Stamps the credential with this hash as used.
    TouchToken { hash: String },
    /// Removes the credential with this hash.
    DeleteToken { hash: String },
}

/// A `StoreRequest` as plain values.
pub enum RequestView {
    FindUserByEmail { email: Seq<char> },
    InsertUser { email: Seq<char>, password_hash: Seq<char> },
    DeleteUser { id: u128 },
    InsertToken { user_id: u128, name: Seq<char>, hash: Seq<char>, expires_at: Option<i128> },
    FindTokenOwner { hash: Seq<char> },
    TouchToken { hash: Seq<char> },
    DeleteToken { hash: Seq<char> },
}

impl View for StoreRequest {
    type V = RequestView;

    open spec fn view(&self) -> RequestView {
        match *self {
            StoreRequest::FindUserByEmail { email } => RequestView::FindUserByEmail { email: email@ },
            StoreRequest::InsertUser { email, password_hash } => RequestView::InsertUser {
                email: email@,
                password_hash: password_hash@,
            },
            StoreRequest::DeleteUser { id } => RequestView::DeleteUser { id },
            StoreRequest::InsertToken { user_id, name, hash, expires_at } => RequestView::InsertToken {
                user_id,
                name: name@,
                hash: hash@,
                expires_at,
            },
            StoreRequest::FindTokenOwner { hash } => RequestView::FindTokenOwner { hash: hash@ },
            StoreRequest::TouchToken { hash } => RequestView::TouchToken { hash: hash@ },
            StoreRequest::DeleteToken { hash } => RequestView::DeleteToken { hash: hash@ },
        }
    }
}

/// What the store answers to one request.
#[derive(Debug)]
pub enum StoreReply {
    /// The user row that was found or created.
    User(User),
    /// The id of the credential row that was created.
    TokenId(u128),
    /// No row matched.
    NoRow,
    /// The row would break a uniqueness rule; nothing was written.
    Duplicate,
    /// The update or delete ran, on one row or on none.
    Done,
    /// The store timed out or could not be reached.
    Unavailable,
}

/// A `StoreReply` as plain values.
pub enum ReplyView {
    User(UserView),
    TokenId(u128),
    NoRow,
    Duplicate,
    Done,
    Unavailable,
}

impl View for StoreReply {
    type V = ReplyView;

    open spec fn view(&self) -> ReplyView {
        match *self {
            StoreReply::User(user) => ReplyView::User(user@),
            StoreReply::TokenId(id) => ReplyView::TokenId(id),
            StoreReply::NoRow => ReplyView::NoRow,
            StoreReply::Duplicate => ReplyView::Duplicate,
            StoreReply::Done => ReplyView::Done,
            StoreReply::Unavailable => ReplyView::Unavailable,
        }
    }
}

/// The two tables as a mathematical value.
pub struct DatabaseView {
    pub users: UserTable,
    pub tokens: TokenTable,
}

impl DatabaseView {
    pub open spec fn wf(self) -> bool {
        self.users.wf() && self.tokens.wf()
    }

    /// The database without rows.
    pub open spec fn empty() -> DatabaseView {
        DatabaseView { users: UserTable::empty(), tokens: TokenTable::empty() }
    }

    /// The user who owns the credential with this hash, provided the credential
    /// exists and has not expired at `now`.
    pub open spec fn owner(self, hash: Seq<char>, now: i128) -> Option<UserView> {
        match self.tokens.find(hash, now) {
            Some(row) => self.users.by_id(row.user_id),
            None => None,
        }
    }

    /// The effect of one request at `now`: the database afterwards, and the
    /// reply.
    pub open spec fn perform(self, request: RequestView, now: i128) -> (DatabaseView, ReplyView) {
        match request {
            RequestView::FindUserByEmail { email } => if self.users.rows.contains_key(email) {
                (self, ReplyView::User(self.users.rows[email]))
            } else {
                (self, ReplyView::NoRow)
            },
            RequestView::InsertUser { email, password_hash } => if self.users.rows.contains_key(
                email,
            ) {
                (self, ReplyView::Duplicate)
            } else if self.users.full() {
                (self, ReplyView::Unavailable)
            } else {
                let row = self.users.fresh(email, password_hash, now);
                (DatabaseView { users: self.users.inserted(row), ..self }, ReplyView::User(row))
            },
            RequestView::DeleteUser { id } => (
                DatabaseView { users: self.users.deleted(id), ..self },
                ReplyView::Done,
            ),
            RequestView::InsertToken { user_id, name, hash, expires_at } => if self.tokens.rows.contains_key(
                hash,
            ) {
                (self, ReplyView::Duplicate)
            } else if self.tokens.full() {
                (self, ReplyView::Unavailable)
            } else {
                let row = self.tokens.fresh(user_id, name, hash, expires_at, now);
                (DatabaseView { tokens: self.tokens.inserted(row), ..self }, ReplyView::TokenId(row.id))
            },
            RequestView::FindTokenOwner { hash } => match self.owner(hash, now) {
                Some(user) => (self, ReplyView::User(user)),
                None => (self, ReplyView::NoRow),
            },
            RequestView::TouchToken { hash } => (
                DatabaseView { tokens: self.tokens.touched(hash, now), ..self },
                ReplyView::Done,
            ),
            RequestView::DeleteToken { hash } => (
                DatabaseView { tokens: self.tokens.deleted(hash), ..self },
                ReplyView::Done,
            ),
        }
    }
}

/// The users and their credentials, held in memory.
pub struct Database {
    pub users: UserStore,
    pub tokens: TokenStore,
}

impl View for Database {
    type V = DatabaseView;

    open spec fn view(&self) -> DatabaseView {
        DatabaseView { users: self.users@, tokens: self.tokens@ }
    }
}

impl Database {
    pub open spec fn wf(&self) -> bool {
        self.users.wf() && self.tokens.wf()
    }

    /// A well-formed database denotes well-formed tables.
    pub proof fn lemma_wf(&self)
        requires
            self.wf(),
        ensures
            self@.wf(),
    {
        self.users.lemma_wf();
        self.tokens.lemma_wf();
    }

    pub fn new() -> (db: Database)
        ensures
            db.wf(),
            db@ == DatabaseView::empty(),
    {
        Database { users: UserStore::new(), tokens: TokenStore::new() }
    }

    /// Carries out one request at `now`.
    pub fn perform(&mut self, request: StoreRequest, now: i128) -> (reply: StoreReply)
        requires
            old(self).wf(),
        ensures
            final(self).wf(),
            (final(self)@, reply@) == old(self)@.perform(request@, now),
    {
        match request {
            StoreRequest::FindUserByEmail { email } => match self.users.find_by_email(email.as_str()) {
                Some(user) => StoreReply::User(user),
                None => StoreReply::NoRow,
            },
            StoreRequest::InsertUser { email, password_hash } => match self.users.insert(
                email,
                password_hash,
                now,
            ) {
                Ok(user) => StoreReply::User(user),
                Err(AuthError::Conflict(_)) => StoreReply::Duplicate,
                Err(_) => StoreReply::Unavailable,
            },
            StoreRequest::DeleteUser { id } => {
                self.users.delete_by_id(id);
                StoreReply::Done
            },
            StoreRequest::InsertToken { user_id, name, hash, expires_at } => match self.tokens.insert(
                user_id,
                name,
                hash,
                expires_at,
                now,
            ) {
                Ok(id) => StoreReply::TokenId(id),
                Err(AuthError::Conflict(_)) => StoreReply::Duplicate,
                Err(_) => StoreReply::Unavailable,
            },
            StoreRequest::FindTokenOwner { hash } => match self.tokens.find_by_hash(hash.as_str(), now) {
                Ok(row) => match self.users.find_by_id(row.user_id) {
                    Some(user) => StoreReply::User(user),
                    None => StoreReply::NoRow,
                },
                Err(_) => StoreReply::NoRow,
            },
            StoreRequest::TouchToken { hash } => {
                self.tokens.touch_last_used(hash.as_str(), now);
                StoreReply::Done
            },
            StoreRequest::DeleteToken { hash } => {
                self.tokens.delete_by_hash(hash.as_str());
                StoreReply::Done
            },
        }
    }
}

} // verus!
