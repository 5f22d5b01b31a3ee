use vstd::prelude::*;
use crate::clock::{is_live, live_at};
use crate::entities::{PersonalAccessToken, TokenView, User, UserView};
use crate::error::{AuthError, Conflict};

verus! {

/// `str::eq`: two strings are equal when they hold the same characters.
#[verifier::external_body]
pub(crate) fn same_text(a: &str, b: &str) -> (r: bool)
    ensures
        r == (a@ == b@),
{
    a == b
}

/// The credential table as a mathematical value: the rows by their secret
/// hash, and the id that the next row gets.
pub struct TokenTable {
    pub rows: Map<Seq<char>, TokenView>,
    pub next_id: u128,
}

impl TokenTable {
    /// Every row is filed under its own hash, ids are unique, and every id in
    /// use lies below the next one.
    pub open spec fn wf(self) -> bool {
        &&& forall|h: Seq<char>| #[trigger]
            self.rows.contains_key(h) ==> self.rows[h].token == h && self.rows[h].id < self.next_id
        &&& forall|h1: Seq<char>, h2: Seq<char>|
            #![trigger self.rows[h1], self.rows[h2]]
            self.rows.contains_key(h1) && self.rows.contains_key(h2) && self.rows[h1].id
                == self.rows[h2].id ==> h1 == h2
    }

    /// The table without rows.
    pub open spec fn empty() -> TokenTable {
        TokenTable { rows: Map::empty(), next_id: 0 }
    }

    /// No id is left for another row.
    pub open spec fn full(self) -> bool {
        self.next_id == u128::MAX
    }

    /// The row with this hash, if there is one and it has not expired at `now`.
    pub open spec fn find(self, hash: Seq<char>, now: i128) -> Option<TokenView> {
        if self.rows.contains_key(hash) && live_at(self.rows[hash].expires_at, now) {
            Some(self.rows[hash])
        } else {
            None
        }
    }

    /// The row that an insert at `now` creates.
    pub open spec fn fresh(
        self,
        user_id: u128,
        name: Seq<char>,
        hash: Seq<char>,
        expires_at: Option<i128>,
        now: i128,
    ) -> TokenView {
        TokenView {
            id: self.next_id,
            user_id,
            name,
            token: hash,
            last_used_at: None,
            created_at: now,
            expires_at,
            updated_at: now,
        }
    }

    /// The table with one more row.
    pub open spec fn inserted(self, row: TokenView) -> TokenTable {
        TokenTable { rows: self.rows.insert(row.token, row), next_id: (self.next_id + 1) as u128 }
    }

    /// The table after the row with this hash, if any, was stamped as used.
    pub open spec fn touched(self, hash: Seq<char>, now: i128) -> TokenTable {
        if self.rows.contains_key(hash) {
            TokenTable { rows: self.rows.insert(hash, self.rows[hash].touched(now)), ..self }
        } else {
            self
        }
    }

    /// The table without the row with this hash.
    pub open spec fn deleted(self, hash: Seq<char>) -> TokenTable {
        TokenTable { rows: self.rows.remove(hash), ..self }
    }
}

/// The credential records, held in memory. No two rows share a secret hash.
pub struct TokenStore {
    rows: Vec<PersonalAccessToken>,
    next_id: u128,
    model: Ghost<Map<Seq<char>, TokenView>>,
}

impl View for TokenStore {
    type V = TokenTable;

    closed spec fn view(&self) -> TokenTable {
        TokenTable { rows: self.model@, next_id: self.next_id }
    }
}

impl TokenStore {
    /// The rows and the model agree, and the table is well formed.
    pub closed spec fn wf(&self) -> bool {
        &&& self@.wf()
        &&& forall|i: int|
            0 <= i < self.rows@.len() ==> self.model@.contains_key((#[trigger] self.rows@[i]).token@)
                && self.model@[self.rows@[i].token@] == self.rows@[i]@
        &&& forall|h: Seq<char>| #[trigger]
            self.model@.contains_key(h) ==> exists|i: int|
                0 <= i < self.rows@.len() && (#[trigger] self.rows@[i]).token@ == h
        &&& forall|i: int, j: int|
            0 <= i < j < self.rows@.len() ==> (#[trigger] self.rows@[i]).token@ != (
            #[trigger] self.rows@[j]).token@
    }

    /// A well-formed store denotes a well-formed table.
    pub proof fn lemma_wf(&self)
        requires
            self.wf(),
        ensures
            self@.wf(),
    {
    }

    pub fn new() -> (store: TokenStore)
        ensures
            store.wf(),
            store@ == TokenTable::empty(),
    {
        TokenStore { rows: Vec::new(), next_id: 0, model: Ghost(Map::empty()) }
    }

    fn position(&self, hash: &str) -> (r: Option<usize>)
        requires
            self.wf(),
        ensures
            match r {
                Some(i) => i < self.rows@.len() && self.rows@[i as int].token@ == hash@
                    && self@.rows.contains_key(hash@) && self@.rows[hash@] == self.rows@[i as int]@,
                None => !self@.rows.contains_key(hash@),
            },
    {
        let mut i: usize = 0;
        while i < self.rows.len()
            invariant
                self.wf(),
                i <= self.rows@.len(),
                forall|k: int| 0 <= k < i ==> (#[trigger] self.rows@[k]).token@ != hash@,
            decreases self.rows@.len() - i,
        {
            if same_text(self.rows[i].token.as_str(), hash) {
                return Some(i);
            }
            i += 1;
        }
        None
    }

    /// Files a new credential. Fails with a conflict if the hash is already
    /// stored, whether or not that row has expired.
    pub fn insert(
        &mut self,
        user_id: u128,
        name: String,
        hash: String,
        expires_at: Option<i128>,
        now: i128,
    ) -> (r: Result<u128, AuthError>)
        requires
            old(self).wf(),
        ensures
            final(self).wf(),
            match r {
                Ok(id) => {
                    &&& !old(self)@.rows.contains_key(hash@)
                    &&& !old(self)@.full()
                    &&& id == old(self)@.next_id
                    &&& final(self)@ == old(self)@.inserted(
                        old(self)@.fresh(user_id, name@, hash@, expires_at, now),
                    )
                },
                Err(e) => {
                    &&& final(self)@ == old(self)@
                    &&& if old(self)@.rows.contains_key(hash@) {
                        e == AuthError::Conflict(Conflict::SecretCollision)
                    } else {
                        old(self)@.full() && e == AuthError::TransientStore
                    }
                },
            },
    {
        if self.position(hash.as_str()).is_some() {
            return Err(AuthError::Conflict(Conflict::SecretCollision));
        }
        if self.next_id == u128::MAX {
            return Err(AuthError::TransientStore);
        }
        let id = self.next_id;
        let row = PersonalAccessToken {
            id,
            user_id,
            name,
            token: hash,
            last_used_at: None,
            created_at: now,
            expires_at,
            updated_at: now,
        };
        let ghost before = self.rows@;
        self.model = Ghost(self.model@.insert(row.token@, row@));
        self.rows.push(row);
        self.next_id = id + 1;
        proof {
            assert forall|h: Seq<char>| #[trigger] self.model@.contains_key(h) implies exists|i: int|
                0 <= i < self.rows@.len() && (#[trigger] self.rows@[i]).token@ == h by {
                if h == row.token@ {
                    assert(self.rows@[before.len() as int].token@ == h);
                } else {
                    let i = choose|i: int| 0 <= i < before.len() && (#[trigger] before[i]).token@ == h;
                    assert(self.rows@[i].token@ == h);
                }
            }
        }
        Ok(id)
    }

    /// Looks a credential up by its hash. Expired rows are not found.
    pub fn find_by_hash(&self, hash: &str, now: i128) -> (r: Result<PersonalAccessToken, AuthError>)
        requires
            self.wf(),
        ensures
            match r {
                Ok(row) => self@.find(hash@, now) == Some(row@),
                Err(e) => e == AuthError::NotFound && self@.find(hash@, now) is None,
            },
    {
        match self.position(hash) {
            Some(i) => {
                if is_live(self.rows[i].expires_at, now) {
                    Ok(self.rows[i].clone())
                } else {
                    Err(AuthError::NotFound)
                }
            },
            None => Err(AuthError::NotFound),
        }
    }

    /// Stamps the credential with this hash as used at `now`. Does nothing if
    /// the row is gone.
    pub fn touch_last_used(&mut self, hash: &str, now: i128)
        requires
            old(self).wf(),
        ensures
            final(self).wf(),
            final(self)@ == old(self)@.touched(hash@, now),
    {
        match self.position(hash) {
            Some(i) => {
                let ghost before = self.rows@;
                let mut row = self.rows.remove(i);
                row.last_used_at = Some(now);
                self.model = Ghost(self.model@.insert(row.token@, row@));
                self.rows.insert(i, row);
                proof {
                    assert forall|k: int| 0 <= k < self.rows@.len() implies (#[trigger] self.rows@[k]).token@
                        == before[k].token@ by {}
                    assert forall|h: Seq<char>| #[trigger]
                        self.model@.contains_key(h) implies exists|k: int|
                        0 <= k < self.rows@.len() && (#[trigger] self.rows@[k]).token@ == h by {
                        let k = choose|k: int| 0 <= k < before.len() && (#[trigger] before[k]).token@ == h;
                        assert(self.rows@[k].token@ == h);
                    }
                }
            },
            None => {},
        }
    }

    /// Removes the credential with this hash. Does nothing if there is none.
    pub fn delete_by_hash(&mut self, hash: &str)
        requires
            old(self).wf(),
        ensures
            final(self).wf(),
            final(self)@ == old(self)@.deleted(hash@),
    {
        match self.position(hash) {
            Some(i) => {
                let ghost before = self.rows@;
                let row = self.rows.remove(i);
                self.model = Ghost(self.model@.remove(row.token@));
                proof {
                    assert forall|k: int| 0 <= k < self.rows@.len() implies (#[trigger] self.rows@[k])
                        == before[if k < i { k } else { k + 1 }] by {}
                    assert forall|h: Seq<char>| #[trigger]
                        self.model@.contains_key(h) implies exists|k: int|
                        0 <= k < self.rows@.len() && (#[trigger] self.rows@[k]).token@ == h by {
                        let k = choose|k: int| 0 <= k < before.len() && (#[trigger] before[k]).token@ == h;
                        if k < i {
                            assert(self.rows@[k].token@ == h);
                        } else {
                            assert(self.rows@[k - 1].token@ == h);
                        }
                    }
                }
            },
            None => {
                assert(self.model@.remove(hash@) =~= self.model@);
            },
        }
    }
}

/// The user table as a mathematical value: the rows by their email, and the id
/// that the next row gets.
pub struct UserTable {
    pub rows: Map<Seq<char>, UserView>,
    pub next_id: u128,
}

impl UserTable {
    /// Every row is filed under its own email, ids are unique, and every id in
    /// use lies below the next one.
    pub open spec fn wf(self) -> bool {
        &&& forall|e: Seq<char>| #[trigger]
            self.rows.contains_key(e) ==> self.rows[e].email == e && self.rows[e].id < self.next_id
        &&& forall|e1: Seq<char>, e2: Seq<char>|
            #![trigger self.rows[e1], self.rows[e2]]
            self.rows.contains_key(e1) && self.rows.contains_key(e2) && self.rows[e1].id
                == self.rows[e2].id ==> e1 == e2
    }

    /// The table without rows.
    pub open spec fn empty() -> UserTable {
        UserTable { rows: Map::empty(), next_id: 0 }
    }

    /// No id is left for another row.
    pub open spec fn full(self) -> bool {
        self.next_id == u128::MAX
    }

    /// Whether some row has this id.
    pub open spec fn has_id(self, id: u128) -> bool {
        exists|e: Seq<char>| self.rows.contains_key(e) && (#[trigger] self.rows[e]).id == id
    }

    /// The row with this id.
    pub open spec fn by_id(self, id: u128) -> Option<UserView> {
        if self.has_id(id) {
            Some(
                self.rows[choose|e: Seq<char>|
                    self.rows.contains_key(e) && (#[trigger] self.rows[e]).id == id],
            )
        } else {
            None
        }
    }

    /// The row that an insert at `now` creates.
    pub open spec fn fresh(self, email: Seq<char>, password_hash: Seq<char>, now: i128) -> UserView {
        UserView { id: self.next_id, email, password_hash, created_at: now, updated_at: now }
    }

    /// The table with one more row.
    pub open spec fn inserted(self, row: UserView) -> UserTable {
        UserTable { rows: self.rows.insert(row.email, row), next_id: (self.next_id + 1) as u128 }
    }

    /// The table after an insert that was taken back: no row more, one id less
    /// to give.
    pub open spec fn skipped(self) -> UserTable {
        UserTable { next_id: (self.next_id + 1) as u128, ..self }
    }

    /// The table without the row with this id.
    pub open spec fn deleted(self, id: u128) -> UserTable {
        match self.by_id(id) {
            Some(row) => UserTable { rows: self.rows.remove(row.email), ..self },
            None => self,
        }
    }

    /// In a well-formed table the row found by an id is the one filed under
    /// its email.
    pub proof fn lemma_by_id(self, email: Seq<char>)
        requires
            self.wf(),
            self.rows.contains_key(email),
        ensures
            self.by_id(self.rows[email].id) == Some(self.rows[email]),
    {
        let id = self.rows[email].id;
        assert(self.has_id(id));
        let e = choose|e: Seq<char>| self.rows.contains_key(e) && (#[trigger] self.rows[e]).id == id;
        assert(e == email);
    }
}

impl UserTable {
    /// Taking a freshly inserted row back leaves the rows as they were.
    pub proof fn lemma_insert_undone(self, row: UserView)
        requires
            self.wf(),
            !self.full(),
            !self.rows.contains_key(row.email),
            row.id == self.next_id,
        ensures
            self.inserted(row).wf(),
            self.inserted(row).by_id(row.id) == Some(row),
            self.inserted(row).deleted(row.id) == self.skipped(),
    {
        let after = self.inserted(row);
        assert(after.rows.contains_key(row.email));
        assert(after.wf());
        after.lemma_by_id(row.email);
        assert(after.rows.remove(row.email) =~= self.rows);
    }
}

/// The identity records, held in memory. No two rows share an email.
pub struct UserStore {
    rows: Vec<User>,
    next_id: u128,
    model: Ghost<Map<Seq<char>, UserView>>,
}

impl View for UserStore {
    type V = UserTable;

    closed spec fn view(&self) -> UserTable {
        UserTable { rows: self.model@, next_id: self.next_id }
    }
}

impl UserStore {
    /// The rows and the model agree, and the table is well formed.
    pub closed spec fn wf(&self) -> bool {
        &&& self@.wf()
        &&& forall|i: int|
            0 <= i < self.rows@.len() ==> self.model@.contains_key((#[trigger] self.rows@[i]).email@)
                && self.model@[self.rows@[i].email@] == self.rows@[i]@
        &&& forall|e: Seq<char>| #[trigger]
            self.model@.contains_key(e) ==> exists|i: int|
                0 <= i < self.rows@.len() && (#[trigger] self.rows@[i]).email@ == e
        &&& forall|i: int, j: int|
            0 <= i < j < self.rows@.len() ==> (#[trigger] self.rows@[i]).email@ != (
            #[trigger] self.rows@[j]).email@
    }

    /// A well-formed store denotes a well-formed table.
    pub proof fn lemma_wf(&self)
        requires
            self.wf(),
        ensures
            self@.wf(),
    {
    }

    pub fn new() -> (store: UserStore)
        ensures
            store.wf(),
            store@ == UserTable::empty(),
    {
        UserStore { rows: Vec::new(), next_id: 0, model: Ghost(Map::empty()) }
    }

    fn position(&self, email: &str) -> (r: Option<usize>)
        requires
            self.wf(),
        ensures
            match r {
                Some(i) => i < self.rows@.len() && self.rows@[i as int].email@ == email@
                    && self@.rows.contains_key(email@) && self@.rows[email@] == self.rows@[i as int]@,
                None => !self@.rows.contains_key(email@),
            },
    {
        let mut i: usize = 0;
        while i < self.rows.len()
            invariant
                self.wf(),
                i <= self.rows@.len(),
                forall|k: int| 0 <= k < i ==> (#[trigger] self.rows@[k]).email@ != email@,
            decreases self.rows@.len() - i,
        {
            if same_text(self.rows[i].email.as_str(), email) {
                return Some(i);
            }
            i += 1;
        }
        None
    }

    fn position_of_id(&self, id: u128) -> (r: Option<usize>)
        requires
            self.wf(),
        ensures
            match r {
                Some(i) => i < self.rows@.len() && self@.by_id(id) == Some(self.rows@[i as int]@)
                    && self@.rows.contains_key(self.rows@[i as int].email@),
                None => self@.by_id(id) is None,
            },
    {
        let mut i: usize = 0;
        while i < self.rows.len()
            invariant
                self.wf(),
                i <= self.rows@.len(),
                forall|k: int| 0 <= k < i ==> (#[trigger] self.rows@[k]).id != id,
            decreases self.rows@.len() - i,
        {
            if self.rows[i].id == id {
                proof {
                    self@.lemma_by_id(self.rows@[i as int].email@);
                }
                return Some(i);
            }
            i += 1;
        }
        proof {
            if self@.has_id(id) {
                let e = choose|e: Seq<char>|
                    self@.rows.contains_key(e) && (#[trigger] self@.rows[e]).id == id;
                let k = choose|k: int| 0 <= k < self.rows@.len() && (#[trigger] self.rows@[k]).email@ == e;
                assert(self.rows@[k].id == id);
            }
        }
        None
    }

    /// Files a new user. Fails with a conflict if the email is already
    /// registered.
    pub fn insert(&mut self, email: String, password_hash: String, now: i128) -> (r: Result<
        User,
        AuthError,
    >)
        requires
            old(self).wf(),
        ensures
            final(self).wf(),
            match r {
                Ok(user) => {
                    &&& !old(self)@.rows.contains_key(email@)
                    &&& !old(self)@.full()
                    &&& user@ == old(self)@.fresh(email@, password_hash@, now)
                    &&& final(self)@ == old(self)@.inserted(user@)
                },
                Err(e) => {
                    &&& final(self)@ == old(self)@
                    &&& if old(self)@.rows.contains_key(email@) {
                        e == AuthError::Conflict(Conflict::EmailTaken)
                    } else {
                        old(self)@.full() && e == AuthError::TransientStore
                    }
                },
            },
    {
        if self.position(email.as_str()).is_some() {
            return Err(AuthError::Conflict(Conflict::EmailTaken));
        }
        if self.next_id == u128::MAX {
            return Err(AuthError::TransientStore);
        }
        let id = self.next_id;
        let row = User { id, email, password_hash, created_at: now, updated_at: now };
        let copy = row.clone();
        let ghost before = self.rows@;
        self.model = Ghost(self.model@.insert(row.email@, row@));
        self.rows.push(row);
        self.next_id = id + 1;
        proof {
            assert forall|e: Seq<char>| #[trigger] self.model@.contains_key(e) implies exists|i: int|
                0 <= i < self.rows@.len() && (#[trigger] self.rows@[i]).email@ == e by {
                if e == row.email@ {
                    assert(self.rows@[before.len() as int].email@ == e);
                } else {
                    let i = choose|i: int| 0 <= i < before.len() && (#[trigger] before[i]).email@ == e;
                    assert(self.rows@[i].email@ == e);
                }
            }
        }
        Ok(copy)
    }

    /// Looks a user up by email, compared as stored.
    pub fn find_by_email(&self, email: &str) -> (r: Option<User>)
        requires
            self.wf(),
        ensures
            match r {
                Some(user) => self@.rows.contains_key(email@) && self@.rows[email@] == user@,
                None => !self@.rows.contains_key(email@),
            },
    {
        match self.position(email) {
            Some(i) => Some(self.rows[i].clone()),
            None => None,
        }
    }

    /// Looks a user up by id.
    pub fn find_by_id(&self, id: u128) -> (r: Option<User>)
        requires
            self.wf(),
        ensures
            match r {
                Some(user) => self@.by_id(id) == Some(user@),
                None => self@.by_id(id) is None,
            },
    {
        match self.position_of_id(id) {
            Some(i) => Some(self.rows[i].clone()),
            None => None,
        }
    }

    /// Removes the user with this id. Does nothing if there is none.
    pub fn delete_by_id(&mut self, id: u128)
        requires
            old(self).wf(),
        ensures
            final(self).wf(),
            final(self)@ == old(self)@.deleted(id),
    {
        match self.position_of_id(id) {
            Some(i) => {
                let ghost before = self.rows@;
                let row = self.rows.remove(i);
                self.model = Ghost(self.model@.remove(row.email@));
                proof {
                    assert forall|k: int| 0 <= k < self.rows@.len() implies (#[trigger] self.rows@[k])
                        == before[if k < i { k } else { k + 1 }] by {}
                    assert forall|e: Seq<char>| #[trigger]
                        self.model@.contains_key(e) implies exists|k: int|
                        0 <= k < self.rows@.len() && (#[trigger] self.rows@[k]).email@ == e by {
                        let k = choose|k: int| 0 <= k < before.len() && (#[trigger] before[k]).email@ == e;
                        if k < i {
                            assert(self.rows@[k].email@ == e);
                        } else {
                            assert(self.rows@[k - 1].email@ == e);
                        }
                    }
                }
            },
            None => {},
        }
    }
}

} // verus!
