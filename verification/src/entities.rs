use vstd::prelude::*;

verus! {

/// An identity record.
#[derive(Debug)]
pub struct User {
    pub id: u128,
    pub email: String,
    pub password_hash: String,
    pub created_at: i128,
    pub updated_at: i128,
}

/// What a `User` holds, as plain values.
pub struct UserView {
    pub id: u128,
    pub email: Seq<char>,
    pub password_hash: Seq<char>,
    pub created_at: i128,
    pub updated_at: i128,
}

impl View for User {
    type V = UserView;

    open spec fn view(&self) -> UserView {
        UserView {
            id: self.id,
            email: self.email@,
            password_hash: self.password_hash@,
            created_at: self.created_at,
            updated_at: self.updated_at,
        }
    }
}

impl Clone for User {
    fn clone(&self) -> (copy: User)
        ensures
            copy@ == self@,
    {
        User {
            id: self.id,
            email: self.email.clone(),
            password_hash: self.password_hash.clone(),
            created_at: self.created_at,
            updated_at: self.updated_at,
        }
    }
}

/// A credential record. `token` holds the hash of the raw secret, never the
/// secret itself.
#[derive(Debug)]
pub struct PersonalAccessToken {
    pub id: u128,
    pub user_id: u128,
    pub name: String,
    pub token: String,
    pub last_used_at: Option<i128>,
    pub created_at: i128,
    pub expires_at: Option<i128>,
    pub updated_at: i128,
}

/// What a `PersonalAccessToken` holds, as plain values.
pub struct TokenView {
    pub id: u128,
    pub user_id: u128,
    pub name: Seq<char>,
    pub token: Seq<char>,
    pub last_used_at: Option<i128>,
    pub created_at: i128,
    pub expires_at: Option<i128>,
    pub updated_at: i128,
}

impl View for PersonalAccessToken {
    type V = TokenView;

    open spec fn view(&self) -> TokenView {
        TokenView {
            id: self.id,
            user_id: self.user_id,
            name: self.name@,
            token: self.token@,
            last_used_at: self.last_used_at,
            created_at: self.created_at,
            expires_at: self.expires_at,
            updated_at: self.updated_at,
        }
    }
}

impl Clone for PersonalAccessToken {
    fn clone(&self) -> (copy: PersonalAccessToken)
        ensures
            copy@ == self@,
    {
        PersonalAccessToken {
            id: self.id,
            user_id: self.user_id,
            name: self.name.clone(),
            token: self.token.clone(),
            last_used_at: self.last_used_at,
            created_at: self.created_at,
            expires_at: self.expires_at,
            updated_at: self.updated_at,
        }
    }
}

impl TokenView {
    /// The record after a successful validation at `now`.
    pub open spec fn touched(self, now: i128) -> TokenView {
        TokenView { last_used_at: Some(now), ..self }
    }
}

} // verus!
