use vstd::prelude::*;
use crate::entities::User;

verus! {

/// What a caller sends to register.
#[derive(Debug)]
pub struct RegisterRequest {
    pub email: String,
    pub password: String,
}

/// What a caller sends to log in.
#[derive(Debug)]
pub struct LoginRequest {
    pub email: String,
    pub password: String,
}

/// The answer to a registration or a login: the raw secret, shown this once.
#[derive(Debug)]
pub struct AuthResponse {
    pub token: String,
}

/// The public part of an identity record.
#[derive(Debug)]
pub struct UserResponse {
    pub id: u128,
    pub email: String,
}

impl UserResponse {
    /// Keeps the id and the email of a user, and nothing else.
    pub fn of(user: User) -> (response: UserResponse)
        ensures
            response.id == user.id,
            response.email@ == user.email@,
    {
        UserResponse { id: user.id, email: user.email }
    }
}

} // verus!
