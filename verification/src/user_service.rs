use vstd::prelude::*;
use crate::entities::User;
use crate::error::AuthError;
use crate::messages::UserResponse;
use crate::token_service::TokenService;

verus! {

/// Answers questions about the authenticated user.
#[derive(Clone, Copy, Debug)]
pub struct UserService {
    token_service: TokenService,
}

impl UserService {
    pub fn new(token_service: TokenService) -> (service: UserService) {
        UserService { token_service }
    }

    /// The public part of the authenticated user: the id and the email.
    pub fn get_user(&self, user: User) -> (r: Result<UserResponse, AuthError>)
        ensures
            r matches Ok(response) && response.id == user.id && response.email@ == user.email@,
    {
        Ok(UserResponse::of(user))
    }
}

} // verus!
