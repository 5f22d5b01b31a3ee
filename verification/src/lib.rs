pub mod auth_service;
pub mod authenticator;
pub mod clock;
pub mod database;
pub mod engine;
pub mod entities;
pub mod error;
pub mod flow;
pub mod hasher;
pub mod laws;
pub mod messages;
pub mod secret;
pub mod store;
pub mod token_service;
pub mod user_service;
