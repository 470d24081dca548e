//! The verified core of a small posting service: stateless bearer credentials,
//! the guard that admits requests, the checks on an uploaded attachment, and
//! the all-or-nothing creation of a post together with its stored file.
pub mod auth;
pub mod create;
pub mod decimal;
pub mod hex;
pub mod home;
pub mod jwt;
pub mod post;
pub mod response;
pub mod routes;
pub mod saga;
pub mod trusted;
pub mod upload;
