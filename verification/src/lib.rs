//! Subscription handling for a newsletter mail server: validation of
//! subscriber names and e-mail addresses, the response envelope, the
//! settings the server is started from, and the decisions taken while a
//! subscription request is served.

pub mod text;
pub mod exception;
pub mod domain;
pub mod routes;
pub mod model;
pub mod biz;
pub mod config;
pub mod configuration;
