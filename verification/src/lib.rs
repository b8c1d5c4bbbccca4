//! A small user-management service and two companion programs (a number
//! guessing game and a string-ownership demo), with their logic verified.
//!
//! - `service`: what each user request asks of the store and answers.
//! - `models`, `validation`, `errors`: the records, the request rules and
//!   the error replies.
//! - `config`, `request_id`: settings from the environment, request ids.
//! - `guessing`, `ownership`: the two small programs' logic.
//! - `text`: trimming and decimal numbers.

pub mod config;
pub mod errors;
pub mod guessing;
pub mod models;
pub mod ownership;
pub mod request_id;
pub mod service;
pub mod text;
pub mod validation;
