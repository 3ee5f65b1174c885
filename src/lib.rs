//! Request handling for a small HTTP service that contrasts an open redirect
//! with an allow-list checked redirect.
//!
//! The library decides every response from plain request values; the program
//! in `app/` binds the socket and turns those decisions into HTTP.

pub mod http;
pub mod laws;
pub mod pages;
pub mod query;
pub mod redirect;
pub mod router;
