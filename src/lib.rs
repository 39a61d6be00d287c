//! A small user-account backend: an in-memory `users` relation with
//! insert and lookups, and the request handlers for registration, login
//! and fetching the authenticated user, all with verified contracts.

pub mod models;
pub mod users;
pub mod web;
