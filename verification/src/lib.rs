//! A small blog: users sign in with a session cookie, and signed-in
//! authors write, edit and delete their own posts.
//!
//! This crate holds the blog's rules as verified code: reading and checking
//! the registration form, the request guards that tell signed-in visitors
//! from anonymous ones, the sign-in decision, the check that only a post's
//! author may change it, and the text the pages show. Storage, HTTP and
//! templates live around it.

pub mod auth;
pub mod flash;
pub mod form_models;
pub mod models;
pub mod posts;
pub mod text;
pub mod view_models;
