//! The stored rows in their plain form: posts and users, with the columns
//! that inserting and changing them write.

use vstd::prelude::*;

verus! {

/// A stored post.
#[derive(Debug)]
pub struct Post {
    pub id: i32,
    pub user_id: i32,
    pub title: String,
    pub content: String,
    pub published: bool,
}

/// The columns of a post to be inserted.
#[derive(Debug)]
pub struct NewPost<'a> {
    pub user_id: i32,
    pub title: &'a str,
    pub content: &'a str,
}

/// The columns of a post to be changed.
#[derive(Debug)]
pub struct UpdatePost<'a> {
    pub user_id: Option<i32>,
    pub title: &'a str,
    pub content: &'a str,
    pub published: bool,
}

/// A stored user, without its password.
#[derive(Debug)]
pub struct User {
    pub id: i32,
    pub first_name: String,
    pub last_name: String,
    pub email: String,
}

/// The columns of a user to be inserted.
#[derive(Debug)]
pub struct NewUser<'a> {
    pub first_name: &'a str,
    pub last_name: &'a str,
    pub email: &'a str,
}

/// The columns of a user to be changed.
#[derive(Debug)]
pub struct UpdateUser<'a> {
    pub first_name: &'a str,
    pub last_name: &'a str,
    pub email: &'a str,
}

} // verus!
