//! The forms of the post pages.

use vstd::prelude::*;

verus! {

/// What the edit form submits.
#[derive(Debug)]
pub struct UpdatePostForm {
    pub id: i32,
    pub title: String,
    pub content: String,
}

/// What the new-post form submits.
#[derive(Debug)]
pub struct CreatePostForm {
    pub title: String,
    pub content: String,
}

/// What the delete confirmation submits.
#[derive(Debug)]
pub struct DeletePostForm {
    pub id: i32,
}

/// A one-time message shown on a page: its kind and its text.
#[derive(Debug)]
pub struct InvalidFormMessage<'a> {
    pub name: &'a str,
    pub msg: &'a str,
}

} // verus!
