//! The post forms in their plain form.

use vstd::prelude::*;

verus! {

/// What the edit form submits.
#[derive(Debug)]
pub struct UpdatePostForm {
    pub id: i32,
    pub title: String,
    pub content: String,
}

/// What the new-post form submits.
#[derive(Debug)]
pub struct CreatePostForm {
    pub title: String,
    pub content: String,
}

} // verus!
