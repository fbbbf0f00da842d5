//! What templates are given.

use vstd::prelude::*;

use crate::models::Post;

verus! {

/// A piece of text for a template.
#[derive(Debug)]
pub struct TemplateContext {
    pub data: String,
}

/// The posts a listing shows.
#[derive(Debug)]
pub struct PostList {
    pub posts: Vec<Post>,
}

} // verus!
