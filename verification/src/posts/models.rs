//! Posts, and posts shown with their author's name.

use vstd::prelude::*;

verus! {

/// A stored post.
#[derive(Debug)]
pub struct Post {
    pub id: i32,
    pub user_id: i32,
    pub title: String,
    pub content: String,
    pub published: bool,
}

/// A post together with its author's names.
#[derive(Debug)]
pub struct PostWithAuthor {
    pub id: i32,
    pub user_id: i32,
    pub title: String,
    pub content: String,
    pub published: bool,
    pub first_name: String,
    pub last_name: String,
}

/// The columns of a post to be inserted.
#[derive(Debug)]
pub struct NewPost<'a> {
    pub user_id: i32,
    pub title: &'a str,
    pub content: &'a str,
}

/// The columns of a post to be changed; `user_id: None` leaves the author
/// as it is.
#[derive(Debug)]
pub struct UpdatePost<'a> {
    pub user_id: Option<i32>,
    pub title: &'a str,
    pub content: &'a str,
    pub published: bool,
}

/// What the show page is given of a post with its author.
#[derive(Debug)]
pub struct PostWithAuthorFields {
    pub id: i32,
    pub user_id: i32,
    pub title: String,
    pub content: String,
    pub published: bool,
    pub display_name: String,
}

/// An author's name as pages show it: first name, a space, last name.
pub open spec fn spec_display_name(first_name: Seq<char>, last_name: Seq<char>) -> Seq<char> {
    first_name + seq![' '] + last_name
}

/// A display name is the first name, then one space, then the last name,
/// each kept whole and in that order.
pub proof fn lemma_display_name_parts(first_name: Seq<char>, last_name: Seq<char>)
    ensures
        spec_display_name(first_name, last_name).len() == first_name.len() + 1 + last_name.len(),
        spec_display_name(first_name, last_name).subrange(0, first_name.len() as int) == first_name,
        spec_display_name(first_name, last_name)[first_name.len() as int] == ' ',
        spec_display_name(first_name, last_name).skip(first_name.len() as int + 1) == last_name,
{
    let d = spec_display_name(first_name, last_name);
    assert(d.subrange(0, first_name.len() as int) =~= first_name);
    assert(d.skip(first_name.len() as int + 1) =~= last_name);
}

impl PostWithAuthor {
    /// The author's first and last name with a space between.
    pub fn display_name(&self) -> (name: String)
        ensures
            name@ == spec_display_name(self.first_name@, self.last_name@),
    {
        let mut name = self.first_name.clone();
        proof { reveal_strlit(" "); }
        name.append(" ");
        name.append(self.last_name.as_str());
        name
    }

    /// The fields the show page is given. Its `user_id` field holds the
    /// post's id, not the author's.
    pub fn page_fields(&self) -> (f: PostWithAuthorFields)
        ensures
            f.id == self.id,
            f.user_id == self.id,
            f.title@ == self.title@,
            f.content@ == self.content@,
            f.published == self.published,
            f.display_name@ == spec_display_name(self.first_name@, self.last_name@),
    {
        PostWithAuthorFields {
            id: self.id,
            user_id: self.id,
            title: self.title.clone(),
            content: self.content.clone(),
            published: self.published,
            display_name: self.display_name(),
        }
    }
}

} // verus!
