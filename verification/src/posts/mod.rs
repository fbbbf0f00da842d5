//! Writing, editing and deleting posts, each by its own author only.

pub mod forms;
pub mod models;

use vstd::prelude::*;

use crate::auth::models::AuthenticatedUser;
use crate::flash::FlashRedirect;
use crate::posts::forms::{CreatePostForm, UpdatePostForm};
use crate::posts::models::{NewPost, Post, UpdatePost};
use crate::text::{decimal_value, i32_to_decimal, int_decimal};

verus! {

/// The path of the page that shows post `post_id`.
pub open spec fn spec_show_path(post_id: int) -> Seq<char> {
    "/posts/show/"@ + int_decimal(post_id)
}

/// The path of the page that shows post `post_id`.
pub fn show_post_path(post_id: i32) -> (p: String)
    ensures
        p@ == spec_show_path(post_id as int),
{
    let mut p = "/posts/show/".to_owned();
    let digits = i32_to_decimal(post_id);
    p.append(digits.as_str());
    p
}

/// The show page of a post names that post: after `/posts/show/` comes the
/// post's id in decimal, whose digits read back in base 10 give the id (with
/// a `-` in front for a negative id).
pub proof fn lemma_show_path_names_the_post(post_id: int)
    ensures
        spec_show_path(post_id).subrange(0, 12) == "/posts/show/"@,
        post_id >= 0 ==> decimal_value(spec_show_path(post_id).skip(12)) == post_id,
        post_id < 0 ==> spec_show_path(post_id)[12] == '-'
            && decimal_value(spec_show_path(post_id).skip(13)) == -post_id,
{
    reveal_strlit("/posts/show/");
    crate::text::lemma_int_decimal_reads_back(post_id);
    let p = spec_show_path(post_id);
    assert(p.subrange(0, 12) =~= "/posts/show/"@);
    assert(p.skip(12) =~= int_decimal(post_id));
    if post_id < 0 {
        assert(p.skip(13) =~= int_decimal(post_id).drop_first());
    }
}

/// Two different posts never share a show page.
pub proof fn lemma_show_paths_distinct(a: int, b: int)
    requires
        a != b,
    ensures
        spec_show_path(a) != spec_show_path(b),
{
    crate::text::lemma_int_decimal_injective(a, b);
    let pa = spec_show_path(a);
    let pb = spec_show_path(b);
    let prefix = "/posts/show/"@;
    if pa == pb {
        assert(pa.skip(prefix.len() as int) =~= int_decimal(a));
        assert(pb.skip(prefix.len() as int) =~= int_decimal(b));
    }
}

/// Whether `f` sends the visitor to the page of post `post_id` with
/// "Unauthorized Action".
pub open spec fn is_unauthorized(f: FlashRedirect, post_id: int) -> bool {
    f.location@ == spec_show_path(post_id) && f.message@ == "Unauthorized Action"@
}

/// Lets the edit and delete pages of post `post_id` (stored as `post`) open
/// only for its author; anyone else is sent to the post's page with
/// "Unauthorized Action".
pub fn require_author(user: &AuthenticatedUser, post_id: i32, post: &Post) -> (r: Result<(), FlashRedirect>)
    ensures
        r is Ok <==> user.0.id == post.user_id,
        r matches Err(f) ==> is_unauthorized(f, post_id as int),
        r matches Err(f) ==> f.location@ == "/posts/show/"@ + int_decimal(post_id as int)
            && f.message@ == "Unauthorized Action"@,
{
    if user.0.id != post.user_id {
        let url = show_post_path(post_id);
        return Err(FlashRedirect::error(url.as_str(), "Unauthorized Action"));
    }
    Ok(())
}

/// The post that the new-post form creates: written by the signed-in user,
/// with the submitted title and content.
pub fn post_to_create<'a>(user: &AuthenticatedUser, form: &'a CreatePostForm) -> (p: NewPost<'a>)
    ensures
        p.user_id == user.0.id,
        p.title@ == form.title@,
        p.content@ == form.content@,
{
    NewPost { user_id: user.0.id, title: form.title.as_str(), content: form.content.as_str() }
}

/// The change that the edit form makes: the submitted title and content, the
/// author left as it is, and the post unpublished.
pub fn post_update<'a>(form: &'a UpdatePostForm) -> (u: UpdatePost<'a>)
    ensures
        u.user_id is None,
        u.title@ == form.title@,
        u.content@ == form.content@,
        !u.published,
{
    UpdatePost { user_id: None, title: form.title.as_str(), content: form.content.as_str(), published: false }
}

} // verus!
