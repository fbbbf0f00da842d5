use bloglib::auth::models::{AuthenticatedUser, User};
use bloglib::flash::FlashRedirect;
use bloglib::posts::forms::{CreatePostForm, UpdatePostForm};
use bloglib::posts::models::{Post, PostWithAuthor};
use bloglib::posts::{post_to_create, post_update, require_author, show_post_path};
use bloglib::text::i32_to_decimal;

fn author(id: i32) -> AuthenticatedUser {
    AuthenticatedUser(User {
        id,
        first_name: "A".to_string(),
        last_name: "B".to_string(),
        email: "a@b".to_string(),
        password: String::new(),
    })
}

fn post(id: i32, user_id: i32) -> Post {
    Post { id, user_id, title: "T".to_string(), content: "C".to_string(), published: true }
}

#[test]
fn decimal_forms() {
    assert_eq!(i32_to_decimal(0), "0");
    assert_eq!(i32_to_decimal(7), "7");
    assert_eq!(i32_to_decimal(10), "10");
    assert_eq!(i32_to_decimal(2024), "2024");
    assert_eq!(i32_to_decimal(-42), "-42");
    assert_eq!(i32_to_decimal(i32::MAX), "2147483647");
    assert_eq!(i32_to_decimal(i32::MIN), "-2147483648");
}

#[test]
fn show_paths() {
    assert_eq!(show_post_path(12), "/posts/show/12");
    assert_eq!(show_post_path(-3), "/posts/show/-3");
    assert_ne!(show_post_path(1), show_post_path(11));
}

#[test]
fn author_may_change_own_post() {
    assert!(require_author(&author(3), 8, &post(8, 3)).is_ok());
}

#[test]
fn others_are_sent_to_the_post_page() {
    let f: FlashRedirect = require_author(&author(4), 8, &post(8, 3)).unwrap_err();
    assert_eq!(f.location, "/posts/show/8");
    assert_eq!(f.message, "Unauthorized Action");
}

#[test]
fn new_post_belongs_to_the_signed_in_user() {
    let form = CreatePostForm { title: "Hello".to_string(), content: "World".to_string() };
    let p = post_to_create(&author(6), &form);
    assert_eq!((p.user_id, p.title, p.content), (6, "Hello", "World"));
}

#[test]
fn update_keeps_author_and_unpublishes() {
    let form = UpdatePostForm { id: 2, title: "New".to_string(), content: "Text".to_string() };
    let u = post_update(&form);
    assert_eq!(u.user_id, None);
    assert_eq!((u.title, u.content, u.published), ("New", "Text", false));
}

fn with_author() -> PostWithAuthor {
    PostWithAuthor {
        id: 5,
        user_id: 9,
        title: "T".to_string(),
        content: "C".to_string(),
        published: false,
        first_name: "Grace".to_string(),
        last_name: "Hopper".to_string(),
    }
}

#[test]
fn display_name_joins_first_and_last_name() {
    assert_eq!(with_author().display_name(), "Grace Hopper");
}

#[test]
fn page_fields_of_a_post_with_author() {
    let f = with_author().page_fields();
    assert_eq!(f.id, 5);
    assert_eq!(f.user_id, 5);
    assert_eq!(f.display_name, "Grace Hopper");
    assert_eq!((f.title.as_str(), f.content.as_str(), f.published), ("T", "C", false));
}
