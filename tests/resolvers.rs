use miniblog::model::{CreatePostInput, Post, User};
use miniblog::names::get_user_name_by_id;
use miniblog::resolvers::{Mutation, Query};
use miniblog::store::{PostStore, UserStore};

fn input(title: &str, body: &str, tags: Option<Vec<&str>>, author_id: &str) -> CreatePostInput {
    CreatePostInput {
        title: title.to_string(),
        body: body.to_string(),
        tags: tags.map(|t| t.into_iter().map(|s| s.to_string()).collect()),
        author_id: author_id.to_string(),
    }
}

fn user(id: &str, name: &str, avatar_url: Option<&str>) -> User {
    User { id: id.to_string(), name: name.to_string(), avatar_url: avatar_url.map(|a| a.to_string()) }
}

#[test]
fn fallback_table_maps_known_ids() {
    assert_eq!(get_user_name_by_id("user-1"), "髙橋慶祐");
    assert_eq!(get_user_name_by_id("user-2"), "佐藤太郎");
    assert_eq!(get_user_name_by_id("user-3"), "鈴木花子");
    assert_eq!(get_user_name_by_id("user-4"), "松本次郎");
    assert_eq!(get_user_name_by_id("user-5"), "後藤優子");
}

#[test]
fn fallback_table_returns_unknown_id_itself() {
    assert_eq!(get_user_name_by_id("user-9"), "user-9");
    assert_eq!(get_user_name_by_id(""), "");
    assert_eq!(get_user_name_by_id("user-10"), "user-10");
}

#[test]
fn unknown_author_scenario_on_empty_store() {
    let mut posts = PostStore::new();
    let users = UserStore::new();
    let p = Mutation.create_post(&mut posts, &users, input("T", "B", None, "user-9"));
    assert_eq!(p.author.id, "user-9");
    assert_eq!(p.author.name, "user-9");
    assert_eq!(p.author.avatar_url, None);
    assert!(p.tags.is_empty());
    assert!(!p.id.is_empty());
    assert_eq!(p.title, "T");
    assert_eq!(p.body, "B");
    assert!(chrono::DateTime::parse_from_rfc3339(&p.published_at).is_ok());
}

#[test]
fn seeded_author_is_embedded_exactly() {
    let mut posts = PostStore::new();
    let mut users = UserStore::new();
    users.insert(user("user-1", "Alice", None));
    let p = Mutation.create_post(&mut posts, &users, input("T", "B", Some(vec!["x"]), "user-1"));
    assert_eq!(p.author, user("user-1", "Alice", None));
}

#[test]
fn existing_user_with_avatar_is_embedded() {
    let mut posts = PostStore::new();
    let mut users = UserStore::new();
    users.insert(user("u-7", "Bob", Some("http://a/b.png")));
    let p = Mutation.create_post(&mut posts, &users, input("T", "B", None, "u-7"));
    assert_eq!(p.author, user("u-7", "Bob", Some("http://a/b.png")));
}

#[test]
fn unknown_author_in_fallback_table_gets_mapped_name() {
    let mut posts = PostStore::new();
    let users = UserStore::new();
    let p = Mutation.create_post(&mut posts, &users, input("T", "B", None, "user-1"));
    assert_eq!(p.author, user("user-1", "髙橋慶祐", None));
}

#[test]
fn synthesized_author_is_not_stored() {
    let mut posts = PostStore::new();
    let users = UserStore::new();
    Mutation.create_post(&mut posts, &users, input("T", "B", None, "user-9"));
    assert_eq!(Query.user(&users, "user-9"), None);
}

#[test]
fn omitted_tags_become_empty() {
    let mut posts = PostStore::new();
    let users = UserStore::new();
    let p = Mutation.create_post(&mut posts, &users, input("T", "B", None, "a"));
    assert_eq!(p.tags, Vec::<String>::new());
}

#[test]
fn given_tags_keep_their_order() {
    let mut posts = PostStore::new();
    let users = UserStore::new();
    let p = Mutation.create_post(&mut posts, &users, input("T", "B", Some(vec!["b", "a", "b"]), "a"));
    assert_eq!(p.tags, vec!["b".to_string(), "a".to_string(), "b".to_string()]);
}

#[test]
fn post_lookup_returns_created_value() {
    let mut posts = PostStore::new();
    let users = UserStore::new();
    let p = Mutation.create_post(&mut posts, &users, input("T", "B", Some(vec!["t"]), "user-2"));
    assert_eq!(Query.post(&posts, &p.id), Some(p.clone()));
    assert_eq!(Query.post(&posts, "never-inserted"), None);
}

#[test]
fn create_post_with_uses_given_id_and_stamp() {
    let mut posts = PostStore::new();
    let mut users = UserStore::new();
    users.insert(user("user-3", "Carol", None));
    let p = Mutation.create_post_with(
        &mut posts,
        &users,
        input("Hello", "World", Some(vec!["rust"]), "user-3"),
        "id-1".to_string(),
        "2024-01-02T03:04:05+00:00".to_string(),
    );
    let expected = Post {
        id: "id-1".to_string(),
        title: "Hello".to_string(),
        body: "World".to_string(),
        author: user("user-3", "Carol", None),
        tags: vec!["rust".to_string()],
        published_at: "2024-01-02T03:04:05+00:00".to_string(),
    };
    assert_eq!(p, expected);
    assert_eq!(Query.post(&posts, "id-1"), Some(expected));
}

#[test]
fn listing_has_unique_ids_and_every_post() {
    let mut posts = PostStore::new();
    let users = UserStore::new();
    assert!(Query.posts(&posts).is_empty());
    let mut ids = Vec::new();
    for i in 0..5 {
        let p = Mutation.create_post(&mut posts, &users, input(&format!("T{i}"), "B", None, "user-4"));
        ids.push(p.id);
    }
    let listed = Query.posts(&posts);
    assert_eq!(listed.len(), 5);
    let mut got: Vec<String> = listed.iter().map(|p| p.id.clone()).collect();
    got.sort();
    got.dedup();
    assert_eq!(got.len(), 5);
    ids.sort();
    assert_eq!(got, ids);
}

#[test]
fn insert_under_same_id_replaces() {
    let mut posts = PostStore::new();
    let users = UserStore::new();
    Mutation.create_post_with(&mut posts, &users, input("A", "B", None, "x"), "k".to_string(), "s".to_string());
    Mutation.create_post_with(&mut posts, &users, input("C", "D", None, "x"), "k".to_string(), "s".to_string());
    let listed = Query.posts(&posts);
    assert_eq!(listed.len(), 1);
    assert_eq!(listed[0].title, "C");
}

#[test]
fn user_lookup() {
    let mut users = UserStore::new();
    users.insert(user("user-1", "Alice", None));
    assert_eq!(Query.user(&users, "user-1"), Some(user("user-1", "Alice", None)));
    assert_eq!(Query.user(&users, "user-2"), None);
    users.insert(user("user-1", "Alicia", Some("p")));
    assert_eq!(Query.user(&users, "user-1"), Some(user("user-1", "Alicia", Some("p"))));
}

#[test]
fn resolve_author_prefers_stored_user() {
    let mut users = UserStore::new();
    users.insert(user("user-5", "Eve", None));
    assert_eq!(Mutation::resolve_author(&users, "user-5"), user("user-5", "Eve", None));
    assert_eq!(Mutation::resolve_author(&users, "user-4"), user("user-4", "松本次郎", None));
    assert_eq!(Mutation::resolve_author(&users, "zed"), user("zed", "zed", None));
}

#[test]
fn generated_ids_are_uuids_and_fresh() {
    let mut posts = PostStore::new();
    let users = UserStore::new();
    let a = Mutation.create_post(&mut posts, &users, input("T", "B", None, "a"));
    let b = Mutation.create_post(&mut posts, &users, input("T", "B", None, "a"));
    assert_eq!(a.id.len(), 36);
    assert!(uuid::Uuid::parse_str(&a.id).is_ok());
    assert_ne!(a.id, b.id);
}
