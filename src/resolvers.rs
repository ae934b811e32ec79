use vstd::prelude::*;
use crate::model::{CreatePostInput, CreatePostInputView, Post, PostView, User, UserView};
use crate::names::{display_name, fallback_name, get_user_name_by_id};
use crate::stamp::{new_post_id, now_rfc3339};
use crate::store::{PostStore, UserStore};

verus! {

/// What a lookup by `id` in a keyed map finds.
pub open spec fn lookup<V>(m: Map<Seq<char>, V>, id: Seq<char>) -> Option<V> {
    if m.contains_key(id) {
        Some(m[id])
    } else {
        None
    }
}

/// The user made up for an author id that has no stored record.
pub open spec fn synthesized_user(author_id: Seq<char>) -> UserView {
    UserView { id: author_id, name: display_name(author_id), avatar_url: None }
}

/// The author that a new post embeds: the stored user when there is one,
/// otherwise a user made up from the id alone.
pub open spec fn author_for(users: Map<Seq<char>, UserView>, author_id: Seq<char>) -> UserView {
    if users.contains_key(author_id) {
        users[author_id]
    } else {
        synthesized_user(author_id)
    }
}

/// Tags as given, or none when they were left out.
pub open spec fn tags_or_empty(tags: Option<Seq<Seq<char>>>) -> Seq<Seq<char>> {
    match tags {
        Some(t) => t,
        None => Seq::empty(),
    }
}

/// The post that `input` creates, given the users, the new id and the time stamp.
pub open spec fn created_post(
    input: CreatePostInputView,
    users: Map<Seq<char>, UserView>,
    id: Seq<char>,
    published_at: Seq<char>,
) -> PostView {
    PostView {
        id,
        title: input.title,
        body: input.body,
        author: author_for(users, input.author_id),
        tags: tags_or_empty(input.tags),
        published_at,
    }
}

/// The read operations.
pub struct Query;

/// The write operations.
pub struct Mutation;

impl Query {
    /// Every post, each exactly once, in no promised order.
    pub fn posts(&self, store: &PostStore) -> (r: Vec<Post>)
        requires
            store.wf(),
        ensures
            forall|i: int|
                0 <= i < r@.len() ==> lookup(store@, #[trigger] r@[i]@.id) == Some(r@[i]@),
            forall|k: Seq<char>|
                #[trigger] store@.contains_key(k) ==> exists|i: int|
                    0 <= i < r@.len() && #[trigger] r@[i]@.id == k,
            forall|i: int, j: int|
                0 <= i < j < r@.len() ==> #[trigger] r@[i]@.id != #[trigger] r@[j]@.id,
    {
        store.all()
    }

    /// The post stored under `id`, if any.
    pub fn post(&self, store: &PostStore, id: &str) -> (r: Option<Post>)
        requires
            store.wf(),
        ensures
            match r {
                Some(p) => lookup(store@, id@) == Some(p@),
                None => lookup(store@, id@) is None,
            },
    {
        store.get(id)
    }

    /// The user stored under `id`, if any.
    pub fn user(&self, store: &UserStore, id: &str) -> (r: Option<User>)
        requires
            store.wf(),
        ensures
            match r {
                Some(u) => lookup(store@, id@) == Some(u@),
                None => lookup(store@, id@) is None,
            },
    {
        store.get(id)
    }
}

impl Mutation {
    /// The author for a new post: the stored user under `author_id`, or,
    /// when there is none, a user with that id, the display name the fallback
    /// table gives it and no avatar. A made-up user is not stored.
    pub fn resolve_author(users: &UserStore, author_id: &str) -> (r: User)
        requires
            users.wf(),
        ensures
            r@ == author_for(users@, author_id@),
    {
        match users.get(author_id) {
            Some(u) => u,
            None => User {
                id: author_id.to_owned(),
                name: get_user_name_by_id(author_id),
                avatar_url: None,
            },
        }
    }

    /// Creates a post from `input` with the given id and time stamp, stores it
    /// under that id and returns it. The user store is only read.
    pub fn create_post_with(
        &self,
        posts: &mut PostStore,
        users: &UserStore,
        input: CreatePostInput,
        id: String,
        published_at: String,
    ) -> (r: Post)
        requires
            old(posts).wf(),
            users.wf(),
        ensures
            r@ == created_post(input@, users@, id@, published_at@),
            final(posts).wf(),
            final(posts)@ == old(posts)@.insert(id@, r@),
            users@.contains_key(input@.author_id) ==> r@.author == users@[input@.author_id],
            !users@.contains_key(input@.author_id) && fallback_name(input@.author_id) is None
                ==> r@.author.id == input@.author_id && r@.author.name == input@.author_id
                && r@.author.avatar_url is None,
            !users@.contains_key(input@.author_id) && fallback_name(input@.author_id) is Some
                ==> r@.author.name == fallback_name(input@.author_id)->0,
            input@.tags is None ==> r@.tags == Seq::<Seq<char>>::empty(),
    {
        let author = Mutation::resolve_author(users, input.author_id.as_str());
        let tags = match input.tags {
            Some(t) => t,
            None => Vec::new(),
        };
        let post = Post {
            id,
            title: input.title,
            body: input.body,
            author,
            tags,
            published_at,
        };
        proof {
            assert(post.tags.deep_view() =~= tags_or_empty(input@.tags));
        }
        let r = post.clone();
        posts.insert(post);
        r
    }

    /// Creates a post from `input` with a fresh random id and the current
    /// time, stores it and returns it. Where the two stores sit behind locks,
    /// the posts are locked before the users, by this and every later
    /// operation that holds both.
    pub fn create_post(&self, posts: &mut PostStore, users: &UserStore, input: CreatePostInput) -> (r:
        Post)
        requires
            old(posts).wf(),
            users.wf(),
        ensures
            r@ == created_post(input@, users@, r@.id, r@.published_at),
            r@.id.len() == 36,
            r@.published_at.len() >= 25,
            final(posts).wf(),
            final(posts)@ == old(posts)@.insert(r@.id, r@),
            users@.contains_key(input@.author_id) ==> r@.author == users@[input@.author_id],
            !users@.contains_key(input@.author_id) && fallback_name(input@.author_id) is None
                ==> r@.author.id == input@.author_id && r@.author.name == input@.author_id
                && r@.author.avatar_url is None,
            !users@.contains_key(input@.author_id) && fallback_name(input@.author_id) is Some
                ==> r@.author.name == fallback_name(input@.author_id)->0,
            input@.tags is None ==> r@.tags == Seq::<Seq<char>>::empty(),
    {
        let id = new_post_id();
        let published_at = now_rfc3339();
        self.create_post_with(posts, users, input, id, published_at)
    }
}

/// A post returned by `create_post` is exactly what `post` then finds under
/// its id, and an id that was never stored is still absent afterwards.
pub proof fn lemma_created_post_is_found(
    before: Map<Seq<char>, PostView>,
    created: PostView,
    id: Seq<char>,
)
    ensures
        lookup(before.insert(created.id, created), created.id) == Some(created),
        !before.contains_key(id) && id != created.id ==> lookup(
            before.insert(created.id, created),
            id,
        ) is None,
{
}

} // verus!
