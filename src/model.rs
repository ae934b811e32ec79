use vstd::prelude::*;

verus! {

/// Mathematical value of a [`User`].
pub struct UserView {
    pub id: Seq<char>,
    pub name: Seq<char>,
    pub avatar_url: Option<Seq<char>>,
}

/// Mathematical value of a [`Post`].
pub struct PostView {
    pub id: Seq<char>,
    pub title: Seq<char>,
    pub body: Seq<char>,
    pub author: UserView,
    pub tags: Seq<Seq<char>>,
    pub published_at: Seq<char>,
}

/// A user record, identified by its `id`.
#[derive(Debug, PartialEq, Eq)]
pub struct User {
    pub id: String,
    pub name: String,
    pub avatar_url: Option<String>,
}

/// A blog post. The author is a snapshot copied in when the post was created.
#[derive(Debug, PartialEq, Eq)]
pub struct Post {
    pub id: String,
    pub title: String,
    pub body: String,
    pub author: User,
    pub tags: Vec<String>,
    pub published_at: String,
}

/// What a client supplies to create a post.
#[derive(Debug, PartialEq, Eq)]
pub struct CreatePostInput {
    pub title: String,
    pub body: String,
    pub tags: Option<Vec<String>>,
    pub author_id: String,
}

/// Mathematical value of a [`CreatePostInput`].
pub struct CreatePostInputView {
    pub title: Seq<char>,
    pub body: Seq<char>,
    pub tags: Option<Seq<Seq<char>>>,
    pub author_id: Seq<char>,
}

impl View for CreatePostInput {
    type V = CreatePostInputView;

    open spec fn view(&self) -> CreatePostInputView {
        CreatePostInputView {
            title: self.title@,
            body: self.body@,
            tags: self.tags.deep_view(),
            author_id: self.author_id@,
        }
    }
}

impl View for User {
    type V = UserView;

    open spec fn view(&self) -> UserView {
        UserView { id: self.id@, name: self.name@, avatar_url: self.avatar_url.deep_view() }
    }
}

impl View for Post {
    type V = PostView;

    open spec fn view(&self) -> PostView {
        PostView {
            id: self.id@,
            title: self.title@,
            body: self.body@,
            author: self.author@,
            tags: self.tags.deep_view(),
            published_at: self.published_at@,
        }
    }
}

/// Copies a list of strings, keeping every element.
pub fn copy_strings(v: &Vec<String>) -> (r: Vec<String>)
    ensures
        r.deep_view() == v.deep_view(),
{
    let mut r: Vec<String> = Vec::new();
    let mut i: usize = 0;
    while i < v.len()
        invariant
            i <= v.len(),
            r@.len() == i,
            forall|k: int| 0 <= k < i ==> #[trigger] r@[k]@ == v@[k]@,
        decreases v.len() - i,
    {
        r.push(v[i].clone());
        i += 1;
    }
    assert(r.deep_view() =~= v.deep_view());
    r
}

impl Clone for User {
    fn clone(&self) -> (r: Self)
        ensures
            r@ == self@,
    {
        let avatar_url = match &self.avatar_url {
            Some(a) => Some(a.clone()),
            None => None,
        };
        User { id: self.id.clone(), name: self.name.clone(), avatar_url }
    }
}

impl Clone for Post {
    fn clone(&self) -> (r: Self)
        ensures
            r@ == self@,
    {
        Post {
            id: self.id.clone(),
            title: self.title.clone(),
            body: self.body.clone(),
            author: self.author.clone(),
            tags: copy_strings(&self.tags),
            published_at: self.published_at.clone(),
        }
    }
}

} // verus!
