use vstd::prelude::*;
use crate::model::{Post, PostView, User, UserView};

verus! {

/// Every post of the map is stored under its own id.
pub open spec fn posts_keyed(m: Map<Seq<char>, PostView>) -> bool {
    forall|k: Seq<char>| #[trigger] m.contains_key(k) ==> m[k].id == k
}

/// The posts, keyed by post id.
pub struct PostStore {
    posts: Vec<Post>,
}

impl PostStore {
    /// No two stored posts share an id.
    pub closed spec fn wf(&self) -> bool {
        forall|i: int, j: int|
            0 <= i < j < self.posts@.len() ==> #[trigger] self.posts@[i]@.id
                != #[trigger] self.posts@[j]@.id
    }

    closed spec fn holds(&self, k: Seq<char>) -> bool {
        exists|i: int| 0 <= i < self.posts@.len() && #[trigger] self.posts@[i]@.id == k
    }

    closed spec fn index_of(&self, k: Seq<char>) -> int {
        choose|i: int| 0 <= i < self.posts@.len() && #[trigger] self.posts@[i]@.id == k
    }

    proof fn lemma_index_of(&self, i: int)
        requires
            self.wf(),
            0 <= i < self.posts@.len(),
        ensures
            self.holds(self.posts@[i]@.id),
            self.index_of(self.posts@[i]@.id) == i,
    {
        let k = self.posts@[i]@.id;
        assert(self.posts@[i]@.id == k);
        let j = self.index_of(k);
        if j != i {
            if j < i {
                assert(self.posts@[j]@.id != self.posts@[i]@.id);
            } else {
                assert(self.posts@[i]@.id != self.posts@[j]@.id);
            }
        }
    }

    /// An empty store.
    pub fn new() -> (r: Self)
        ensures
            r.wf(),
            r@ == Map::<Seq<char>, PostView>::empty(),
    {
        let r = PostStore { posts: Vec::new() };
        assert(r@ =~= Map::<Seq<char>, PostView>::empty());
        r
    }

    fn find(&self, id: &str) -> (r: Option<usize>)
        requires
            self.wf(),
        ensures
            match r {
                Some(i) => i < self.posts@.len() && self.posts@[i as int]@.id == id@,
                None => !self@.contains_key(id@),
            },
    {
        let key = id.to_owned();
        let mut i: usize = 0;
        while i < self.posts.len()
            invariant
                i <= self.posts@.len(),
                key@ == id@,
                forall|j: int| 0 <= j < i ==> #[trigger] self.posts@[j]@.id != id@,
            decreases self.posts.len() - i,
        {
            if self.posts[i].id == key {
                return Some(i);
            }
            i += 1;
        }
        None
    }

    /// The post stored under `id`, copied out.
    pub fn get(&self, id: &str) -> (r: Option<Post>)
        requires
            self.wf(),
        ensures
            match r {
                Some(p) => self@.contains_key(id@) && p@ == self@[id@],
                None => !self@.contains_key(id@),
            },
    {
        match self.find(id) {
            Some(i) => {
                proof {
                    self.lemma_index_of(i as int);
                }
                Some(self.posts[i].clone())
            },
            None => None,
        }
    }

    /// Every stored post sits under its own id.
    pub proof fn lemma_keyed(&self)
        ensures
            posts_keyed(self@),
    {
    }

    /// A copy of every stored post, each exactly once, in no promised order.
    pub fn all(&self) -> (r: Vec<Post>)
        requires
            self.wf(),
        ensures
            forall|i: int|
                0 <= i < r@.len() ==> self@.contains_key(#[trigger] r@[i]@.id) && self@[r@[i]@.id]
                    == r@[i]@,
            forall|k: Seq<char>|
                #[trigger] self@.contains_key(k) ==> exists|i: int|
                    0 <= i < r@.len() && #[trigger] r@[i]@.id == k,
            forall|i: int, j: int|
                0 <= i < j < r@.len() ==> #[trigger] r@[i]@.id != #[trigger] r@[j]@.id,
    {
        let mut r: Vec<Post> = Vec::new();
        let mut i: usize = 0;
        while i < self.posts.len()
            invariant
                i <= self.posts@.len(),
                r@.len() == i,
                forall|j: int| 0 <= j < i ==> #[trigger] r@[j]@ == self.posts@[j]@,
            decreases self.posts.len() - i,
        {
            r.push(self.posts[i].clone());
            i += 1;
        }
        proof {
            assert forall|j: int| 0 <= j < r@.len() implies self@.contains_key(
                #[trigger] r@[j]@.id,
            ) && self@[r@[j]@.id] == r@[j]@ by {
                self.lemma_index_of(j);
            }
            assert forall|k: Seq<char>| #[trigger] self@.contains_key(k) implies exists|j: int|
                0 <= j < r@.len() && #[trigger] r@[j]@.id == k by {
                let j = self.index_of(k);
                assert(r@[j]@.id == k);
            }
            assert forall|a: int, b: int| 0 <= a < b < r@.len() implies #[trigger] r@[a]@.id
                != #[trigger] r@[b]@.id by {
                assert(self.posts@[a]@.id != self.posts@[b]@.id);
            }
        }
        r
    }

    /// Stores `post` under its id, replacing any post held under that id.
    pub fn insert(&mut self, post: Post)
        requires
            old(self).wf(),
        ensures
            final(self).wf(),
            final(self)@ == old(self)@.insert(post@.id, post@),
    {
        let ghost k = post@.id;
        let ghost before = *self;
        match self.find(post.id.as_str()) {
            Some(i) => {
                self.posts.set(i, post);
                proof {
                    assert forall|a: int, b: int|
                        0 <= a < b < self.posts@.len() implies #[trigger] self.posts@[a]@.id
                        != #[trigger] self.posts@[b]@.id by {
                        assert(before.posts@[a]@.id != before.posts@[b]@.id);
                    }
                    assert forall|q: Seq<char>| #[trigger]
                        self@.contains_key(q) == before@.insert(k, post@).contains_key(q) && (
                        self@.contains_key(q) ==> self@[q] == before@.insert(k, post@)[q]) by {
                        if q == k {
                            self.lemma_index_of(i as int);
                        } else {
                            if self.holds(q) {
                                let j = self.index_of(q);
                                assert(before.posts@[j]@.id == q);
                                before.lemma_index_of(j);
                                self.lemma_index_of(j);
                            }
                            if before.holds(q) {
                                let j = before.index_of(q);
                                assert(self.posts@[j]@.id == q);
                            }
                        }
                    }
                    assert(self@ =~= before@.insert(k, post@));
                }
            },
            None => {
                self.posts.push(post);
                proof {
                    let n = before.posts@.len() as int;
                    assert forall|a: int, b: int|
                        0 <= a < b < self.posts@.len() implies #[trigger] self.posts@[a]@.id
                        != #[trigger] self.posts@[b]@.id by {
                        if b == n {
                            assert(!before.holds(k));
                        } else {
                            assert(before.posts@[a]@.id != before.posts@[b]@.id);
                        }
                    }
                    assert forall|q: Seq<char>| #[trigger]
                        self@.contains_key(q) == before@.insert(k, post@).contains_key(q) && (
                        self@.contains_key(q) ==> self@[q] == before@.insert(k, post@)[q]) by {
                        if q == k {
                            self.lemma_index_of(n);
                        } else {
                            if self.holds(q) {
                                let j = self.index_of(q);
                                assert(before.posts@[j]@.id == q);
                                before.lemma_index_of(j);
                                self.lemma_index_of(j);
                            }
                            if before.holds(q) {
                                let j = before.index_of(q);
                                assert(self.posts@[j]@.id == q);
                            }
                        }
                    }
                    assert(self@ =~= before@.insert(k, post@));
                }
            },
        }
    }
}

impl View for PostStore {
    type V = Map<Seq<char>, PostView>;

    closed spec fn view(&self) -> Map<Seq<char>, PostView> {
        Map::new(|k: Seq<char>| self.holds(k), |k: Seq<char>| self.posts@[self.index_of(k)]@)
    }
}

/// Every user of the map is stored under its own id.
pub open spec fn users_keyed(m: Map<Seq<char>, UserView>) -> bool {
    forall|k: Seq<char>| #[trigger] m.contains_key(k) ==> m[k].id == k
}

/// The users, keyed by user id.
pub struct UserStore {
    users: Vec<User>,
}

impl UserStore {
    /// No two stored users share an id.
    pub closed spec fn wf(&self) -> bool {
        forall|i: int, j: int|
            0 <= i < j < self.users@.len() ==> #[trigger] self.users@[i]@.id
                != #[trigger] self.users@[j]@.id
    }

    closed spec fn holds(&self, k: Seq<char>) -> bool {
        exists|i: int| 0 <= i < self.users@.len() && #[trigger] self.users@[i]@.id == k
    }

    closed spec fn index_of(&self, k: Seq<char>) -> int {
        choose|i: int| 0 <= i < self.users@.len() && #[trigger] self.users@[i]@.id == k
    }

    proof fn lemma_index_of(&self, i: int)
        requires
            self.wf(),
            0 <= i < self.users@.len(),
        ensures
            self.holds(self.users@[i]@.id),
            self.index_of(self.users@[i]@.id) == i,
    {
        let k = self.users@[i]@.id;
        assert(self.users@[i]@.id == k);
        let j = self.index_of(k);
        if j != i {
            if j < i {
                assert(self.users@[j]@.id != self.users@[i]@.id);
            } else {
                assert(self.users@[i]@.id != self.users@[j]@.id);
            }
        }
    }

    /// An empty store.
    pub fn new() -> (r: Self)
        ensures
            r.wf(),
            r@ == Map::<Seq<char>, UserView>::empty(),
    {
        let r = UserStore { users: Vec::new() };
        assert(r@ =~= Map::<Seq<char>, UserView>::empty());
        r
    }

    fn find(&self, id: &str) -> (r: Option<usize>)
        requires
            self.wf(),
        ensures
            match r {
                Some(i) => i < self.users@.len() && self.users@[i as int]@.id == id@,
                None => !self@.contains_key(id@),
            },
    {
        let key = id.to_owned();
        let mut i: usize = 0;
        while i < self.users.len()
            invariant
                i <= self.users@.len(),
                key@ == id@,
                forall|j: int| 0 <= j < i ==> #[trigger] self.users@[j]@.id != id@,
            decreases self.users.len() - i,
        {
            if self.users[i].id == key {
                return Some(i);
            }
            i += 1;
        }
        None
    }

    /// The user stored under `id`, copied out.
    pub fn get(&self, id: &str) -> (r: Option<User>)
        requires
            self.wf(),
        ensures
            match r {
                Some(p) => self@.contains_key(id@) && p@ == self@[id@],
                None => !self@.contains_key(id@),
            },
    {
        match self.find(id) {
            Some(i) => {
                proof {
                    self.lemma_index_of(i as int);
                }
                Some(self.users[i].clone())
            },
            None => None,
        }
    }

    /// Every stored user sits under its own id.
    pub proof fn lemma_keyed(&self)
        ensures
            users_keyed(self@),
    {
    }

    /// Stores `user` under its id, replacing any user held under that id.
    pub fn insert(&mut self, user: User)
        requires
            old(self).wf(),
        ensures
            final(self).wf(),
            final(self)@ == old(self)@.insert(user@.id, user@),
    {
        let ghost k = user@.id;
        let ghost before = *self;
        match self.find(user.id.as_str()) {
            Some(i) => {
                self.users.set(i, user);
                proof {
                    assert forall|a: int, b: int|
                        0 <= a < b < self.users@.len() implies #[trigger] self.users@[a]@.id
                        != #[trigger] self.users@[b]@.id by {
                        assert(before.users@[a]@.id != before.users@[b]@.id);
                    }
                    assert forall|q: Seq<char>| #[trigger]
                        self@.contains_key(q) == before@.insert(k, user@).contains_key(q) && (
                        self@.contains_key(q) ==> self@[q] == before@.insert(k, user@)[q]) by {
                        if q == k {
                            self.lemma_index_of(i as int);
                        } else {
                            if self.holds(q) {
                                let j = self.index_of(q);
                                assert(before.users@[j]@.id == q);
                                before.lemma_index_of(j);
                                self.lemma_index_of(j);
                            }
                            if before.holds(q) {
                                let j = before.index_of(q);
                                assert(self.users@[j]@.id == q);
                            }
                        }
                    }
                    assert(self@ =~= before@.insert(k, user@));
                }
            },
            None => {
                self.users.push(user);
                proof {
                    let n = before.users@.len() as int;
                    assert forall|a: int, b: int|
                        0 <= a < b < self.users@.len() implies #[trigger] self.users@[a]@.id
                        != #[trigger] self.users@[b]@.id by {
                        if b == n {
                            assert(!before.holds(k));
                        } else {
                            assert(before.users@[a]@.id != before.users@[b]@.id);
                        }
                    }
                    assert forall|q: Seq<char>| #[trigger]
                        self@.contains_key(q) == before@.insert(k, user@).contains_key(q) && (
                        self@.contains_key(q) ==> self@[q] == before@.insert(k, user@)[q]) by {
                        if q == k {
                            self.lemma_index_of(n);
                        } else {
                            if self.holds(q) {
                                let j = self.index_of(q);
                                assert(before.users@[j]@.id == q);
                                before.lemma_index_of(j);
                                self.lemma_index_of(j);
                            }
                            if before.holds(q) {
                                let j = before.index_of(q);
                                assert(self.users@[j]@.id == q);
                            }
                        }
                    }
                    assert(self@ =~= before@.insert(k, user@));
                }
            },
        }
    }
}

impl View for UserStore {
    type V = Map<Seq<char>, UserView>;

    closed spec fn view(&self) -> Map<Seq<char>, UserView> {
        Map::new(|k: Seq<char>| self.holds(k), |k: Seq<char>| self.users@[self.index_of(k)]@)
    }
}

} // verus!
