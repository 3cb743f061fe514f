//! The forum's data as the API serves it, and the rules that build it from
//! the columns a query returns.
//!
//! Timestamps are carried through unchanged; their type is a parameter.
use vstd::prelude::*;

verus! {

/// The role of a user.
#[derive(Clone, Copy, Debug, PartialEq, Eq, Structural)]
pub enum Role {
    Administrator,
    Moderator,
    Regular,
}

/// How a user is looked up.
pub enum UserBy {
    Name(String),
    Id(i64),
}

pub struct User {
    pub id: i64,
    pub name: String,
    pub signature: Option<String>,
}

pub struct UserView {
    pub id: i64,
    pub name: Seq<char>,
    pub signature: Option<Seq<char>>,
}

pub open spec fn opt_view(s: Option<String>) -> Option<Seq<char>> {
    match s {
        Some(t) => Some(t@),
        None => None,
    }
}

impl View for User {
    type V = UserView;

    open spec fn view(&self) -> UserView {
        UserView { id: self.id, name: self.name@, signature: opt_view(self.signature) }
    }
}

/// The role of the user with this id: user 1 administers the forum, every
/// other user is a regular user.
pub open spec fn spec_role_of(user_id: i64) -> Role {
    if user_id == 1 {
        Role::Administrator
    } else {
        Role::Regular
    }
}

/// User 1 is the only administrator; every other user is a regular user,
/// and nobody is made a moderator.
pub proof fn lemma_only_user_one_administers(user_id: i64)
    ensures
        (spec_role_of(user_id) == Role::Administrator) <==> user_id == 1,
        user_id != 1 ==> spec_role_of(user_id) == Role::Regular,
        spec_role_of(user_id) != Role::Moderator,
{
}

/// The role lookup: every user id has a role.
pub fn query_role(user_id: i64) -> (r: Option<Role>)
    ensures
        r == Some(spec_role_of(user_id)),
{
    if user_id == 1 {
        Some(Role::Administrator)
    } else {
        Some(Role::Regular)
    }
}

/// The signed-in user with their role.
pub struct Session {
    pub user: User,
    pub role: Role,
}

impl Session {
    /// The session of a user: their role is the one the role lookup gives.
    pub fn for_user(user: User) -> (s: Session)
        ensures
            s.user@ == user@,
            s.role == spec_role_of(user.id),
    {
        let role = query_role(user.id).unwrap();
        Session { user, role }
    }
}

/// A user built from the `id`, `username` and `post_signature` columns.
pub fn user_from_columns(id: i64, name: String, signature: Option<String>) -> (u: User)
    ensures
        u@ == (UserView { id, name: name@, signature: opt_view(signature) }),
{
    User { id, name, signature }
}

pub struct TopicMeta {
    pub title: String,
    pub author: User,
}

pub struct Topic<Ts> {
    pub id: i64,
    pub created_at: Ts,
    pub updated_at: Option<Ts>,
    pub deleted_at: Option<Ts>,
    /// Absent when the topic's title or author is not visible.
    pub meta: Option<TopicMeta>,
}

/// The title and author of a topic, built from the `title`, `user_id`,
/// `username` and `post_signature` columns: present only when title,
/// author id and author name all are (the signature may be missing).
pub fn topic_meta_from_columns(
    title: Option<String>,
    user_id: Option<i64>,
    user_name: Option<String>,
    user_signature: Option<String>,
) -> (m: Option<TopicMeta>)
    ensures
        m is Some <==> (title is Some && user_id is Some && user_name is Some),
        m matches Some(meta) ==> (Some(meta.title@) == opt_view(title)
            && meta.author@ == (UserView {
                id: user_id->0,
                name: user_name->0@,
                signature: opt_view(user_signature),
            })),
{
    match (title, user_id, user_name) {
        (Some(title), Some(id), Some(name)) => Some(TopicMeta {
            title,
            author: User { id, name, signature: user_signature },
        }),
        _ => None,
    }
}

/// A topic built from its columns (see `topic_meta_from_columns`).
pub fn topic_from_columns<Ts>(
    id: i64,
    created_at: Ts,
    updated_at: Option<Ts>,
    deleted_at: Option<Ts>,
    title: Option<String>,
    user_id: Option<i64>,
    user_name: Option<String>,
    user_signature: Option<String>,
) -> (t: Topic<Ts>)
    ensures
        t.id == id,
        t.created_at == created_at,
        t.updated_at == updated_at,
        t.deleted_at == deleted_at,
        t.meta is Some <==> (title is Some && user_id is Some && user_name is Some),
        t.meta matches Some(meta) ==> (Some(meta.title@) == opt_view(title)
            && meta.author@ == (UserView {
                id: user_id->0,
                name: user_name->0@,
                signature: opt_view(user_signature),
            })),
{
    let meta = topic_meta_from_columns(title, user_id, user_name, user_signature);
    Topic { id, created_at, updated_at, deleted_at, meta }
}

pub struct PostMeta {
    pub author: User,
}

pub struct PostContent {
    pub body: String,
}

pub struct Post<Ts> {
    pub post_number: i64,
    pub created_at: Ts,
    pub updated_at: Option<Ts>,
    pub deleted_at: Option<Ts>,
    /// Absent when the author is not visible.
    pub meta: Option<PostMeta>,
    /// Absent when the body is not visible (a deleted post).
    pub content: Option<PostContent>,
}

/// The author of a post, from the `author_user_id`, `username` and
/// `post_signature` columns: present when id and name are.
pub fn post_meta_from_columns(
    author_user_id: Option<i64>,
    username: Option<String>,
    post_signature: Option<String>,
) -> (m: Option<PostMeta>)
    ensures
        m is Some <==> (author_user_id is Some && username is Some),
        m matches Some(meta) ==> meta.author@ == (UserView {
            id: author_user_id->0,
            name: username->0@,
            signature: opt_view(post_signature),
        }),
{
    match (author_user_id, username) {
        (Some(id), Some(name)) => Some(PostMeta { author: User { id, name, signature: post_signature } }),
        _ => None,
    }
}

/// The body of a post, from the `body` column: present when it is.
pub fn post_content_from_columns(body: Option<String>) -> (c: Option<PostContent>)
    ensures
        c is Some <==> body is Some,
        c matches Some(content) ==> Some(content.body@) == opt_view(body),
{
    match body {
        Some(body) => Some(PostContent { body }),
        None => None,
    }
}

/// A post built from its columns (see `post_meta_from_columns` and
/// `post_content_from_columns`).
pub fn post_from_columns<Ts>(
    post_number: i64,
    created_at: Ts,
    updated_at: Option<Ts>,
    deleted_at: Option<Ts>,
    author_user_id: Option<i64>,
    username: Option<String>,
    post_signature: Option<String>,
    body: Option<String>,
) -> (p: Post<Ts>)
    ensures
        p.post_number == post_number,
        p.created_at == created_at,
        p.updated_at == updated_at,
        p.deleted_at == deleted_at,
        p.meta is Some <==> (author_user_id is Some && username is Some),
        p.meta matches Some(meta) ==> meta.author@ == (UserView {
            id: author_user_id->0,
            name: username->0@,
            signature: opt_view(post_signature),
        }),
        p.content is Some <==> body is Some,
        p.content matches Some(content) ==> Some(content.body@) == opt_view(body),
{
    let meta = post_meta_from_columns(author_user_id, username, post_signature);
    let content = post_content_from_columns(body);
    Post { post_number, created_at, updated_at, deleted_at, meta, content }
}

/// The entities that were found, in order, skipping the ids that named none.
pub open spec fn found_only<T>(found: Seq<Option<T>>) -> Seq<T>
    decreases found.len(),
{
    if found.len() == 0 {
        Seq::empty()
    } else {
        let rest = found_only(found.drop_last());
        match found.last() {
            Some(x) => rest.push(x),
            None => rest,
        }
    }
}

/// Every found entity is kept, in order, and nothing else: the kept list is
/// the found entries of the lookups with their `Some` removed, as many as
/// there are found entries; a further lookup appends what it found.
pub proof fn lemma_found_only_keeps_every_found<T>(found: Seq<Option<T>>, x: T)
    ensures
        found_only(found) == found.filter(|o: Option<T>| o is Some).map_values(|o: Option<T>| o->0),
        found_only(found).len() == found.filter(|o: Option<T>| o is Some).len(),
        found_only(found.push(Some(x))) == found_only(found).push(x),
        found_only(found.push(None)) == found_only(found),
    decreases found.len(),
{
    reveal_with_fuel(Seq::filter, 1);
    assert(found.push(Some(x)).drop_last() =~= found);
    assert(found.push(None::<T>).drop_last() =~= found);
    let is_found = |o: Option<T>| o is Some;
    let unwrap = |o: Option<T>| o->0;
    if found.len() == 0 {
        assert(found.filter(is_found) =~= Seq::<Option<T>>::empty());
        assert(found.filter(is_found).map_values(unwrap) =~= Seq::<T>::empty());
    } else {
        lemma_found_only_keeps_every_found(found.drop_last(), x);
        let f0 = found.drop_last().filter(is_found);
        if found.last() is Some {
            assert(found.filter(is_found) == f0.push(found.last()));
            assert(f0.push(found.last()).map_values(unwrap) =~= f0.map_values(unwrap).push(
                found.last()->0,
            ));
        } else {
            assert(found.filter(is_found) == f0);
        }
    }
}

/// Keep the entities that were found, in the order of the ids they were
/// looked up by (the lists of topics of the board and of a user).
pub fn keep_found<T>(found: Vec<Option<T>>) -> (v: Vec<T>)
    ensures
        v@ == found_only(found@),
{
    let mut v: Vec<T> = Vec::new();
    let mut rest = found;
    let ghost all = rest@;
    let n = rest.len();
    let mut i: usize = 0;
    while i < n
        invariant
            n == all.len(),
            i <= n,
            rest@ == all.skip(i as int),
            v@ == found_only(all.take(i as int)),
        decreases n - i,
    {
        let x = rest.remove(0);
        assert(all.take(i + 1).drop_last() =~= all.take(i as int));
        assert(rest@ =~= all.skip(i + 1));
        match x {
            Some(item) => v.push(item),
            None => {},
        }
        i = i + 1;
    }
    assert(all.take(n as int) =~= all);
    v
}

} // verus!
