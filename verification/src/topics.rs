//! Topic pages as one query answers them: the topic's title and author with
//! a page of its posts, each post's content shown only when its author and
//! body are visible.
use vstd::prelude::*;

use crate::forum::opt_view;

verus! {

pub struct Author {
    pub id: i64,
    pub name: String,
    pub signature: Option<String>,
}

pub struct AuthorView {
    pub id: i64,
    pub name: Seq<char>,
    pub signature: Option<Seq<char>>,
}

impl View for Author {
    type V = AuthorView;

    open spec fn view(&self) -> AuthorView {
        AuthorView { id: self.id, name: self.name@, signature: opt_view(self.signature) }
    }
}

pub struct TopicMeta<Ts> {
    pub title: String,
    pub author: Author,
    pub created_at: Ts,
    pub updated_at: Option<Ts>,
    pub deleted_at: Option<Ts>,
}

pub struct PostMeta<Ts> {
    pub post_number: i64,
    pub created_at: Ts,
    pub updated_at: Option<Ts>,
    pub deleted_at: Option<Ts>,
}

pub struct PostContent {
    pub author: Author,
    pub body: String,
}

pub struct Post<Ts> {
    pub meta: PostMeta<Ts>,
    pub content: Option<PostContent>,
}

pub struct Topic<Ts> {
    pub meta: TopicMeta<Ts>,
    pub posts: Vec<Post<Ts>>,
}

/// Why a topic page cannot be shown.
#[derive(Clone, Copy, Debug, PartialEq, Eq, Structural)]
pub enum TopicError {
    TopicDoesNotExist,
}

impl TopicError {
    pub fn message(&self) -> (m: &'static str)
        ensures
            m@ == "Topic does not exist."@,
    {
        "Topic does not exist."
    }
}

/// A post's content from the `author_user_id`, `username`,
/// `post_signature` and `body` columns: shown only when the author's id and
/// name and the body are all present.
pub fn post_content_from_columns(
    author_user_id: Option<i64>,
    username: Option<String>,
    post_signature: Option<String>,
    body: Option<String>,
) -> (c: Option<PostContent>)
    ensures
        c is Some <==> (author_user_id is Some && username is Some && body is Some),
        c matches Some(content) ==> (content.author@ == (AuthorView {
            id: author_user_id->0,
            name: username->0@,
            signature: opt_view(post_signature),
        }) && Some(content.body@) == opt_view(body)),
{
    match (author_user_id, username, body) {
        (Some(id), Some(name), Some(body)) => Some(PostContent {
            author: Author { id, name, signature: post_signature },
            body,
        }),
        _ => None,
    }
}

/// A topic page needs its topic: without one it is refused, and no posts
/// are looked up.
pub fn require_topic_meta<Ts>(meta: Option<TopicMeta<Ts>>) -> (r: Result<TopicMeta<Ts>, TopicError>)
    ensures
        meta is None <==> r is Err,
        r matches Ok(m) ==> meta == Some(m),
        r matches Err(e) ==> e == TopicError::TopicDoesNotExist,
{
    match meta {
        Some(m) => Ok(m),
        None => Err(TopicError::TopicDoesNotExist),
    }
}

/// The page of a topic: its posts when they were asked for, none otherwise.
pub fn topic_page<Ts>(meta: TopicMeta<Ts>, query_posts: bool, posts: Vec<Post<Ts>>) -> (t: Topic<Ts>)
    ensures
        t.meta == meta,
        query_posts ==> t.posts@ == posts@,
        !query_posts ==> t.posts@.len() == 0,
{
    if query_posts {
        Topic { meta, posts }
    } else {
        Topic { meta, posts: Vec::new() }
    }
}

} // verus!
