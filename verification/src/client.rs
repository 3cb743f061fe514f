//! The browser client's GraphQL plumbing and its display rules.
use vstd::prelude::*;

use crate::text::{decimal_int, push_char, push_decimal_i64};

verus! {

broadcast use vstd::string::group_string_axioms;

/// A GraphQL endpoint.
pub struct GraphQLClient {
    endpoint: String,
}

/// An error entry of a GraphQL response.
pub struct GraphQLError {
    pub message: String,
    pub locations: Option<Vec<GraphQLSourceMap>>,
    pub path: Option<Vec<GraphQLPathNode>>,
}

/// A position in the query text.
pub struct GraphQLSourceMap {
    pub line: usize,
    pub column: usize,
}

/// A step of the path to the field an error is about.
pub enum GraphQLPathNode {
    Field(String),
    Index(usize),
}

/// Unicode `White_Space` (what `char::is_whitespace` tests).
pub open spec fn is_white_space(c: char) -> bool {
    let u = c as u32;
    ||| 0x9 <= u <= 0xD
    ||| u == 0x20
    ||| u == 0x85
    ||| u == 0xA0
    ||| u == 0x1680
    ||| 0x2000 <= u <= 0x200A
    ||| u == 0x2028
    ||| u == 0x2029
    ||| u == 0x202F
    ||| u == 0x205F
    ||| u == 0x3000
}

pub fn white_space(c: char) -> (r: bool)
    ensures
        r == is_white_space(c),
{
    let u = c as u32;
    (0x9 <= u && u <= 0xD) || u == 0x20 || u == 0x85 || u == 0xA0 || u == 0x1680 || (0x2000 <= u
        && u <= 0x200A) || u == 0x2028 || u == 0x2029 || u == 0x202F || u == 0x205F || u == 0x3000
}

/// The pieces of `s` between line feeds (the last piece may be empty).
pub open spec fn pieces(s: Seq<char>) -> Seq<Seq<char>>
    decreases s.len(),
{
    if s.len() == 0 {
        seq![Seq::empty()]
    } else {
        let p = pieces(s.drop_last());
        if s.last() == '\n' {
            p.push(Seq::empty())
        } else {
            p.update(p.len() - 1, p.last().push(s.last()))
        }
    }
}

/// The lines of `s` as `str::lines` yields them, up to a carriage return
/// before each line feed (which trimming removes anyway): the pieces
/// between line feeds, without a final empty piece.
pub open spec fn lines(s: Seq<char>) -> Seq<Seq<char>> {
    let p = pieces(s);
    if p.last().len() == 0 {
        p.drop_last()
    } else {
        p
    }
}

/// Number of white-space characters at the start of `s`.
pub open spec fn leading_ws(s: Seq<char>) -> nat
    decreases s.len(),
{
    if s.len() > 0 && is_white_space(s[0]) {
        1 + leading_ws(s.drop_first())
    } else {
        0
    }
}

/// Number of white-space characters at the end of `s`.
pub open spec fn trailing_ws(s: Seq<char>) -> nat
    decreases s.len(),
{
    if s.len() > 0 && is_white_space(s.last()) {
        1 + trailing_ws(s.drop_last())
    } else {
        0
    }
}

/// `s` without leading and trailing white space (`str::trim`).
pub open spec fn trim(s: Seq<char>) -> Seq<char> {
    let t = s.skip(leading_ws(s) as int);
    t.take(t.len() - trailing_ws(t))
}

/// The parts joined with `sep` between them (`[T]::join`).
pub open spec fn join(parts: Seq<Seq<char>>, sep: Seq<char>) -> Seq<char>
    decreases parts.len(),
{
    if parts.len() == 0 {
        Seq::empty()
    } else if parts.len() == 1 {
        parts[0]
    } else {
        join(parts.drop_last(), sep) + sep + parts.last()
    }
}

/// The query on one line: every line trimmed, joined with single spaces.
pub open spec fn minimized(query: Seq<char>) -> Seq<char> {
    join(lines(query).map_values(|l: Seq<char>| trim(l)), seq![' '])
}

proof fn lemma_leading_ws(s: Seq<char>, i: int)
    requires
        0 <= i <= s.len(),
        forall|j: int| 0 <= j < i ==> is_white_space(#[trigger] s[j]),
        i == s.len() || !is_white_space(s[i]),
    ensures
        leading_ws(s) == i,
    decreases i,
{
    if i > 0 {
        lemma_leading_ws(s.drop_first(), i - 1);
    }
}

proof fn lemma_trailing_ws(s: Seq<char>, e: int)
    requires
        0 <= e <= s.len(),
        forall|j: int| e <= j < s.len() ==> is_white_space(#[trigger] s[j]),
        e == 0 || !is_white_space(s[e - 1]),
    ensures
        trailing_ws(s) == s.len() - e,
    decreases s.len() - e,
{
    if e < s.len() {
        lemma_trailing_ws(s.drop_last(), e);
    }
}

/// Append `trim(line)` to `out`.
fn push_trimmed(out: &mut String, line: &Vec<char>)
    ensures
        final(out)@ == old(out)@ + trim(line@),
{
    let n = line.len();
    let mut a: usize = 0;
    while a < n && white_space(line[a])
        invariant
            n == line@.len(),
            a <= n,
            forall|j: int| 0 <= j < a ==> is_white_space(#[trigger] line@[j]),
        decreases n - a,
    {
        a = a + 1;
    }
    proof {
        lemma_leading_ws(line@, a as int);
    }
    let ghost t = line@.skip(a as int);
    let mut e: usize = n;
    while e > a && white_space(line[e - 1])
        invariant
            n == line@.len(),
            a <= e <= n,
            t == line@.skip(a as int),
            forall|j: int| e <= j < n ==> is_white_space(#[trigger] line@[j]),
        decreases e,
    {
        e = e - 1;
    }
    proof {
        assert forall|j: int| e - a <= j < t.len() implies is_white_space(#[trigger] t[j]) by {
            assert(t[j] == line@[j + a]);
        }
        lemma_trailing_ws(t, e - a);
    }
    let ghost start = out@;
    let mut k: usize = a;
    while k < e
        invariant
            n == line@.len(),
            a <= k <= e <= n,
            out@ == start + line@.subrange(a as int, k as int),
        decreases e - k,
    {
        push_char(out, line[k]);
        assert(line@.subrange(a as int, k + 1) =~= line@.subrange(a as int, k as int).push(line@[k as int]));
        k = k + 1;
    }
    assert(line@.subrange(a as int, e as int) =~= trim(line@));
}

proof fn lemma_join_push(parts: Seq<Seq<char>>, x: Seq<char>, sep: Seq<char>)
    ensures
        join(parts.push(x), sep) == if parts.len() == 0 { x } else { join(parts, sep) + sep + x },
{
    assert(parts.push(x).drop_last() =~= parts);
}

proof fn lemma_ws_bounds(s: Seq<char>)
    ensures
        leading_ws(s) <= s.len(),
        trailing_ws(s) <= s.len(),
    decreases s.len(),
{
    if s.len() > 0 {
        lemma_ws_bounds(s.drop_first());
        lemma_ws_bounds(s.drop_last());
    }
}

/// No line feed in `s`.
pub open spec fn single_line(s: Seq<char>) -> bool {
    forall|i: int| 0 <= i < s.len() ==> s[i] != '\n'
}

proof fn lemma_pieces_single_line(s: Seq<char>)
    ensures
        pieces(s).len() >= 1,
        forall|k: int| 0 <= k < pieces(s).len() ==> single_line(#[trigger] pieces(s)[k]),
    decreases s.len(),
{
    if s.len() > 0 {
        lemma_pieces_single_line(s.drop_last());
        let p = pieces(s.drop_last());
        if s.last() != '\n' {
            assert forall|k: int| 0 <= k < pieces(s).len() implies single_line(#[trigger] pieces(s)[k]) by {
                if k == p.len() - 1 {
                    assert(single_line(p[k]));
                    assert(pieces(s)[k] == p.last().push(s.last()));
                }
            }
        }
    }
}

proof fn lemma_join_single_line(parts: Seq<Seq<char>>)
    requires
        forall|k: int| 0 <= k < parts.len() ==> single_line(#[trigger] parts[k]),
    ensures
        single_line(join(parts, seq![' '])),
    decreases parts.len(),
{
    if parts.len() > 1 {
        lemma_join_single_line(parts.drop_last());
        let a = join(parts.drop_last(), seq![' ']);
        let j = a + seq![' '] + parts.last();
        assert forall|i: int| 0 <= i < j.len() implies j[i] != '\n' by {
            if i < a.len() {
            } else if i == a.len() {
            } else {
                assert(j[i] == parts.last()[i - a.len() - 1]);
            }
        }
    }
}

/// The minimized query is a single line: it holds no line feed.
pub proof fn lemma_minimized_single_line(query: Seq<char>)
    ensures
        single_line(minimized(query)),
{
    lemma_pieces_single_line(query);
    let ls = lines(query);
    let f = |l: Seq<char>| trim(l);
    let ts = ls.map_values(f);
    assert forall|k: int| 0 <= k < ts.len() implies single_line(#[trigger] ts[k]) by {
        let l = ls[k];
        assert(l == pieces(query)[k]);
        assert(ts[k] == trim(l));
        let t = l.skip(leading_ws(l) as int);
        lemma_ws_bounds(l);
        lemma_ws_bounds(t);
        assert forall|i: int| 0 <= i < trim(l).len() implies trim(l)[i] != '\n' by {
            assert(trim(l)[i] == l[i + leading_ws(l)]);
        }
    }
    lemma_join_single_line(ts);
}

/// Text without a line feed is a single piece.
pub proof fn lemma_pieces_of_single_line(s: Seq<char>)
    requires
        single_line(s),
    ensures
        pieces(s) == seq![s],
    decreases s.len(),
{
    if s.len() > 0 {
        let t = s.drop_last();
        assert(single_line(t));
        lemma_pieces_of_single_line(t);
        assert(s.last() != '\n');
        assert(t.push(s.last()) =~= s);
        assert(pieces(s) =~= seq![s]);
    } else {
        assert(s =~= Seq::<char>::empty());
        assert(pieces(s) =~= seq![s]);
    }
}

/// A line feed splits the text: the pieces of `a`, a line feed and `b`
/// are the pieces of `a` followed by those of `b`.
pub proof fn lemma_pieces_split_at_line_feed(a: Seq<char>, b: Seq<char>)
    ensures
        pieces(a + seq!['\n'] + b) == pieces(a) + pieces(b),
    decreases b.len(),
{
    let s = a + seq!['\n'] + b;
    lemma_pieces_single_line_len(a);
    if b.len() == 0 {
        assert(s.drop_last() =~= a);
        assert(pieces(b) =~= seq![Seq::<char>::empty()]);
        assert(pieces(s) =~= pieces(a) + pieces(b));
    } else {
        let b0 = b.drop_last();
        lemma_pieces_split_at_line_feed(a, b0);
        assert(s.drop_last() =~= a + seq!['\n'] + b0);
        lemma_pieces_single_line_len(b0);
        let pa = pieces(a);
        let pb = pieces(b0);
        if b.last() == '\n' {
            assert(pieces(s) =~= pieces(a) + pieces(b));
        } else {
            assert((pa + pb).last() == pb.last());
            assert(pieces(s) =~= pieces(a) + pieces(b));
        }
    }
}

proof fn lemma_pieces_single_line_len(s: Seq<char>)
    ensures
        pieces(s).len() >= 1,
    decreases s.len(),
{
    if s.len() > 0 {
        lemma_pieces_single_line_len(s.drop_last());
    }
}

/// A query that is already one line with no white space at its ends is
/// left exactly as it is.
pub proof fn lemma_minimized_keeps_a_clean_line(q: Seq<char>)
    requires
        single_line(q),
        q.len() > 0 ==> !is_white_space(q[0]) && !is_white_space(q.last()),
    ensures
        minimized(q) == q,
{
    lemma_pieces_of_single_line(q);
    let f = |l: Seq<char>| trim(l);
    if q.len() == 0 {
        assert(lines(q) =~= Seq::<Seq<char>>::empty());
        assert(lines(q).map_values(f) =~= Seq::<Seq<char>>::empty());
    } else {
        assert(lines(q) == seq![q]);
        assert(leading_ws(q) == 0);
        assert(q.skip(0) =~= q);
        assert(trailing_ws(q) == 0);
        assert(q.take(q.len() as int) =~= q);
        assert(trim(q) == q);
        assert(lines(q).map_values(f) =~= seq![q]);
    }
}

/// Two lines become one: the first trimmed, a space, the second trimmed.
pub proof fn lemma_minimized_two_lines(a: Seq<char>, b: Seq<char>)
    requires
        single_line(a),
        single_line(b),
        b.len() > 0,
    ensures
        minimized(a + seq!['\n'] + b) == trim(a) + seq![' '] + trim(b),
{
    lemma_pieces_split_at_line_feed(a, b);
    lemma_pieces_of_single_line(a);
    lemma_pieces_of_single_line(b);
    let q = a + seq!['\n'] + b;
    let f = |l: Seq<char>| trim(l);
    assert(pieces(q) =~= seq![a, b]);
    assert(lines(q) =~= seq![a, b]);
    let ts = lines(q).map_values(f);
    assert(ts =~= seq![trim(a), trim(b)]);
    assert(ts.drop_last() =~= seq![trim(a)]);
    assert(join(ts.drop_last(), seq![' ']) == trim(a));
    assert(ts.last() == trim(b));
    assert(join(ts, seq![' ']) == join(ts.drop_last(), seq![' ']) + seq![' '] + ts.last());
}

impl GraphQLClient {
    pub closed spec fn spec_endpoint(&self) -> Seq<char> {
        self.endpoint@
    }

    pub fn new(endpoint: &str) -> (c: Self)
        ensures
            c.spec_endpoint() == endpoint@,
    {
        GraphQLClient { endpoint: endpoint.to_owned() }
    }

    /// Put the query on one line: every line trimmed, joined with spaces.
    pub fn minimize_query_string(query: &str) -> (r: String)
        ensures
            r@ == minimized(query@),
    {
        let ghost q = query@;
        let ghost f = |l: Seq<char>| trim(l);
        let mut out = String::new();
        let mut cur: Vec<char> = Vec::new();
        let ghost mut done: Seq<Seq<char>> = Seq::empty();
        let mut any = false;
        assert(q.take(0) =~= Seq::<char>::empty());
        assert(done.map_values(f) =~= Seq::<Seq<char>>::empty());
        for c in it: query.chars()
            invariant
                it.seq() == q,
                it.index() <= q.len(),
                forall|l: Seq<char>| #[trigger] f(l) == trim(l),
                pieces(q.take(it.index() as int)) == done.push(cur@),
                out@ == join(done.map_values(f), seq![' ']),
                any == (done.len() > 0),
        {
            let ghost i = it.index() as int;
            assert(c == q[i]);
            assert(q.take(i + 1).drop_last() =~= q.take(i));
            assert(q.take(i + 1).last() == c);
            if c == '\n' {
                if any {
                    push_char(&mut out, ' ');
                }
                push_trimmed(&mut out, &cur);
                proof {
                    lemma_join_push(done.map_values(f), trim(cur@), seq![' ']);
                    assert(done.push(cur@).map_values(f) =~= done.map_values(f).push(trim(cur@)));
                    done = done.push(cur@);
                }
                cur = Vec::new();
                any = true;
                assert(pieces(q.take(i + 1)) =~= done.push(cur@));
            } else {
                cur.push(c);
                assert(pieces(q.take(i + 1)) =~= done.push(cur@));
            }
        }
        assert(q.take(q.len() as int) =~= q);
        if cur.len() > 0 {
            if any {
                push_char(&mut out, ' ');
            }
            push_trimmed(&mut out, &cur);
            proof {
                lemma_join_push(done.map_values(f), trim(cur@), seq![' ']);
                assert(done.push(cur@).map_values(f) =~= done.map_values(f).push(trim(cur@)));
            }
        } else {
            assert(done.push(cur@).drop_last() =~= done);
        }
        out
    }
}

/// The messages of a response's errors, in order.
pub fn error_messages(errors: &Vec<GraphQLError>) -> (m: Vec<String>)
    ensures
        m@.len() == errors@.len(),
        forall|i: int| 0 <= i < errors@.len() ==> #[trigger] m@[i]@ == errors@[i].message@,
{
    let mut m: Vec<String> = Vec::new();
    let mut i: usize = 0;
    while i < errors.len()
        invariant
            i <= errors@.len(),
            m@.len() == i,
            forall|j: int| 0 <= j < i ==> #[trigger] m@[j]@ == errors@[j].message@,
        decreases errors@.len() - i,
    {
        m.push(errors[i].message.clone());
        i = i + 1;
    }
    m
}

/// What the logout page shows.
pub enum LogoutOutcome {
    /// The errors the server reported.
    Errors(Vec<String>),
    /// Logged out; the page goes back to the index.
    LoggedOut,
    AuthenticationError,
    InternalServerError,
}

/// The logout page's reading of the response to the `logout` mutation:
/// errors first; else the data's `logout` field (`logout` is that field
/// when it is a boolean) must be `true`; no data at all is a server error.
pub fn logout_outcome(errors: &Option<Vec<GraphQLError>>, data: Option<Option<bool>>) -> (o: LogoutOutcome)
    ensures
        match errors {
            Some(errs) => o matches LogoutOutcome::Errors(m) && m@.len() == errs@.len()
                && forall|i: int| 0 <= i < errs@.len() ==> #[trigger] m@[i]@ == errs@[i].message@,
            None => match data {
                Some(logout) => if logout == Some(true) {
                    o is LoggedOut
                } else {
                    o is AuthenticationError
                },
                None => o is InternalServerError,
            },
        },
{
    match errors {
        Some(errs) => LogoutOutcome::Errors(error_messages(errs)),
        None => match data {
            Some(Some(true)) => LogoutOutcome::LoggedOut,
            Some(_) => LogoutOutcome::AuthenticationError,
            None => LogoutOutcome::InternalServerError,
        },
    }
}

/// What the new-post form shows after submitting.
pub enum PostingOutcome {
    /// The errors the server reported.
    Errors(Vec<String>),
    /// The post was accepted.
    Posted,
    InternalServerError,
}

/// The new-post form's reading of the response to the `newPost` mutation:
/// errors first; any data means the post was accepted; no data at all is a
/// server error.
pub fn posting_outcome(errors: &Option<Vec<GraphQLError>>, has_data: bool) -> (o: PostingOutcome)
    ensures
        match errors {
            Some(errs) => o matches PostingOutcome::Errors(m) && m@.len() == errs@.len()
                && forall|i: int| 0 <= i < errs@.len() ==> #[trigger] m@[i]@ == errs@[i].message@,
            None => if has_data {
                o is Posted
            } else {
                o is InternalServerError
            },
        },
{
    match errors {
        Some(errs) => PostingOutcome::Errors(error_messages(errs)),
        None => if has_data {
            PostingOutcome::Posted
        } else {
            PostingOutcome::InternalServerError
        },
    }
}

/// Posts shown per topic page.
pub const POSTS_PER_PAGE: i64 = 10;

/// The offset of the first post on `page` (pages count from 1).
pub fn posts_offset(page: i64) -> (o: i64)
    requires
        i64::MIN <= (page - 1) * POSTS_PER_PAGE <= i64::MAX,
    ensures
        o == (page - 1) * POSTS_PER_PAGE,
{
    (page - 1) * POSTS_PER_PAGE
}

/// The text shown for a post's body: `[DELETED]` when it has none.
pub fn post_body_text(body: Option<String>) -> (t: String)
    ensures
        t@ == (match body {
            Some(b) => b@,
            None => "[DELETED]"@,
        }),
{
    match body {
        Some(b) => b,
        None => "[DELETED]".to_owned(),
    }
}

/// The author name shown under a post: `[REDACTED]` when it has none.
pub fn post_author_text(author_name: Option<String>) -> (t: String)
    ensures
        t@ == (match author_name {
            Some(n) => n@,
            None => "[REDACTED]"@,
        }),
{
    match author_name {
        Some(n) => n,
        None => "[REDACTED]".to_owned(),
    }
}

/// The link to a user's page.
pub fn user_link(id: i64) -> (l: String)
    ensures
        l@ == "/user/"@ + decimal_int(id as int),
{
    let mut l = "/user/".to_owned();
    push_decimal_i64(&mut l, id);
    l
}

/// The signed-in user's label in the navigation bar: `name (role)`.
pub fn user_label(name: &str, role: &str) -> (l: String)
    ensures
        l@ == name@ + " ("@ + role@ + ")"@,
{
    let mut l = name.to_owned();
    l.append(" (");
    l.append(role);
    l.append(")");
    l
}

} // verus!
