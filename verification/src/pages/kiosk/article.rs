//! The article page: the body split into paragraphs, and the labels around
//! the article.

use vstd::prelude::*;
use crate::text::{chars_of, push_char, string_of_chars, trim_bounds, trim_ws};

verus! {

/// The first blank-line separator (`"\n\n"`) that starts at or after `i`,
/// or -1 when there is none.
pub open spec fn next_sep(s: Seq<char>, i: int) -> int
    decreases s.len() - i,
{
    if i < 0 || i + 1 >= s.len() {
        -1
    } else if s[i] == '\n' && s[i + 1] == '\n' {
        i
    } else {
        next_sep(s, i + 1)
    }
}

/// `s[start..].split("\n\n")`: the pieces between separators, left to right.
pub open spec fn pieces_from(s: Seq<char>, start: int) -> Seq<Seq<char>>
    decreases s.len() - start,
{
    let j = next_sep(s, start);
    if start < 0 || start > s.len() || j < start || j + 2 > s.len() {
        seq![s.subrange(start, s.len() as int)]
    } else {
        seq![s.subrange(start, j)] + pieces_from(s, j + 2)
    }
}

/// The trimmed pieces that are not empty, in order.
pub open spec fn nonblank_trimmed(ps: Seq<Seq<char>>) -> Seq<Seq<char>>
    decreases ps.len(),
{
    if ps.len() == 0 {
        Seq::empty()
    } else {
        nonblank_trimmed(ps.drop_last()) + if trim_ws(ps.last()).len() > 0 {
            seq![trim_ws(ps.last())]
        } else {
            Seq::empty()
        }
    }
}

/// The paragraphs of an article body: the body split on blank lines, each
/// piece trimmed, the empty ones left out.
pub open spec fn paragraphs_spec(body: Seq<char>) -> Seq<Seq<char>> {
    nonblank_trimmed(pieces_from(body, 0))
}

/// The views of a list of strings.
pub open spec fn views(v: Seq<String>) -> Seq<Seq<char>> {
    v.map_values(|x: String| x@)
}

proof fn lemma_next_sep_range(s: Seq<char>, i: int)
    requires
        0 <= i,
    ensures
        next_sep(s, i) == -1 || (i <= next_sep(s, i) && next_sep(s, i) + 2 <= s.len()
            && s[next_sep(s, i)] == '\n' && s[next_sep(s, i) + 1] == '\n'),
    decreases s.len() - i,
{
    if i + 1 < s.len() && !(s[i] == '\n' && s[i + 1] == '\n') {
        lemma_next_sep_range(s, i + 1);
    }
}

proof fn lemma_nonblank_push(ps: Seq<Seq<char>>, p: Seq<char>)
    ensures
        nonblank_trimmed(ps.push(p)) == nonblank_trimmed(ps) + if trim_ws(p).len() > 0 {
            seq![trim_ws(p)]
        } else {
            Seq::<Seq<char>>::empty()
        },
{
    assert(ps.push(p).drop_last() =~= ps);
}

/// The position of the first separator at or after `i`, as `next_sep`.
fn find_sep(v: &Vec<char>, i: usize) -> (r: Option<usize>)
    requires
        i <= v@.len(),
    ensures
        match r {
            Some(j) => next_sep(v@, i as int) == j,
            None => next_sep(v@, i as int) == -1,
        },
{
    let mut k = i;
    while k < v.len() && k + 1 < v.len()
        invariant
            i <= k <= v@.len(),
            next_sep(v@, k as int) == next_sep(v@, i as int),
        decreases v@.len() - k,
    {
        if v[k] == '\n' && v[k + 1] == '\n' {
            return Some(k);
        }
        k = k + 1;
    }
    None
}

/// How an article body is shown: as its paragraphs, or, when it has no
/// paragraph that is not blank, whole in one block.
#[derive(Debug, Clone, PartialEq)]
pub enum ArticleBody {
    Paragraphs(Vec<String>),
    Whole(String),
}

/// The body as the page shows it: its paragraphs when there is at least
/// one, otherwise the body as it is, in one block.
pub fn article_body(body: &str) -> (r: ArticleBody)
    ensures
        paragraphs_spec(body@).len() > 0 ==> (r matches ArticleBody::Paragraphs(v) && views(v@)
            == paragraphs_spec(body@)),
        paragraphs_spec(body@).len() == 0 ==> (r matches ArticleBody::Whole(w) && w@ == body@),
{
    let paras = body_paragraphs(body);
    if paras.len() == 0 {
        ArticleBody::Whole(body.to_owned())
    } else {
        ArticleBody::Paragraphs(paras)
    }
}

/// The paragraphs of an article body, in order.
pub fn body_paragraphs(body: &str) -> (r: Vec<String>)
    ensures
        views(r@) == paragraphs_spec(body@),
{
    let v = chars_of(body);
    let ghost s = v@;
    let mut out: Vec<String> = Vec::new();
    let ghost mut done: Seq<Seq<char>> = Seq::empty();
    let mut start: usize = 0;
    let n = v.len();
    loop
        invariant
            n == v@.len(),
            s == v@,
            s == body@,
            start <= s.len(),
            done + pieces_from(s, start as int) == pieces_from(s, 0),
            views(out@) == nonblank_trimmed(done),
        decreases s.len() - start,
    {
        let sep = find_sep(&v, start);
        proof {
            lemma_next_sep_range(s, start as int);
        }
        let end = match sep {
            Some(j) => j,
            None => v.len(),
        };
        let (a, b) = trim_bounds(&v, start, end);
        let ghost piece = s.subrange(start as int, end as int);
        if a < b {
            let p = string_of_chars(&v, a, b);
            out.push(p);
        }
        proof {
            lemma_nonblank_push(done, piece);
            assert(views(out@) =~= nonblank_trimmed(done.push(piece)));
        }
        match sep {
            Some(j) => {
                assert(j + 2 <= v@.len());
                proof {
                    assert(pieces_from(s, start as int) == seq![piece] + pieces_from(s, j + 2));
                    assert(done.push(piece) + pieces_from(s, j + 2) =~= done + pieces_from(
                        s,
                        start as int,
                    ));
                    done = done.push(piece);
                }
                start = j + 2;
            },
            None => {
                proof {
                    assert(pieces_from(s, start as int) == seq![piece]);
                    assert(done.push(piece) =~= pieces_from(s, 0));
                }
                return out;
            },
        }
    }
}

/// A tag chip's text, `"#<tag>"`.
pub fn tag_chip(tag: &str) -> (r: String)
    ensures
        r@ == seq!['#'] + tag@,
{
    let mut s = String::new();
    push_char(&mut s, '#');
    s.append(tag);
    s
}

/// The route line, `"Route <id>"`.
pub fn route_label(route_id: &str) -> (r: String)
    ensures
        r@ == "Route "@ + route_id@,
{
    let mut s = "Route ".to_owned();
    s.append(route_id);
    s
}

} // verus!
