use vstd::prelude::*;

use crate::text::{chars_of, find_first, occurs_at, string_of};

verus! {

/// The start of every link the player accepts.
pub open spec fn watch_prefix() -> Seq<char> {
    seq![
        'h', 't', 't', 'p', 's', ':', '/', '/', 'w', 'w', 'w', '.', 'y', 'o', 'u', 't', 'u', 'b',
        'e', '.', 'c', 'o', 'm', '/', 'w', 'a', 't', 'c', 'h', '?', 'v', '=',
    ]
}

/// The link prefix as text.
pub fn watch_prefix_chars() -> (r: Vec<char>)
    ensures
        r@ == watch_prefix(),
{
    let r = chars_of("https://www.youtube.com/watch?v=");
    proof {
        reveal_strlit("https://www.youtube.com/watch?v=");
        assert(r@ =~= watch_prefix());
    }
    r
}

/// A character allowed in a video id: ASCII letters, digits, `_` and `-`.
pub open spec fn is_id_char(c: char) -> bool {
    ('a' <= c && c <= 'z') || ('A' <= c && c <= 'Z') || ('0' <= c && c <= '9') || c == '_' || c
        == '-'
}

/// `http` or `https`, `://`, an optional `www.`, then `youtube.com/watch?v=`.
pub open spec fn link_head(secure: bool, www: bool) -> Seq<char> {
    (if secure {
        seq!['h', 't', 't', 'p', 's']
    } else {
        seq!['h', 't', 't', 'p']
    }) + seq![':', '/', '/'] + (if www {
        seq!['w', 'w', 'w', '.']
    } else {
        Seq::empty()
    }) + seq![
        'y', 'o', 'u', 't', 'u', 'b', 'e', '.', 'c', 'o', 'm', '/', 'w', 'a', 't', 'c', 'h', '?',
        'v', '=',
    ]
}

/// A watch link with a non-empty id begins at index `i` of `s`.
pub open spec fn watch_link_at(s: Seq<char>, i: int) -> bool {
    exists|secure: bool, www: bool|
        #![trigger link_head(secure, www)]
        occurs_at(s, link_head(secure, www), i) && i + link_head(secure, www).len() < s.len()
            && is_id_char(s[i + link_head(secure, www).len()])
}

/// Whether a watch link with a non-empty id occurs anywhere in `s`.
pub open spec fn has_watch_link(s: Seq<char>) -> bool {
    exists|i: int| #[trigger] watch_link_at(s, i)
}

/// Relies on regex's `Regex::new`, on a fixed pattern that compiles, and
/// `Regex::is_match`: whether `https?://(www\.)?youtube\.com/watch\?v=[a-zA-Z0-9_-]+`
/// matches somewhere in `s`.
#[verifier::external_body]
fn regex_has_watch_link(s: &str) -> (r: bool)
    ensures
        r == has_watch_link(s@),
{
    regex::Regex::new(r"https?://(www\.)?youtube\.com/watch\?v=[a-zA-Z0-9_-]+").unwrap().is_match(s)
}

/// Whether `url` holds a watch link with a non-empty id.
pub fn is_valid_youtube_url(url: &str) -> (r: bool)
    ensures
        r == has_watch_link(url@),
{
    regex_has_watch_link(url)
}

/// The link prefix first occurs at index `i` of `s`.
pub open spec fn first_prefix_at(s: Seq<char>, i: int) -> bool {
    occurs_at(s, watch_prefix(), i) && forall|j: int|
        0 <= j < i ==> !#[trigger] occurs_at(s, watch_prefix(), j)
}

/// Why no link could be taken from a message.
#[derive(Debug, Clone, Copy, PartialEq, Eq, Structural)]
pub enum LinkError {
    NotFound,
}

impl LinkError {
    pub fn message(&self) -> (r: String)
        ensures
            r@ == "No valid YouTube URL found"@,
    {
        String::from_str("No valid YouTube URL found")
    }
}

/// The index where the link of `input` starts: the first occurrence of the
/// link prefix, provided a valid link follows from there.
pub fn locate_link(cs: &Vec<char>, input: &str) -> (r: Option<usize>)
    requires
        cs@ == input@,
    ensures
        r is Some ==> first_prefix_at(cs@, r->0 as int) && has_watch_link(
            cs@.subrange(r->0 as int, cs@.len() as int),
        ),
        r is None ==> forall|i: int|
            #![trigger first_prefix_at(cs@, i)]
            first_prefix_at(cs@, i) ==> !has_watch_link(cs@.subrange(i, cs@.len() as int)),
{
    let p = watch_prefix_chars();
    match find_first(cs, &p) {
        None => None,
        Some(start) => {
            let rest = string_of(cs, start, cs.len());
            if is_valid_youtube_url(rest.as_str()) {
                Some(start)
            } else {
                proof {
                    assert forall|i: int| #![trigger first_prefix_at(cs@, i)]
                        first_prefix_at(cs@, i) implies !has_watch_link(
                        cs@.subrange(i, cs@.len() as int),
                    ) by {
                        if i < start {
                        } else if i > start {
                            assert(!occurs_at(cs@, watch_prefix(), start as int));
                        }
                    }
                }
                None
            }
        },
    }
}

/// The link in `input`: everything from the first occurrence of the link
/// prefix to the end, provided a valid link occurs in that part.
pub fn extract_youtube_url(input: &str) -> (r: Result<String, LinkError>)
    ensures
        forall|i: int|
            #![trigger first_prefix_at(input@, i)]
            first_prefix_at(input@, i) ==> (r is Ok <==> has_watch_link(
                input@.subrange(i, input@.len() as int),
            )) && (r is Ok ==> r->Ok_0@ == input@.subrange(i, input@.len() as int)),
        (forall|i: int| 0 <= i ==> !#[trigger] occurs_at(input@, watch_prefix(), i)) ==> r is Err,
{
    let cs = chars_of(input);
    match locate_link(&cs, input) {
        Some(start) => {
            proof {
                assert forall|i: int| #![trigger first_prefix_at(input@, i)]
                    first_prefix_at(input@, i) implies i == start by {
                    if i < start {
                    } else if i > start {
                        assert(!occurs_at(cs@, watch_prefix(), start as int));
                    }
                }
            }
            Ok(string_of(&cs, start, cs.len()))
        },
        None => Err(LinkError::NotFound),
    }
}

/// The argument that asks the resolver for the first search hit of `query`.
pub open spec fn search_argument_spec(query: Seq<char>) -> Seq<char> {
    seq!['y', 't', 's', 'e', 'a', 'r', 'c', 'h', '1', ':'] + query
}

pub fn search_argument(query: &str) -> (r: String)
    ensures
        r@ == search_argument_spec(query@),
{
    let mut out = String::from_str("ytsearch1:");
    proof {
        reveal_strlit("ytsearch1:");
    }
    crate::text::push_all(&mut out, query);
    proof {
        assert(out@ =~= search_argument_spec(query@));
    }
    out
}

/// The first line of `s`: up to the first line feed, without a carriage
/// return just before it; empty when `s` is.
pub open spec fn first_line(s: Seq<char>) -> Seq<char> {
    let end = if exists|i: int| 0 <= i < s.len() && s[i] == '\n' {
        choose|i: int| 0 <= i < s.len() && s[i] == '\n' && forall|j: int| 0 <= j < i ==> s[j] != '\n'
    } else {
        s.len() as int
    };
    if end > 0 && s[end - 1] == '\r' {
        s.subrange(0, end - 1)
    } else {
        s.subrange(0, end)
    }
}

/// The link of the video whose id is the first line of the resolver's
/// search output.
pub fn url_from_search_output(output: &str) -> (r: String)
    ensures
        r@ == watch_prefix() + first_line(output@),
{
    let cs = chars_of(output);
    let n = cs.len();
    let mut end: usize = 0;
    while end < n && cs[end] != '\n'
        invariant
            n == cs@.len(),
            end <= n,
            forall|j: int| 0 <= j < end ==> cs@[j] != '\n',
        decreases n - end,
    {
        end = end + 1;
    }
    proof {
        let s = output@;
        if exists|i: int| 0 <= i < s.len() && s[i] == '\n' {
            let c = choose|i: int|
                0 <= i < s.len() && s[i] == '\n' && forall|j: int| 0 <= j < i ==> s[j] != '\n';
            assert(0 <= end < s.len() && s[end as int] == '\n');
            if c < end {
            } else if c > end {
            }
            assert(c == end);
        }
    }
    let stop = if end > 0 && cs[end - 1] == '\r' {
        end - 1
    } else {
        end
    };
    let mut out = String::new();
    crate::text::push_all(&mut out, "https://www.youtube.com/watch?v=");
    proof {
        reveal_strlit("https://www.youtube.com/watch?v=");
        assert(out@ =~= watch_prefix());
    }
    let id = string_of(&cs, 0, stop);
    crate::text::push_all(&mut out, id.as_str());
    out
}

} // verus!
