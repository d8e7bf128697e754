use vstd::prelude::*;

use crate::links::{first_prefix_at, has_watch_link, locate_link};
use crate::text::{chars_of, parse_unsigned, parse_unsigned_spec, push_all, push_decimal, string_of, decimal};

verus! {

/// How many times a repeat plays its track.
#[derive(Debug, Clone, Copy, PartialEq, Eq, Structural)]
pub enum LoopBound {
    Times(usize),
    /// Until a skip stops it.
    Unbounded,
}

/// The bound a count token asks for: its value when it reads as an
/// unsigned machine-word integer, else no bound.
pub open spec fn loop_bound_spec(token: Seq<char>) -> LoopBound {
    match parse_unsigned_spec(token, usize::MAX as nat) {
        Some(n) => LoopBound::Times(n as usize),
        None => LoopBound::Unbounded,
    }
}

/// Reads the repeat count from `token`; one that does not parse (a
/// negative number, one too large, non-ASCII digits) means no bound.
pub fn parse_loop_count(token: &str) -> (r: LoopBound)
    ensures
        r == loop_bound_spec(token@),
{
    let cs = chars_of(token);
    match parse_unsigned(&cs, 0, cs.len(), usize::MAX as u64) {
        Some(n) => {
            proof {
                assert(cs@.subrange(0, cs@.len() as int) =~= token@);
            }
            LoopBound::Times(n as usize)
        },
        None => {
            proof {
                assert(cs@.subrange(0, cs@.len() as int) =~= token@);
            }
            LoopBound::Unbounded
        },
    }
}

/// The first match of `-?\d+` in `s`, where `\d` is any Unicode decimal
/// digit, as text.
pub uninterp spec fn first_signed_number(s: Seq<char>) -> Option<Seq<char>>;

/// Relies on regex's `Regex::new`, on a fixed pattern that compiles, and
/// `Regex::find`: the leftmost-first match of `-?\d+` in `s`, if any.
#[verifier::external_body]
fn find_signed_number(s: &str) -> (r: Option<String>)
    ensures
        r is None <==> first_signed_number(s@) is None,
        r is Some ==> r->0@ == first_signed_number(s@)->0,
{
    regex::Regex::new(r"-?\d+").unwrap().find(s).map(|m| m.as_str().to_string())
}

/// A repeat request read from a command.
#[derive(Debug)]
pub struct LoopRequest {
    pub url: String,
    pub bound: LoopBound,
}

/// Why a repeat command could not be read.
#[derive(Debug, Clone, Copy, PartialEq, Eq, Structural)]
pub enum LoopRequestError {
    /// The command holds no valid link.
    BadUrl,
    /// No number stands before the link.
    MissingCount,
}

impl LoopRequestError {
    /// The reply shown to the user.
    pub fn message(&self) -> (r: String)
        ensures
            r@ == match self {
                LoopRequestError::BadUrl => "Bad URL"@,
                LoopRequestError::MissingCount =>
                    "No loop count specified. Expected format '!loop <count> <url>'"@,
            },
    {
        match self {
            LoopRequestError::BadUrl => {
                String::from_str("Bad URL")
            },
            LoopRequestError::MissingCount => {
                String::from_str("No loop count specified. Expected format '!loop <count> <url>'")
            },
        }
    }
}

/// Reads a repeat command: the link is taken as `extract_youtube_url` takes
/// it, and the count is the first number in the text before the link.
pub fn parse_loop_request(command: &str) -> (r: Result<LoopRequest, LoopRequestError>)
    ensures
        forall|i: int|
            #![trigger first_prefix_at(command@, i)]
            first_prefix_at(command@, i) ==> {
                let rest = command@.subrange(0, i);
                let link = command@.subrange(i, command@.len() as int);
                &&& !has_watch_link(link) ==> r == Err::<LoopRequest, LoopRequestError>(
                    LoopRequestError::BadUrl,
                )
                &&& has_watch_link(link) && first_signed_number(rest) is None ==> r == Err::<
                    LoopRequest,
                    LoopRequestError,
                >(LoopRequestError::MissingCount)
                &&& has_watch_link(link) && first_signed_number(rest) is Some ==> r is Ok
                    && r->Ok_0.url@ == link && r->Ok_0.bound == loop_bound_spec(
                    first_signed_number(rest)->0,
                )
            },
        (forall|i: int| #![trigger first_prefix_at(command@, i)] !first_prefix_at(command@, i))
            ==> r == Err::<LoopRequest, LoopRequestError>(LoopRequestError::BadUrl),
{
    let cs = chars_of(command);
    match locate_link(&cs, command) {
        None => Err(LoopRequestError::BadUrl),
        Some(start) => {
            proof {
                assert forall|i: int| #![trigger first_prefix_at(command@, i)]
                    first_prefix_at(command@, i) implies i == start by {
                    if i < start {
                    } else if i > start {
                        assert(!crate::text::occurs_at(cs@, crate::links::watch_prefix(), start as int));
                    }
                }
                assert(first_prefix_at(command@, start as int));
            }
            let rest = string_of(&cs, 0, start);
            match find_signed_number(rest.as_str()) {
                None => Err(LoopRequestError::MissingCount),
                Some(token) => {
                    let url = string_of(&cs, start, cs.len());
                    Ok(LoopRequest { url, bound: parse_loop_count(token.as_str()) })
                },
            }
        },
    }
}

/// The announcement of a repeat: `looping N times for my king <who>`, or
/// `looping until skipped for my king <who>` without a bound.
pub open spec fn loop_announcement_spec(bound: LoopBound, who: Seq<char>) -> Seq<char> {
    seq!['l', 'o', 'o', 'p', 'i', 'n', 'g', ' '] + match bound {
        LoopBound::Times(n) => decimal(n as nat) + seq![' ', 't', 'i', 'm', 'e', 's'],
        LoopBound::Unbounded => seq!['u', 'n', 't', 'i', 'l', ' ', 's', 'k', 'i', 'p', 'p', 'e', 'd'],
    } + seq![' ', 'f', 'o', 'r', ' ', 'm', 'y', ' ', 'k', 'i', 'n', 'g', ' '] + who
}

pub fn loop_announcement(bound: LoopBound, who: &str) -> (r: String)
    ensures
        r@ == loop_announcement_spec(bound, who@),
{
    let mut out = String::from_str("looping ");
    proof {
        reveal_strlit("looping ");
    }
    match bound {
        LoopBound::Times(n) => {
            push_decimal(&mut out, n as u64);
            push_all(&mut out, " times");
            proof {
                reveal_strlit(" times");
            }
        },
        LoopBound::Unbounded => {
            push_all(&mut out, "until skipped");
            proof {
                reveal_strlit("until skipped");
            }
        },
    }
    push_all(&mut out, " for my king ");
    proof {
        reveal_strlit(" for my king ");
    }
    push_all(&mut out, who);
    proof {
        assert(out@ =~= loop_announcement_spec(bound, who@));
    }
    out
}

/// The progress of one repeat: the bound and the plays completed.
pub struct LoopRunView {
    pub bound: LoopBound,
    pub completed: nat,
}

/// One running repeat, advanced each time a play runs to its end.
pub struct LoopRun {
    bound: LoopBound,
    completed: usize,
}

impl View for LoopRun {
    type V = LoopRunView;

    closed spec fn view(&self) -> LoopRunView {
        LoopRunView { bound: self.bound, completed: self.completed as nat }
    }
}

impl LoopRun {
    pub fn new(bound: LoopBound) -> (r: Self)
        ensures
            r@ == (LoopRunView { bound, completed: 0 }),
    {
        LoopRun { bound, completed: 0 }
    }

    pub fn completed(&self) -> (r: usize)
        ensures
            r == self@.completed,
    {
        self.completed
    }

    /// A play ran to its end: counts it and tells whether to play again.
    /// A bounded repeat stops once it has played its count (at least once);
    /// an unbounded one goes on until skipped.
    pub fn play_finished(&mut self) -> (again: bool)
        ensures
            final(self)@.bound == old(self)@.bound,
            final(self)@.completed == if old(self)@.completed < usize::MAX {
                old(self)@.completed + 1
            } else {
                old(self)@.completed
            },
            again == match old(self)@.bound {
                LoopBound::Times(n) => final(self)@.completed < n,
                LoopBound::Unbounded => true,
            },
    {
        if self.completed < usize::MAX {
            self.completed = self.completed + 1;
        }
        match self.bound {
            LoopBound::Times(n) => self.completed < n,
            LoopBound::Unbounded => true,
        }
    }
}

} // verus!
