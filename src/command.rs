use vstd::prelude::*;

use crate::text::{chars_of, matches_at, starts_with, string_of, trim_bounds, trim_spec};

verus! {

/// What a chat message asks for.
#[derive(Debug, Clone, Copy, PartialEq, Eq, Structural)]
pub enum CommandKind {
    /// Queue the link that follows `!`.
    Enqueue,
    /// Show the queue.
    ShowQueue,
    /// Skip whatever plays.
    Skip,
    /// Leave the voice channel and clear the queue.
    Leave,
    /// Show the help text.
    Help,
    /// Repeat a link a number of times.
    Loop,
    /// Search and queue the first hit.
    Play,
    /// Generate an image.
    Image,
    /// Send the rest to a text-generation backend.
    Prompt,
    /// Not a command.
    Ignore,
}

/// The kind of a trimmed message, by the first prefix that it starts with.
pub open spec fn classify_spec(m: Seq<char>) -> CommandKind {
    if starts_with(m, "! https://"@) || starts_with(m, "!https://"@) {
        CommandKind::Enqueue
    } else if starts_with(m, "! q"@) || starts_with(m, "!q"@) {
        CommandKind::ShowQueue
    } else if starts_with(m, "! skip"@) || starts_with(m, "!skip"@) {
        CommandKind::Skip
    } else if starts_with(m, "! leave"@) || starts_with(m, "!leave"@) {
        CommandKind::Leave
    } else if starts_with(m, "! help"@) || starts_with(m, "!help"@) {
        CommandKind::Help
    } else if starts_with(m, "! loop "@) || starts_with(m, "!loop "@) {
        CommandKind::Loop
    } else if starts_with(m, "! play "@) || starts_with(m, "!play "@) {
        CommandKind::Play
    } else if starts_with(m, "! image"@) || starts_with(m, "!image"@) {
        CommandKind::Image
    } else if starts_with(m, "!"@) {
        CommandKind::Prompt
    } else {
        CommandKind::Ignore
    }
}

/// `s` without its first `k` characters (empty when it is shorter).
pub open spec fn skip_chars(s: Seq<char>, k: nat) -> Seq<char> {
    if s.len() <= k {
        Seq::empty()
    } else {
        s.subrange(k as int, s.len() as int)
    }
}

/// The text a command carries: for a link, the trimmed message after `!`;
/// for a repeat, the whole trimmed message; for a search or an image, the
/// trimmed message after its first five characters; for a prompt, the
/// untrimmed message after its first two.
pub open spec fn payload_spec(kind: CommandKind, content: Seq<char>) -> Seq<char> {
    let m = trim_spec(content);
    match kind {
        CommandKind::Enqueue => skip_chars(m, 1),
        CommandKind::Loop => m,
        CommandKind::Play => skip_chars(m, 5),
        CommandKind::Image => skip_chars(m, 5),
        CommandKind::Prompt => skip_chars(content, 2),
        _ => Seq::empty(),
    }
}

/// A classified message.
#[derive(Debug)]
pub struct Command {
    pub kind: CommandKind,
    pub text: String,
}

fn has_prefix(cs: &Vec<char>, lo: usize, hi: usize, p: &str) -> (r: bool)
    requires
        lo <= hi <= cs@.len(),
    ensures
        r == starts_with(cs@.subrange(lo as int, hi as int), p@),
{
    let pc = chars_of(p);
    let m = string_of(cs, lo, hi);
    let mc = chars_of(m.as_str());
    matches_at(&mc, &pc, 0)
}

fn classify(cs: &Vec<char>, lo: usize, hi: usize) -> (r: CommandKind)
    requires
        lo <= hi <= cs@.len(),
    ensures
        r == classify_spec(cs@.subrange(lo as int, hi as int)),
{
    if has_prefix(cs, lo, hi, "! https://") || has_prefix(cs, lo, hi, "!https://") {
        CommandKind::Enqueue
    } else if has_prefix(cs, lo, hi, "! q") || has_prefix(cs, lo, hi, "!q") {
        CommandKind::ShowQueue
    } else if has_prefix(cs, lo, hi, "! skip") || has_prefix(cs, lo, hi, "!skip") {
        CommandKind::Skip
    } else if has_prefix(cs, lo, hi, "! leave") || has_prefix(cs, lo, hi, "!leave") {
        CommandKind::Leave
    } else if has_prefix(cs, lo, hi, "! help") || has_prefix(cs, lo, hi, "!help") {
        CommandKind::Help
    } else if has_prefix(cs, lo, hi, "! loop ") || has_prefix(cs, lo, hi, "!loop ") {
        CommandKind::Loop
    } else if has_prefix(cs, lo, hi, "! play ") || has_prefix(cs, lo, hi, "!play ") {
        CommandKind::Play
    } else if has_prefix(cs, lo, hi, "! image") || has_prefix(cs, lo, hi, "!image") {
        CommandKind::Image
    } else if has_prefix(cs, lo, hi, "!") {
        CommandKind::Prompt
    } else {
        CommandKind::Ignore
    }
}

/// The characters of `cs[lo..hi]` after its first `k`.
fn skip_part(cs: &Vec<char>, lo: usize, hi: usize, k: usize) -> (r: String)
    requires
        lo <= hi <= cs@.len(),
    ensures
        r@ == skip_chars(cs@.subrange(lo as int, hi as int), k as nat),
{
    if hi - lo <= k {
        String::new()
    } else {
        let r = string_of(cs, lo + k, hi);
        proof {
            assert(r@ =~= skip_chars(cs@.subrange(lo as int, hi as int), k as nat));
        }
        r
    }
}

/// Classifies a chat message by its trimmed text and takes out what the
/// command carries.
pub fn parse_command(content: &str) -> (r: Command)
    ensures
        r.kind == classify_spec(trim_spec(content@)),
        r.text@ == payload_spec(r.kind, content@),
{
    let cs = chars_of(content);
    let n = cs.len();
    let (lo, hi) = trim_bounds(&cs, 0, n);
    proof {
        assert(cs@.subrange(0, n as int) =~= content@);
    }
    let kind = classify(&cs, lo, hi);
    let text = match kind {
        CommandKind::Enqueue => skip_part(&cs, lo, hi, 1),
        CommandKind::Loop => string_of(&cs, lo, hi),
        CommandKind::Play => skip_part(&cs, lo, hi, 5),
        CommandKind::Image => skip_part(&cs, lo, hi, 5),
        CommandKind::Prompt => skip_part(&cs, 0, n, 2),
        _ => String::new(),
    };
    Command { kind, text }
}

/// Which of two optional backends a configuration selects.
#[derive(Debug, Clone, Copy, PartialEq, Eq, Structural)]
pub enum BackendChoice {
    First,
    Second,
    /// Both switches are present, but not exactly one is on.
    Ambiguous,
    /// A switch is missing.
    Unconfigured,
}

/// Chooses between two backends from their switches (`None` when a switch
/// is missing): the one switched on, when exactly one is.
pub fn choose_backend(first: Option<bool>, second: Option<bool>) -> (r: BackendChoice)
    ensures
        r == (match (first, second) {
            (Some(a), Some(b)) => if a && !b {
                BackendChoice::First
            } else if !a && b {
                BackendChoice::Second
            } else {
                BackendChoice::Ambiguous
            },
            _ => BackendChoice::Unconfigured,
        }),
{
    match (first, second) {
        (Some(a), Some(b)) => {
            if a && !b {
                BackendChoice::First
            } else if !a && b {
                BackendChoice::Second
            } else {
                BackendChoice::Ambiguous
            }
        },
        _ => BackendChoice::Unconfigured,
    }
}

} // verus!
