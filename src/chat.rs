use vstd::prelude::*;
use vstd::utf8::{encode_scalar, encode_utf8};

use crate::text::{chars_of, decimal, push_all, push_decimal, string_of, trim, trim_spec};

verus! {

/// The reply to a help request.
pub const HELP_MESSAGE: &'static str = "💅🏻 **Woman Commands** ☕\n```markdown\n1. !<URL>               -- Add a YouTube video to the queue\n2. !play <query>        -- Plays the first YT search result\n3. !loop <count> <url>  -- Loop a song \n4. !q                   -- Display the current audio queue\n5. !skip                -- Skip the currently playing song\n6. !leave               -- Leave the voice channel and clear the queue\n7. !                    -- Everything proceeding from \"!\" is a GPT prompt\n8. !help                -- Displays this page\n```";

/// The reply when a link is queued while a repeat runs.
pub const LOOPING_REPLY: &'static str = "You loopin rn";

/// The reply to a message that holds no valid link.
pub const BAD_URL_REPLY: &'static str = "Bad URL";

/// The reply when the requester is in no voice channel.
pub const NOT_IN_VOICE_REPLY: &'static str = "Join voice noob";

/// The most bytes of a reply sent as one message.
pub const MESSAGE_PART_LEN: usize = 1950;

/// The UTF-8 length of `c` in bytes.
pub open spec fn char_bytes(c: char) -> nat {
    encode_scalar(c as u32).len()
}

/// How many leading characters of `s` fit in `budget` bytes of UTF-8.
pub open spec fn fit_count(s: Seq<char>, budget: nat) -> nat
    decreases s.len(),
{
    if s.len() == 0 || char_bytes(s[0]) > budget {
        0
    } else {
        1 + fit_count(s.drop_first(), (budget - char_bytes(s[0])) as nat)
    }
}

/// `s` cut into consecutive parts, each the longest run of whole
/// characters whose UTF-8 encoding takes at most `n` bytes; no parts for an
/// empty `s`. Where every multiple of `n` below the byte length falls on a
/// character boundary, the cuts are exactly at those byte offsets.
pub open spec fn parts_spec(s: Seq<char>, n: nat) -> Seq<Seq<char>>
    decreases s.len(),
{
    let k = fit_count(s, n);
    if s.len() == 0 || k == 0 || k > s.len() {
        Seq::empty()
    } else {
        seq![s.subrange(0, k as int)] + parts_spec(s.subrange(k as int, s.len() as int), n)
    }
}

/// The UTF-8 length of `c` in bytes.
pub fn utf8_width(c: char) -> (r: usize)
    ensures
        r == char_bytes(c),
        1 <= r <= 4,
{
    let v = c as u32;
    if v <= 0x7f {
        1
    } else if v <= 0x7ff {
        2
    } else if v <= 0xffff {
        3
    } else {
        4
    }
}

/// The leading characters of `s` that fit in `budget` bytes do fit: their
/// UTF-8 encoding takes at most `budget` bytes.
pub proof fn lemma_part_fits(s: Seq<char>, budget: nat)
    ensures
        fit_count(s, budget) <= s.len(),
        encode_utf8(s.subrange(0, fit_count(s, budget) as int)).len() <= budget,
    decreases s.len(),
{
    let k = fit_count(s, budget);
    if s.len() == 0 || char_bytes(s[0]) > budget {
        assert(s.subrange(0, 0) =~= Seq::<char>::empty());
    } else {
        let rest_budget = (budget - char_bytes(s[0])) as nat;
        lemma_part_fits(s.drop_first(), rest_budget);
        let t = s.subrange(0, k as int);
        assert(t.drop_first() =~= s.drop_first().subrange(0, k - 1));
        assert(t[0] == s[0]);
    }
}

/// The number of characters of `cs[start..]` that make the next part.
fn next_part_end(cs: &Vec<char>, start: usize) -> (end: usize)
    requires
        start < cs@.len(),
    ensures
        start < end <= cs@.len(),
        end - start == fit_count(cs@.subrange(start as int, cs@.len() as int), MESSAGE_PART_LEN as nat),
{
    let n = cs.len();
    let mut i: usize = start;
    let mut room: usize = MESSAGE_PART_LEN;
    while i < n && utf8_width(cs[i]) <= room
        invariant
            start <= i <= n == cs@.len(),
            room <= MESSAGE_PART_LEN,
            fit_count(cs@.subrange(start as int, n as int), MESSAGE_PART_LEN as nat) == (i - start)
                + fit_count(cs@.subrange(i as int, n as int), room as nat),
        decreases n - i,
    {
        proof {
            let u = cs@.subrange(i as int, n as int);
            assert(u.drop_first() =~= cs@.subrange(i + 1, n as int));
            assert(u[0] == cs@[i as int]);
        }
        room = room - utf8_width(cs[i]);
        i = i + 1;
    }
    proof {
        let u = cs@.subrange(i as int, n as int);
        if i < n {
            assert(u[0] == cs@[i as int]);
        }
        assert(fit_count(u, room as nat) == 0);
        if i == start {
            assert(char_bytes(cs@[start as int]) <= 4);
        }
    }
    i
}

/// The parts in which a long reply is sent, in order.
pub fn split_message(message: &str) -> (r: Vec<String>)
    ensures
        r@.map_values(|p: String| p@) == parts_spec(message@, MESSAGE_PART_LEN as nat),
{
    let cs = chars_of(message);
    let n = cs.len();
    let mut out: Vec<String> = Vec::new();
    let mut start: usize = 0;
    proof {
        assert(cs@.subrange(0, n as int) =~= message@);
        assert(out@.map_values(|p: String| p@) =~= Seq::<Seq<char>>::empty());
        assert(Seq::<Seq<char>>::empty() + parts_spec(message@, MESSAGE_PART_LEN as nat)
            =~= parts_spec(message@, MESSAGE_PART_LEN as nat));
    }
    while start < n
        invariant
            n == cs@.len(),
            cs@ == message@,
            start <= n,
            parts_spec(message@, MESSAGE_PART_LEN as nat) == out@.map_values(|p: String| p@)
                + parts_spec(cs@.subrange(start as int, n as int), MESSAGE_PART_LEN as nat),
        decreases n - start,
    {
        let end = next_part_end(&cs, start);
        let part = string_of(&cs, start, end);
        let ghost rest = cs@.subrange(start as int, n as int);
        let ghost old_out = out@.map_values(|p: String| p@);
        out.push(part);
        proof {
            let k = fit_count(rest, MESSAGE_PART_LEN as nat);
            assert(out@.map_values(|p: String| p@) =~= old_out.push(part@));
            assert(rest.subrange(0, k as int) =~= part@);
            assert(rest.subrange(k as int, rest.len() as int) =~= cs@.subrange(end as int, n as int));
            assert(old_out + parts_spec(rest, MESSAGE_PART_LEN as nat) =~= old_out.push(part@)
                + parts_spec(cs@.subrange(end as int, n as int), MESSAGE_PART_LEN as nat));
        }
        start = end;
    }
    proof {
        assert(cs@.subrange(start as int, n as int) =~= Seq::<char>::empty());
        assert(out@.map_values(|p: String| p@) + Seq::<Seq<char>>::empty() =~= out@.map_values(
            |p: String| p@,
        ));
    }
    out
}

/// `s` without its line feeds.
pub open spec fn without_newlines(s: Seq<char>) -> Seq<char>
    decreases s.len(),
{
    if s.len() == 0 {
        s
    } else if s.last() == '\n' {
        without_newlines(s.drop_last())
    } else {
        without_newlines(s.drop_last()).push(s.last())
    }
}

/// Appends `s` without its line feeds.
fn push_without_newlines(out: &mut String, s: &str)
    ensures
        final(out)@ == old(out)@ + without_newlines(s@),
{
    let cs = chars_of(s);
    let ghost start = out@;
    let mut i: usize = 0;
    while i < cs.len()
        invariant
            cs@ == s@,
            i <= cs@.len(),
            out@ == start + without_newlines(cs@.subrange(0, i as int)),
        decreases cs@.len() - i,
    {
        proof {
            assert(cs@.subrange(0, i + 1).drop_last() =~= cs@.subrange(0, i as int));
        }
        if cs[i] != '\n' {
            out.push(cs[i]);
        }
        i = i + 1;
    }
    proof {
        assert(cs@.subrange(0, cs@.len() as int) =~= s@);
    }
}

/// The first now-playing message: `Playing: ` and the title, without line
/// feeds, in a code block.
pub open spec fn now_playing_spec(title: Seq<char>) -> Seq<char> {
    seq!['P', 'l', 'a', 'y', 'i', 'n', 'g', ':', ' ', '`', '`', '`'] + without_newlines(title)
        + seq!['`', '`', '`']
}

pub fn now_playing_message(title: &str) -> (r: String)
    ensures
        r@ == now_playing_spec(title@),
{
    let mut out = String::from_str("Playing: ```");
    proof {
        reveal_strlit("Playing: ```");
    }
    push_without_newlines(&mut out, title);
    push_all(&mut out, "```");
    proof {
        reveal_strlit("```");
        assert(out@ =~= now_playing_spec(title@));
    }
    out
}

/// The description of the progress display: the now-playing message
/// without its `Playing:` label.
pub open spec fn now_playing_description_spec(title: Seq<char>) -> Seq<char> {
    now_playing_spec(title).subrange(8, now_playing_spec(title).len() as int)
}

pub fn now_playing_description(title: &str) -> (r: String)
    ensures
        r@ == now_playing_description_spec(title@),
{
    let mut out = String::from_str(" ```");
    proof {
        reveal_strlit(" ```");
    }
    push_without_newlines(&mut out, title);
    push_all(&mut out, "```");
    proof {
        reveal_strlit("```");
        assert(out@ =~= now_playing_description_spec(title@));
    }
    out
}

/// One line of the queue listing: the position, counted from one, and the
/// trimmed title.
pub open spec fn listing_line(position: nat, title: Seq<char>) -> Seq<char> {
    decimal(position) + seq![':', ' '] + trim_spec(title) + seq!['\n']
}

/// The lines of the queue listing for `titles`.
pub open spec fn listing_lines(titles: Seq<Seq<char>>) -> Seq<char>
    decreases titles.len(),
{
    if titles.len() == 0 {
        Seq::empty()
    } else {
        listing_lines(titles.drop_last()) + listing_line(titles.len(), titles.last())
    }
}

/// The reply to a queue request: each title in order under a heading, or
/// a note that the queue is empty.
pub open spec fn queue_listing_spec(titles: Seq<Seq<char>>) -> Seq<char> {
    if titles.len() == 0 {
        "🪹 **Queue Empty** 🪹"@
    } else {
        "🎵 **Queue** 🎵\n```markdown\n"@ + listing_lines(titles) + "```"@
    }
}

pub fn queue_listing(titles: &Vec<String>) -> (r: String)
    ensures
        r@ == queue_listing_spec(titles@.map_values(|t: String| t@)),
{
    let ghost ts = titles@.map_values(|t: String| t@);
    if titles.len() == 0 {
        return String::from_str("🪹 **Queue Empty** 🪹");
    }
    let mut out = String::from_str("🎵 **Queue** 🎵\n```markdown\n");
    let ghost head = out@;
    let mut i: usize = 0;
    while i < titles.len()
        invariant
            i <= titles@.len(),
            ts == titles@.map_values(|t: String| t@),
            out@ == head + listing_lines(ts.subrange(0, i as int)),
        decreases titles@.len() - i,
    {
        let ghost before = out@;
        push_decimal(&mut out, (i + 1) as u64);
        push_all(&mut out, ": ");
        let t = trim(titles[i].as_str());
        push_all(&mut out, t.as_str());
        out.push('\n');
        proof {
            reveal_strlit(": ");
            let pre = ts.subrange(0, i as int);
            let post = ts.subrange(0, i + 1);
            assert(post.drop_last() =~= pre);
            assert(post.last() == titles@[i as int]@);
            assert(out@ =~= before + listing_line((i + 1) as nat, titles@[i as int]@));
        }
        i = i + 1;
    }
    push_all(&mut out, "```");
    proof {
        assert(ts.subrange(0, i as int) =~= ts);
    }
    out
}

} // verus!
