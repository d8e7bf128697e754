use vstd::prelude::*;

use crate::text::{decimal, push_decimal, push_two_digits, two_digits};

verus! {

/// The number of glyphs in a progress bar.
pub const PROGRESS_SEGMENTS: u64 = 49;

pub open spec fn tick_interval_spec(total: nat) -> nat {
    if total / (PROGRESS_SEGMENTS as nat) >= 1 {
        total / (PROGRESS_SEGMENTS as nat)
    } else {
        1
    }
}

/// How many seconds pass between two progress updates: one segment's worth
/// of the track, and never less than one second.
pub fn tick_interval(total_secs: u64) -> (r: u64)
    ensures
        r == tick_interval_spec(total_secs as nat),
        r >= 1,
{
    let per = total_secs / PROGRESS_SEGMENTS;
    if per >= 1 {
        per
    } else {
        1
    }
}

/// The filled segments for `elapsed` of `total` seconds: the fraction
/// rounded down, capped at a full bar; a zero-length track shows full.
pub open spec fn filled_segments_spec(elapsed: nat, total: nat) -> nat {
    if total == 0 {
        PROGRESS_SEGMENTS as nat
    } else if elapsed * (PROGRESS_SEGMENTS as nat) / total >= PROGRESS_SEGMENTS as nat {
        PROGRESS_SEGMENTS as nat
    } else {
        elapsed * (PROGRESS_SEGMENTS as nat) / total
    }
}

pub open spec fn empty_segments_spec(elapsed: nat, total: nat) -> nat {
    (PROGRESS_SEGMENTS as nat - filled_segments_spec(elapsed, total)) as nat
}

/// The bar: `filled` solid glyphs, then light ones up to the full width.
pub open spec fn progress_bar_spec(filled: nat) -> Seq<char> {
    Seq::new(filled, |i: int| '█') + Seq::new(
        (PROGRESS_SEGMENTS as nat - filled) as nat,
        |i: int| '░',
    )
}

/// `secs` as minutes and two-digit seconds, `M:SS`.
pub open spec fn clock_spec(secs: nat) -> Seq<char> {
    decimal(secs / 60).push(':') + two_digits(secs % 60)
}

/// The progress field: `M:SS / M:SS`, a line break, and the bar.
pub open spec fn progress_field_spec(elapsed: nat, total: nat) -> Seq<char> {
    clock_spec(elapsed) + seq![' ', '/', ' '] + clock_spec(total) + seq!['\n']
        + progress_bar_spec(filled_segments_spec(elapsed, total))
}

/// Filled and empty glyphs always add up to the bar's width; within the
/// track the filled count is the elapsed fraction of the width, rounded
/// down.
pub proof fn lemma_bar_width(elapsed: nat, total: nat)
    ensures
        filled_segments_spec(elapsed, total) + empty_segments_spec(elapsed, total)
            == PROGRESS_SEGMENTS as nat,
        progress_bar_spec(filled_segments_spec(elapsed, total)).len() == PROGRESS_SEGMENTS as nat,
        0 < total && elapsed <= total ==> filled_segments_spec(elapsed, total) == elapsed
            * (PROGRESS_SEGMENTS as nat) / total,
{
    if 0 < total && elapsed <= total {
        let s = PROGRESS_SEGMENTS as nat;
        assert(elapsed * s <= total * s) by (nonlinear_arith)
            requires
                elapsed <= total,
        ;
        assert(elapsed * s / total <= s) by (nonlinear_arith)
            requires
                elapsed * s <= total * s,
                0 < total,
        ;
    }
}

/// The filled segment count for `elapsed` of `total` seconds.
pub fn filled_segments(elapsed: u64, total: u64) -> (r: u64)
    ensures
        r == filled_segments_spec(elapsed as nat, total as nat),
        r <= PROGRESS_SEGMENTS,
{
    if total == 0 {
        return PROGRESS_SEGMENTS;
    }
    proof {
        assert(elapsed as u128 * 49 <= u64::MAX as u128 * 49) by (nonlinear_arith);
    }
    let scaled: u128 = elapsed as u128 * PROGRESS_SEGMENTS as u128;
    let q: u128 = scaled / total as u128;
    if q >= PROGRESS_SEGMENTS as u128 {
        PROGRESS_SEGMENTS
    } else {
        q as u64
    }
}

/// Appends `count` copies of `c`.
fn push_repeated(out: &mut String, c: char, count: u64)
    ensures
        final(out)@ == old(out)@ + Seq::new(count as nat, |i: int| c),
{
    let mut k: u64 = 0;
    let ghost start = out@;
    while k < count
        invariant
            k <= count,
            out@ == start + Seq::new(k as nat, |i: int| c),
        decreases count - k,
    {
        out.push(c);
        k = k + 1;
        proof {
            assert(Seq::new((k - 1) as nat, |i: int| c).push(c) =~= Seq::new(k as nat, |i: int| c));
        }
    }
}

/// The progress bar for `elapsed` of `total` seconds.
pub fn progress_bar(elapsed: u64, total: u64) -> (r: String)
    ensures
        r@ == progress_bar_spec(filled_segments_spec(elapsed as nat, total as nat)),
        r@.len() == PROGRESS_SEGMENTS,
{
    let filled = filled_segments(elapsed, total);
    let mut out = String::new();
    push_repeated(&mut out, '█', filled);
    push_repeated(&mut out, '░', PROGRESS_SEGMENTS - filled);
    proof {
        assert(out@ =~= progress_bar_spec(filled as nat));
    }
    out
}

/// Appends `secs` as `M:SS`.
fn push_clock(out: &mut String, secs: u64)
    ensures
        final(out)@ == old(out)@ + clock_spec(secs as nat),
{
    push_decimal(out, secs / 60);
    out.push(':');
    push_two_digits(out, secs % 60);
    proof {
        assert(old(out)@ + clock_spec(secs as nat) =~= old(out)@ + decimal((secs / 60) as nat) + seq![':']
            + two_digits((secs % 60) as nat));
    }
}

/// The progress field shown for `elapsed` of `total` seconds.
pub fn progress_field(elapsed: u64, total: u64) -> (r: String)
    ensures
        r@ == progress_field_spec(elapsed as nat, total as nat),
{
    let mut out = String::new();
    push_clock(&mut out, elapsed);
    out.push(' ');
    out.push('/');
    out.push(' ');
    push_clock(&mut out, total);
    out.push('\n');
    let bar = progress_bar(elapsed, total);
    let ghost before = out@;
    crate::text::push_all(&mut out, bar.as_str());
    proof {
        assert(out@ =~= progress_field_spec(elapsed as nat, total as nat));
    }
    out
}

/// The state of one tracker: seconds shown so far, the track's length, and
/// the step between updates.
pub struct TrackerView {
    pub elapsed: nat,
    pub total: nat,
    pub tick: nat,
}

/// The now-playing indicator of one track, advanced one tick at a time.
pub struct Tracker {
    elapsed: u64,
    total: u64,
    tick: u64,
}

impl View for Tracker {
    type V = TrackerView;

    closed spec fn view(&self) -> TrackerView {
        TrackerView { elapsed: self.elapsed as nat, total: self.total as nat, tick: self.tick as nat }
    }
}

impl Tracker {
    /// A tracker for a track of `total_secs` seconds, at its start.
    pub fn new(total_secs: u64) -> (r: Self)
        ensures
            r@ == (TrackerView {
                elapsed: 0,
                total: total_secs as nat,
                tick: tick_interval_spec(total_secs as nat),
            }),
    {
        Tracker { elapsed: 0, total: total_secs, tick: tick_interval(total_secs) }
    }

    /// The seconds between two updates.
    pub fn tick_secs(&self) -> (r: u64)
        ensures
            r == self@.tick,
    {
        self.tick
    }

    /// The seconds shown so far.
    pub fn elapsed_secs(&self) -> (r: u64)
        ensures
            r == self@.elapsed,
    {
        self.elapsed
    }

    /// Whether the whole track has been shown: the tracker stops then.
    pub fn finished(&self) -> (r: bool)
        ensures
            r == (self@.elapsed >= self@.total),
    {
        self.elapsed >= self.total
    }

    /// One tick: advances the shown time by the step and returns the field
    /// to display.
    pub fn advance(&mut self) -> (r: String)
        requires
            old(self)@.elapsed < old(self)@.total,
        ensures
            final(self)@ == (TrackerView {
                elapsed: if old(self)@.elapsed + old(self)@.tick <= u64::MAX {
                    old(self)@.elapsed + old(self)@.tick
                } else {
                    u64::MAX as nat
                },
                ..old(self)@
            }),
            r@ == progress_field_spec(final(self)@.elapsed, final(self)@.total),
    {
        self.elapsed = self.elapsed.saturating_add(self.tick);
        progress_field(self.elapsed, self.total)
    }
}

} // verus!
