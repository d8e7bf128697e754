use vstd::prelude::*;

use crate::text::{chars_of, parse_unsigned, parse_unsigned_spec, split_bounds, split_on, trim_bounds, trim_spec};

verus! {

/// Why the resolver's duration text could not be read.
#[derive(Debug, Clone, Copy, PartialEq, Eq, Structural)]
pub enum DurationError {
    /// Not one to three fields separated by `:`.
    WrongShape,
    /// A field is not an unsigned 64-bit number.
    BadNumber,
    /// The total does not fit in 64 bits of seconds.
    TooLong,
}

/// The seconds that `[... h, m, s]` stand for, each field sixty of the next.
pub open spec fn clock_value(vals: Seq<nat>) -> nat
    decreases vals.len(),
{
    if vals.len() == 0 {
        0
    } else {
        clock_value(vals.drop_last()) * 60 + vals.last()
    }
}

/// The fields of a duration text, as numbers.
pub open spec fn field_values(parts: Seq<Seq<char>>) -> Seq<nat> {
    parts.map_values(|p: Seq<char>| parse_unsigned_spec(p, u64::MAX as nat)->0)
}

/// The length that a duration text `SS`, `M:SS` or `H:MM:SS` (surrounding
/// white space allowed) stands for, in seconds.
pub open spec fn parse_duration_spec(s: Seq<char>) -> Result<nat, DurationError> {
    let parts = split_on(trim_spec(s), ':');
    if parts.len() > 3 {
        Err(DurationError::WrongShape)
    } else if exists|k: int|
        0 <= k < parts.len() && (#[trigger] parse_unsigned_spec(parts[k], u64::MAX as nat)) is None {
        Err(DurationError::BadNumber)
    } else if clock_value(field_values(parts)) > u64::MAX {
        Err(DurationError::TooLong)
    } else {
        Ok(clock_value(field_values(parts)))
    }
}

/// Reads the resolver's duration text into seconds.
pub fn parse_duration(text: &str) -> (r: Result<u64, DurationError>)
    ensures
        r == (match parse_duration_spec(text@) {
            Ok(v) => Ok(v as u64),
            Err(e) => Err::<u64, DurationError>(e),
        }),
{
    let cs = chars_of(text);
    let (lo, hi) = trim_bounds(&cs, 0, cs.len());
    proof {
        assert(cs@.subrange(0, cs@.len() as int) =~= text@);
    }
    let ghost t = cs@.subrange(lo as int, hi as int);
    let bounds = split_bounds(&cs, lo, hi, ':');
    let ghost parts = split_on(t, ':');
    if bounds.len() > 3 {
        return Err(DurationError::WrongShape);
    }
    let mut total: u128 = 0;
    let mut k: usize = 0;
    while k < bounds.len()
        invariant
            bounds@.len() == parts.len() <= 3,
            t == trim_spec(text@),
            parts == split_on(t, ':'),
            k <= bounds@.len(),
            forall|j: int|
                0 <= j < bounds@.len() ==> lo <= (#[trigger] bounds@[j]).0 <= bounds@[j].1 <= hi
                    && cs@.subrange(bounds@[j].0 as int, bounds@[j].1 as int) == parts[j],
            hi <= cs@.len(),
            forall|j: int|
                0 <= j < k ==> (#[trigger] parse_unsigned_spec(parts[j], u64::MAX as nat)) is Some,
            total == clock_value(field_values(parts.subrange(0, k as int))),
            total <= clock_value(Seq::new(k as nat, |i: int| u64::MAX as nat)),
        decreases bounds@.len() - k,
    {
        let (a, b) = bounds[k];
        match parse_unsigned(&cs, a, b, u64::MAX) {
            None => {
                return Err(DurationError::BadNumber);
            },
            Some(v) => {
                proof {
                    let pre = parts.subrange(0, k as int);
                    let post = parts.subrange(0, k + 1);
                    assert(field_values(post).drop_last() =~= field_values(pre));
                    assert(field_values(post).last() == v);
                    let m = Seq::new(k as nat, |i: int| u64::MAX as nat);
                    let m2 = Seq::new((k + 1) as nat, |i: int| u64::MAX as nat);
                    assert(m2.drop_last() =~= m);
                    assert(total * 60 + v <= clock_value(m) * 60 + u64::MAX) by (nonlinear_arith)
                        requires
                            total <= clock_value(m),
                            v <= u64::MAX,
                    ;
                    assert(clock_value(Seq::new(0, |i: int| u64::MAX as nat)) == 0);
                    assert(clock_value(Seq::new(1, |i: int| u64::MAX as nat)) == u64::MAX) by {
                        assert(Seq::new(1, |i: int| u64::MAX as nat).drop_last() =~= Seq::new(
                            0,
                            |i: int| u64::MAX as nat,
                        ));
                    }
                    assert(clock_value(Seq::new(2, |i: int| u64::MAX as nat)) == u64::MAX * 61) by {
                        assert(Seq::new(2, |i: int| u64::MAX as nat).drop_last() =~= Seq::new(
                            1,
                            |i: int| u64::MAX as nat,
                        ));
                        assert(Seq::new(1, |i: int| u64::MAX as nat).drop_last() =~= Seq::new(
                            0,
                            |i: int| u64::MAX as nat,
                        ));
                    }
                }
                total = total * 60 + v as u128;
            },
        }
        k = k + 1;
    }
    proof {
        assert(parts.subrange(0, k as int) =~= parts);
    }
    if total > u64::MAX as u128 {
        Err(DurationError::TooLong)
    } else {
        Ok(total as u64)
    }
}

} // verus!
