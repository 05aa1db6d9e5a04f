//! How many directory levels the collector descends.
use vstd::prelude::*;
use crate::errors::MergeBuildError;
use crate::text::chars_of;

verus! {

/// The bound on directory recursion.
#[derive(Clone, Copy, Debug, PartialEq, Eq, Structural)]
pub enum Depth {
    /// No depth was given: a directory among the inputs is an error.
    NotSpecified,
    /// Descend at most this many levels; never zero when parsed from a token.
    Max(usize),
    /// Descend without bound.
    Infinite,
}

/// Whether `c` is one of `0` to `9`.
pub open spec fn is_digit(c: char) -> bool {
    '0' <= c && c <= '9'
}

/// Whether `s` is a non-empty run of decimal digits.
pub open spec fn is_digits(s: Seq<char>) -> bool {
    s.len() > 0 && forall|i: int| 0 <= i < s.len() ==> is_digit(#[trigger] s[i])
}

/// The number that the decimal digits `s` write, most significant first.
pub open spec fn decimal_value(s: Seq<char>) -> nat
    decreases s.len(),
{
    if s.len() == 0 {
        0
    } else {
        (10 * decimal_value(s.drop_last()) + (s.last() as u32 - '0' as u32)) as nat
    }
}

/// The digits of a depth token: the token without one leading `+`.
pub open spec fn unsigned_part(s: Seq<char>) -> Seq<char> {
    if s.len() > 0 && s[0] == '+' {
        s.subrange(1, s.len() as int)
    } else {
        s
    }
}

/// The depth that a token stands for, if any: `*` is `Infinite`, a decimal
/// number from 1 up to `usize::MAX` (with an optional leading `+`) is `Max`.
pub open spec fn depth_of(s: Seq<char>) -> Option<Depth> {
    if s =~= seq!['*'] {
        Some(Depth::Infinite)
    } else if is_digits(unsigned_part(s)) && 0 < decimal_value(unsigned_part(s)) <= usize::MAX {
        Some(Depth::Max(decimal_value(unsigned_part(s)) as usize))
    } else {
        None
    }
}

/// A number written with more digits is no smaller.
proof fn lemma_value_grows(s: Seq<char>, i: int)
    requires
        0 <= i <= s.len(),
        forall|j: int| 0 <= j < s.len() ==> is_digit(#[trigger] s[j]),
    ensures
        decimal_value(s.take(i)) <= decimal_value(s),
    decreases s.len() - i,
{
    if i < s.len() {
        lemma_value_grows(s, i + 1);
        assert(s.take(i + 1).drop_last() == s.take(i));
        assert(is_digit(s[i]));
    } else {
        assert(s.take(i) == s);
    }
}

/// Reads the decimal number that the characters from `from` on write.
fn parse_digits(cs: &Vec<char>, from: usize) -> (r: Option<usize>)
    requires
        from <= cs@.len(),
    ensures
        match r {
            Some(v) => is_digits(cs@.subrange(from as int, cs@.len() as int)) && decimal_value(
                cs@.subrange(from as int, cs@.len() as int),
            ) == v,
            None => !(is_digits(cs@.subrange(from as int, cs@.len() as int)) && decimal_value(
                cs@.subrange(from as int, cs@.len() as int),
            ) <= usize::MAX),
        },
{
    let ghost digits = cs@.subrange(from as int, cs@.len() as int);
    if from == cs.len() {
        return None;
    }
    let mut acc: usize = 0;
    let mut i: usize = from;
    assert(digits.take(0) == Seq::<char>::empty());
    while i < cs.len()
        invariant
            from <= i <= cs@.len(),
            digits == cs@.subrange(from as int, cs@.len() as int),
            forall|j: int| 0 <= j < i - from ==> is_digit(#[trigger] digits[j]),
            acc == decimal_value(digits.take(i - from)),
        decreases cs@.len() - i,
    {
        let c = cs[i];
        assert(digits[i - from] == c);
        if c < '0' || c > '9' {
            return None;
        }
        let d: usize = (c as u32 - '0' as u32) as usize;
        proof {
            assert(digits.take(i - from + 1).drop_last() == digits.take(i - from));
            assert(digits.take(i - from + 1).last() == c);
        }
        if acc > (usize::MAX - d) / 10 {
            proof {
                if is_digits(digits) {
                    lemma_value_grows(digits, i - from + 1);
                }
            }
            return None;
        }
        acc = acc * 10 + d;
        i += 1;
    }
    assert(digits.take(i - from) == digits);
    Some(acc)
}

impl Depth {
    /// Reads a depth token: `*` for no bound, or a positive decimal number.
    /// Zero, an empty token and anything else are refused with the token.
    pub fn try_from(value: String) -> (r: Result<Depth, MergeBuildError>)
        ensures
            match depth_of(value@) {
                Some(depth) => r == Ok::<Depth, MergeBuildError>(depth),
                None => r == Err::<Depth, MergeBuildError>(MergeBuildError::UnparseableDepth(value)),
            },
    {
        let cs = chars_of(value.as_str());
        if cs.len() == 1 && cs[0] == '*' {
            assert(value@ =~= seq!['*']);
            return Ok(Depth::Infinite);
        }
        let from: usize = if cs.len() > 0 && cs[0] == '+' {
            1
        } else {
            0
        };
        assert(cs@.subrange(from as int, cs@.len() as int) == unsigned_part(value@));
        match parse_digits(&cs, from) {
            Some(n) => {
                if n == 0 {
                    Err(MergeBuildError::UnparseableDepth(value))
                } else {
                    Ok(Depth::Max(n))
                }
            },
            None => Err(MergeBuildError::UnparseableDepth(value)),
        }
    }
}

impl Default for Depth {
    /// No depth.
    fn default() -> (r: Self)
        ensures
            r == Depth::NotSpecified,
    {
        Depth::NotSpecified
    }
}

} // verus!
