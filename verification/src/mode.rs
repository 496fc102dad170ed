//! Requested permission-bit transformation: an additive/subtractive bitmask
//! pair parsed from an octal numeral string and applied to a mode value.

use vstd::prelude::*;

verus! {

/// A requested transformation of a file's permission bits, kept as a pair of
/// bitmasks: `apply` clears the subtractive bits and then sets the additive
/// ones.
#[derive(Clone, Copy, Debug, PartialEq, Eq, Structural)]
pub struct ModeChange {
    pub additive: u32,
    pub subtractive: u32,
}

/// Whether `c` is an octal digit.
pub open spec fn is_octal_digit(c: char) -> bool {
    c == '0' || c == '1' || c == '2' || c == '3' || c == '4' || c == '5' || c == '6' || c == '7'
}

/// The numeric value of the octal digit `c` (zero on other characters).
pub open spec fn octal_digit_value(c: char) -> nat {
    if c == '1' {
        1
    } else if c == '2' {
        2
    } else if c == '3' {
        3
    } else if c == '4' {
        4
    } else if c == '5' {
        5
    } else if c == '6' {
        6
    } else if c == '7' {
        7
    } else {
        0
    }
}

/// Whether `s` is a non-empty string of octal digits.
pub open spec fn is_octal_string(s: Seq<char>) -> bool {
    s.len() > 0 && forall|i: int| 0 <= i < s.len() ==> is_octal_digit(s[i])
}

/// The numeric value of `s` read as an octal numeral.
pub open spec fn octal_string_value(s: Seq<char>) -> nat
    decreases s.len(),
{
    if s.len() == 0 {
        0
    } else {
        octal_string_value(s.drop_last()) * 8 + octal_digit_value(s.last())
    }
}

impl ModeChange {
    /// The mode that `apply` returns for a current mode `mode`: the
    /// subtractive bits are cleared, then the additive bits are set.
    pub open spec fn spec_apply(self, mode: u32) -> u32 {
        (mode & !self.subtractive) | self.additive
    }

    /// What `new` returns for the string view `s`: a transformation that
    /// replaces all permission bits with the parsed octal value, or nothing
    /// when `s` is not an octal numeral (or does not fit in a mode value).
    pub open spec fn spec_new(s: Seq<char>) -> Option<ModeChange> {
        if is_octal_string(s) && octal_string_value(s) <= u32::MAX {
            Some(
                ModeChange {
                    additive: octal_string_value(s) as u32,
                    subtractive: 0o7777,
                },
            )
        } else {
            None
        }
    }

    /// Parse an octal numeral string into a transformation whose additive
    /// mask is the parsed value and whose subtractive mask covers all
    /// permission bits. Any non-octal input is rejected.
    pub fn new(mode_str: &str) -> (r: Option<ModeChange>)
        ensures
            r == ModeChange::spec_new(mode_str@),
    {
        let len: usize = mode_str.unicode_len();
        if len == 0 {
            return None;
        }
        let mut value: u32 = 0;
        let mut i: usize = 0;
        while i < len
            invariant
                0 < len == mode_str@.len(),
                0 <= i <= len,
                forall|j: int| 0 <= j < i ==> is_octal_digit(mode_str@[j]),
                value == octal_string_value(mode_str@.take(i as int)),
            decreases len - i,
        {
            let c = mode_str.get_char(i);
            let d: u32 = match c {
                '0' => 0,
                '1' => 1,
                '2' => 2,
                '3' => 3,
                '4' => 4,
                '5' => 5,
                '6' => 6,
                '7' => 7,
                _ => {
                    proof {
                        assert(!is_octal_digit(mode_str@[i as int]));
                    }
                    return None;
                },
            };
            proof {
                assert(mode_str@.take(i + 1).drop_last() =~= mode_str@.take(i as int));
                assert(mode_str@.take(i + 1).last() == mode_str@[i as int]);
            }
            if value > (u32::MAX - d) / 8 {
                proof {
                    lemma_octal_string_value_prefix_bound(mode_str@, i + 1);
                }
                return None;
            }
            value = value * 8 + d;
            i = i + 1;
        }
        proof {
            assert(mode_str@.take(len as int) =~= mode_str@);
        }
        Some(
            ModeChange {
                additive: value,
                subtractive: 0o7777,
            },
        )
    }

    /// Apply the transformation to a current mode value: clear the
    /// subtractive-mask bits, then set the additive-mask bits.
    pub fn apply(&self, mode: u32) -> (r: u32)
        ensures
            r == self.spec_apply(mode),
    {
        mode & !self.subtractive | self.additive
    }
}

/// The value of an octal numeral never falls as the numeral is extended:
/// every prefix reads as a value no larger than the whole string's.
proof fn lemma_octal_string_value_prefix_bound(s: Seq<char>, i: int)
    requires
        0 <= i <= s.len(),
    ensures
        octal_string_value(s.take(i)) <= octal_string_value(s),
    decreases s.len() - i,
{
    if i < s.len() {
        lemma_octal_string_value_prefix_bound(s, i + 1);
        assert(s.take(i + 1).drop_last() =~= s.take(i));
        assert(octal_string_value(s.take(i + 1)) == octal_string_value(s.take(i)) * 8
            + octal_digit_value(s.take(i + 1).last()));
    } else {
        assert(s.take(i) =~= s);
    }
}

/// Applying a transformation twice gives the same mode as applying it once:
/// `apply` is idempotent for every transformation and every starting mode.
pub proof fn lemma_apply_idempotent(t: ModeChange, m: u32)
    ensures
        t.spec_apply(t.spec_apply(m)) == t.spec_apply(m),
{
    let a = t.additive;
    let s = t.subtractive;
    assert(((m & !s | a) & !s | a) == (m & !s | a)) by (bit_vector);
}

} // verus!
