//! The clock in the status bar, which is drawn anew whenever a minute begins.

use vstd::prelude::*;

use crate::text::chars_of;

verus! {

/// A decimal digit.
pub open spec fn is_digit(c: char) -> bool {
    '0' <= c <= '9'
}

/// The text consists of digits.
pub open spec fn all_digits(s: Seq<char>) -> bool {
    forall|i: int| 0 <= i < s.len() ==> is_digit(#[trigger] s[i])
}

/// The number that digits stand for.
pub open spec fn value_of(s: Seq<char>) -> nat
    decreases s.len(),
{
    if s.len() == 0 {
        0
    } else {
        10 * value_of(s.drop_last()) + (s.last() as nat - '0' as nat) as nat
    }
}

/// The number that a text stands for: digits, which a plus sign may precede. A text that is no
/// number, or one beyond 64 bits, stands for none.
pub open spec fn number_in(s: Seq<char>) -> Option<nat> {
    let digits = if s.len() > 0 && s[0] == '+' {
        s.skip(1)
    } else {
        s
    };
    if digits.len() > 0 && all_digits(digits) && value_of(digits) <= u64::MAX {
        Some(value_of(digits))
    } else {
        None
    }
}

/// The value of digits grows with every digit.
proof fn value_of_prefix(s: Seq<char>, n: int)
    requires
        0 <= n <= s.len(),
    ensures
        value_of(s.take(n)) <= value_of(s),
    decreases s.len() - n,
{
    if n < s.len() {
        value_of_prefix(s, n + 1);
        assert(s.take(n + 1).drop_last() =~= s.take(n));
    } else {
        assert(s.take(n) =~= s);
    }
}

/// Reads the number that a text stands for.
pub fn read_number(s: &str) -> (r: Option<u64>)
    ensures
        match number_in(s@) {
            Some(n) => r == Some(n as u64),
            None => r is None,
        },
{
    let all = chars_of(s);
    let start: usize = if all.len() > 0 && all[0] == '+' {
        1
    } else {
        0
    };
    let digits = crate::search::slice_of(&all, start, all.len());
    proof {
        if start == 1 {
            assert(digits@ =~= s@.skip(1));
        } else {
            assert(digits@ =~= s@);
        }
    }
    if digits.is_empty() {
        return None;
    }
    let mut value: u64 = 0;
    let mut i: usize = 0;
    assert(digits@.take(0) =~= Seq::<char>::empty());
    while i < digits.len()
        invariant
            i <= digits.len(),
            value == value_of(digits@.take(i as int)),
            forall|k: int| 0 <= k < i ==> is_digit(#[trigger] digits@[k]),
            number_in(s@) == if digits@.len() > 0 && all_digits(digits@) && value_of(digits@)
                <= u64::MAX {
                Some(value_of(digits@))
            } else {
                None
            },
        decreases digits.len() - i,
    {
        let c = digits[i];
        if c < '0' || '9' < c {
            assert(!is_digit(digits@[i as int]));
            return None;
        }
        let d: u64 = (c as u32 - 48) as u64;
        proof {
            assert(digits@.take(i + 1).drop_last() =~= digits@.take(i as int));
            value_of_prefix(digits@, i + 1);
        }
        match value.checked_mul(10) {
            Some(tens) => match tens.checked_add(d) {
                Some(sum) => {
                    value = sum;
                },
                None => {
                    return None;
                },
            },
            None => {
                return None;
            },
        }
        i = i + 1;
    }
    assert(digits@.take(digits@.len() as int) =~= digits@);
    Some(value)
}

/// The seconds of a minute that have passed, as the clock shows them: none where it shows no number.
pub open spec fn seconds_shown(s: Seq<char>) -> nat {
    match number_in(s) {
        Some(n) => n,
        None => 0,
    }
}

/// The number of seconds after which the clock has to be drawn anew.
pub fn tick_delay(seconds: &str) -> (r: u64)
    requires
        seconds_shown(seconds@) <= 60,
    ensures
        r == 60 - seconds_shown(seconds@),
{
    match read_number(seconds) {
        Some(n) => 60 - n,
        None => 60,
    }
}

} // verus!
