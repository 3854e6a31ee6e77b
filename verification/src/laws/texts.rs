//! Laws on numbers and texts, on leases, and on the clock.

use vstd::prelude::*;

use crate::clock::{read_number, tick_delay, value_of};
use crate::json::{Json, JsonView, Member};
use crate::lease::LspBufferLease;
use crate::text::{
    ascii_lower, ascii_lowercase, decimal, decimal_text, lowercase, signed_decimal_text,
};

verus! {

/// A number is written digit by digit: one below ten as its digit, and another as its tens and then
/// its last digit.
pub proof fn numbers_are_written_digit_by_digit(
    n: u64,
    written: String,
    tens: String,
)
    requires
        call_ensures(decimal_text, (n,), written),
        call_ensures(decimal_text, ((n / 10) as u64,), tens),
    ensures
        n >= 10 ==> written@.drop_last() == tens@,
        n < 10 ==> written@.len() == 1,
        written@.len() > 0,
        written@.last() as int == '0' as int + n % 10,
{
    if n >= 10 {
        assert(decimal(n as nat).drop_last() =~= decimal((n / 10) as nat));
    }
}

/// A number is written with its sign where it is below zero.
pub proof fn signed_numbers_are_written(n: i32, written: String, size: String)
    requires
        call_ensures(signed_decimal_text, (n,), written),
        call_ensures(decimal_text, ((if n < 0 { -(n as int) } else { n as int }) as u64,), size),
    ensures
        n >= 0 ==> written@ == size@,
        n < 0 ==> written@ == seq!['-'] + size@,
{
    reveal_strlit("-");
    assert("-"@ =~= seq!['-']);
}

proof fn decimals_are_digits(n: nat)
    ensures
        decimal(n).len() > 0,
        crate::clock::all_digits(decimal(n)),
        value_of(decimal(n)) == n,
    decreases n,
{
    if n >= 10 {
        decimals_are_digits(n / 10);
        let tens = decimal(n / 10);
        let last = crate::text::digit((n % 10) as int);
        assert(decimal(n) == tens.push(last));
        assert(tens.push(last).drop_last() =~= tens);
        assert forall|i: int| 0 <= i < decimal(n).len() implies crate::clock::is_digit(
            #[trigger] decimal(n)[i],
        ) by {
            if i < tens.len() {
                assert(decimal(n)[i] == tens[i]);
            }
        }
    } else {
        assert(decimal(n).drop_last() =~= Seq::<char>::empty());
        reveal_with_fuel(value_of, 2);
    }
}

/// A number that was written is read back, and so it is behind a plus sign.
pub proof fn written_numbers_are_read_back(n: u64, written: String, text: &str, r: Option<u64>)
    requires
        call_ensures(decimal_text, (n,), written),
        text@ == written@ || text@ == seq!['+'] + written@,
        call_ensures(read_number, (text,), r),
    ensures
        r == Some(n),
{
    decimals_are_digits(n as nat);
    assert(crate::clock::is_digit(written@[0]));
    if text@ == seq!['+'] + written@ {
        assert(text@.skip(1) =~= written@);
    }
}

/// Only digits are read as a number, of which there has to be one; a plus sign may stand before them.
pub proof fn only_numbers_are_read(text: &str, r: Option<u64>)
    requires
        call_ensures(read_number, (text,), r),
        text@.len() == 0 || text@ == seq!['+'] || exists|i: int|
            0 <= i < text@.len() && !('0' <= #[trigger] text@[i] <= '9') && (i > 0 || text@[i] != '+'),
    ensures
        r is None,
{
    if text@.len() > 0 && text@ != seq!['+'] {
        let i = choose|i: int|
            0 <= i < text@.len() && !('0' <= #[trigger] text@[i] <= '9') && (i > 0 || text@[i] != '+');
        if text@[0] == '+' {
            assert(text@.skip(1)[i - 1] == text@[i]);
            assert(!crate::clock::is_digit(text@.skip(1)[i - 1]));
        } else {
            assert(!crate::clock::is_digit(text@[i]));
        }
    } else if text@.len() > 0 {
        assert(text@.skip(1) =~= Seq::<char>::empty());
    }
}

/// The clock is drawn anew when the minute is over: the seconds that it shows and the delay make a
/// minute. Where it shows no number, the delay is a whole one.
pub proof fn minutes_are_completed(seconds: &str, shown: Option<u64>, delay: u64)
    requires
        call_ensures(read_number, (seconds,), shown),
        shown matches Some(n) ==> n <= 60,
        call_ensures(tick_delay, (seconds,), delay),
    ensures
        shown matches Some(n) ==> n + delay == 60,
        shown is None ==> delay == 60,
{
}

/// Only the capitals from A to Z change in lower case, each into its small letter.
pub proof fn capitals_become_small(s: &str, r: String)
    requires
        call_ensures(ascii_lowercase, (s,), r),
    ensures
        r@.len() == s@.len(),
        forall|i: int|
            #![trigger r@[i]]
            0 <= i < s@.len() ==> if 'A' <= s@[i] <= 'Z' {
                r@[i] as int - 'a' as int == s@[i] as int - 'A' as int
            } else {
                r@[i] == s@[i]
            },
{
    assert forall|i: int|
        #![trigger r@[i]]
        0 <= i < s@.len() implies if 'A' <= s@[i] <= 'Z' {
        r@[i] as int - 'a' as int == s@[i] as int - 'A' as int
    } else {
        r@[i] == s@[i]
    } by {
        assert(r@[i] == ascii_lower(s@[i]));
    }
}

/// Lower case leaves a text without capitals as it is, where it holds only ASCII characters.
pub proof fn lower_case_is_settled(s: Seq<char>)
    requires
        forall|i: int| 0 <= i < s.len() ==> (#[trigger] s[i] as int) < 128 && !('A' <= s[i] <= 'Z'),
    ensures
        lowercase(s) == s,
{
    assert(s.map_values(|c: char| ascii_lower(c)) =~= s);
}

/// A JSON value holds what it was made of.
pub proof fn values_hold_what_they_are_made_of(
    b: bool,
    s: String,
    items: Vec<Json>,
    members: Vec<Member>,
)
    ensures
        Json::Null.view() is Null,
        Json::Bool(b).view() == JsonView::Bool(b),
        Json::Number(s).view() == JsonView::Number(s@),
        Json::Text(s).view() == JsonView::Text(s@),
        Json::Array(items).view() matches JsonView::Array(held) && held.len() == items@.len() && (
        forall|i: int| 0 <= i < held.len() ==> #[trigger] held[i] == items@[i].view()),
        Json::Object(members).view() matches JsonView::Object(held) && held.len() == members@.len() && (
        forall|i: int|
            0 <= i < held.len() ==> #[trigger] held[i] == (members@[i].name@, members@[i].value.view())),
{
    crate::json::array_view(items);
    crate::json::object_view(members);
}

/// A buffer is registered once while it is leased, and everything that is leased is given up at the
/// release, of which there is something to do only where anything is leased.
pub proof fn buffers_are_registered_once(buffer: u64)
    ensures
        forall|lease: &mut LspBufferLease, register: bool| #[trigger]
            call_ensures(LspBufferLease::acquire, (lease, buffer), register) ==> {
                &&& (register <==> !lease.buffers().contains(buffer))
                &&& final(lease).buffers().contains(buffer)
                &&& (forall|other: u64|
                    other != buffer ==> (#[trigger] final(lease).buffers().contains(other)
                        <==> lease.buffers().contains(other)))
            },
        forall|lease: &mut LspBufferLease, unregister: bool| #[trigger]
            call_ensures(LspBufferLease::release, (lease,), unregister) ==> {
                &&& (forall|other: u64| !#[trigger] final(lease).buffers().contains(other))
                &&& (lease.buffers().contains(buffer) ==> unregister)
                &&& (lease.buffers() == Set::<u64>::empty() ==> !unregister)
            },
{
}

} // verus!
