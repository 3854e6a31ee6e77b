//! Searching in text: occurrences, trimming, words and byte offsets.

use vstd::prelude::*;

use crate::text::is_space;

verus! {

/// `pattern` stands in `text` at character index `i`.
pub open spec fn occurs_at(text: Seq<char>, pattern: Seq<char>, i: int) -> bool {
    &&& 0 <= i
    &&& i + pattern.len() <= text.len()
    &&& text.subrange(i, i + pattern.len()) == pattern
}

/// `pattern` stands somewhere in `text`.
pub open spec fn occurs(text: Seq<char>, pattern: Seq<char>) -> bool {
    exists|i: int| #[trigger] occurs_at(text, pattern, i)
}

/// `i` is the first index from `from` on at which `pattern` stands in `text`.
pub open spec fn is_first_from(text: Seq<char>, pattern: Seq<char>, from: int, i: int) -> bool {
    &&& from <= i
    &&& occurs_at(text, pattern, i)
    &&& forall|j: int| from <= j < i ==> !#[trigger] occurs_at(text, pattern, j)
}

/// `pattern` does not stand in `text` at or after `from`.
pub open spec fn absent_from(text: Seq<char>, pattern: Seq<char>, from: int) -> bool {
    forall|j: int| from <= j ==> !#[trigger] occurs_at(text, pattern, j)
}

/// The first index from `from` on at which `pattern` stands in `text`.
pub open spec fn first_from(text: Seq<char>, pattern: Seq<char>, from: int) -> Option<int> {
    if absent_from(text, pattern, from) {
        None
    } else {
        Some(choose|i: int| is_first_from(text, pattern, from, i))
    }
}

/// Where `pattern` stands in `text` at or after `from`, there is a first such place.
pub proof fn first_exists(text: Seq<char>, pattern: Seq<char>, from: int, at: int)
    requires
        from <= at,
        occurs_at(text, pattern, at),
    ensures
        exists|i: int| is_first_from(text, pattern, from, i),
    decreases at - from,
{
    if forall|j: int| from <= j < at ==> !#[trigger] occurs_at(text, pattern, j) {
        assert(is_first_from(text, pattern, from, at));
    } else {
        let j = choose|j: int| from <= j < at && #[trigger] occurs_at(text, pattern, j);
        first_exists(text, pattern, from, j);
    }
}

/// `first_from` is exact: it gives the first occurrence, and `None` only where there is none.
pub proof fn first_from_is_first(text: Seq<char>, pattern: Seq<char>, from: int)
    ensures
        match first_from(text, pattern, from) {
            Some(i) => is_first_from(text, pattern, from, i),
            None => absent_from(text, pattern, from),
        },
        forall|i: int|
            is_first_from(text, pattern, from, i) ==> first_from(text, pattern, from) == Some(i),
{
    if !absent_from(text, pattern, from) {
        let at = choose|at: int| from <= at && #[trigger] occurs_at(text, pattern, at);
        first_exists(text, pattern, from, at);
    }
    assert forall|i: int| is_first_from(text, pattern, from, i) implies first_from(
        text,
        pattern,
        from,
    ) == Some(i) by {
        assert(occurs_at(text, pattern, i));
    }
}

/// The number of places below `n` at which `pattern` stands in `text`.
pub open spec fn places_below(text: Seq<char>, pattern: Seq<char>, n: int) -> nat
    decreases n,
{
    if n <= 0 {
        0
    } else {
        places_below(text, pattern, n - 1) + if occurs_at(text, pattern, n - 1) {
            1nat
        } else {
            0nat
        }
    }
}

/// The number of places at which `pattern` stands in `text`.
pub open spec fn places(text: Seq<char>, pattern: Seq<char>) -> nat {
    places_below(text, pattern, text.len() + 1int)
}

/// The places below `n` are counted: there is none where none was found, one where a single one was,
/// and more where there are two.
proof fn places_below_are_counted(text: Seq<char>, pattern: Seq<char>, n: int)
    ensures
        places_below(text, pattern, n) == 0 <==> forall|i: int|
            0 <= i < n ==> !#[trigger] occurs_at(text, pattern, i),
        places_below(text, pattern, n) <= 1 <==> forall|i: int, j: int|
            0 <= i < n && 0 <= j < n && #[trigger] occurs_at(text, pattern, i) && #[trigger] occurs_at(
                text,
                pattern,
                j,
            ) ==> i == j,
    decreases n,
{
    if n > 0 {
        places_below_are_counted(text, pattern, n - 1);
    }
}

/// `places` counts: it is zero exactly where the pattern does not occur, and one exactly where it
/// occurs at one place and no other.
pub proof fn places_are_counted(text: Seq<char>, pattern: Seq<char>)
    ensures
        places(text, pattern) == 0 <==> !occurs(text, pattern),
        places(text, pattern) == 1 <==> occurs(text, pattern) && forall|i: int, j: int| #[trigger]
            occurs_at(text, pattern, i) && #[trigger] occurs_at(text, pattern, j) ==> i == j,
{
    places_below_are_counted(text, pattern, text.len() + 1int);
    assert(forall|i: int| #[trigger] occurs_at(text, pattern, i) ==> 0 <= i < text.len() + 1);
}

/// The number of occurrences of `pattern` in `text` from `from` on, counted one behind another so
/// that no two overlap.
pub open spec fn matches_from(text: Seq<char>, pattern: Seq<char>, from: int) -> nat
    decreases text.len() - from,
{
    match first_from(text, pattern, from) {
        Some(i) => if pattern.len() > 0 && from <= i && i + pattern.len() <= text.len() {
            1 + matches_from(text, pattern, i + pattern.len())
        } else {
            0
        },
        None => 0,
    }
}

/// Whether `pattern` stands in `text` at `i`.
pub fn stands_at(text: &[char], pattern: &[char], i: usize) -> (r: bool)
    ensures
        r == occurs_at(text@, pattern@, i as int),
{
    if i > text.len() || text.len() - i < pattern.len() {
        return false;
    }
    let mut k: usize = 0;
    while k < pattern.len()
        invariant
            i <= text.len(),
            text.len() - i >= pattern.len(),
            k <= pattern.len(),
            forall|m: int| 0 <= m < k ==> text@[i + m] == pattern@[m],
        decreases pattern.len() - k,
    {
        if text[i + k] != pattern[k] {
            proof {
                if occurs_at(text@, pattern@, i as int) {
                    assert(text@.subrange(i as int, i + pattern@.len())[k as int] == pattern@[k as int]);
                }
            }
            return false;
        }
        k = k + 1;
    }
    assert(text@.subrange(i as int, i + pattern@.len()) =~= pattern@);
    true
}

/// Finds the first occurrence of `pattern` in `text` at or after `from`.
pub fn find_from(text: &[char], pattern: &[char], from: usize) -> (r: Option<usize>)
    ensures
        match r {
            Some(i) => is_first_from(text@, pattern@, from as int, i as int),
            None => absent_from(text@, pattern@, from as int),
        },
        match r {
            Some(i) => first_from(text@, pattern@, from as int) == Some(i as int),
            None => first_from(text@, pattern@, from as int) is None,
        },
{
    proof {
        first_from_is_first(text@, pattern@, from as int);
    }
    let mut i: usize = from;
    while i <= text.len() && text.len() - i >= pattern.len()
        invariant
            from <= i,
            from <= text.len() ==> i <= text.len() + 1,
            forall|j: int| from <= j < i ==> !#[trigger] occurs_at(text@, pattern@, j),
            forall|k: int|
                is_first_from(text@, pattern@, from as int, k) ==> first_from(
                    text@,
                    pattern@,
                    from as int,
                ) == Some(k),
        decreases text.len() + 1 - i,
    {
        if stands_at(text, pattern, i) {
            assert(is_first_from(text@, pattern@, from as int, i as int));
            return Some(i);
        }
        if i == text.len() {
            assert(absent_from(text@, pattern@, from as int));
            return None;
        }
        i = i + 1;
    }
    None
}

/// Whether `pattern` stands in `text`.
pub fn contains(text: &[char], pattern: &[char]) -> (r: bool)
    ensures
        r == occurs(text@, pattern@),
{
    match find_from(text, pattern, 0) {
        Some(i) => {
            assert(occurs_at(text@, pattern@, i as int));
            true
        },
        None => {
            assert forall|i: int| !#[trigger] occurs_at(text@, pattern@, i) by {
                if i >= 0 {
                    assert(absent_from(text@, pattern@, 0));
                }
            }
            false
        },
    }
}

/// Counts the occurrences of `pattern` in `text`, one behind another.
pub fn count_matches(text: &[char], pattern: &[char]) -> (r: u64)
    requires
        pattern.len() > 0,
    ensures
        r == matches_from(text@, pattern@, 0),
{
    let mut from: usize = 0;
    let mut count: u64 = 0;
    loop
        invariant
            pattern.len() > 0,
            from <= text.len(),
            count <= from,
            count + matches_from(text@, pattern@, from as int) == matches_from(text@, pattern@, 0),
        decreases text.len() - from,
    {
        match find_from(text, pattern, from) {
            Some(i) => {
                count = count + 1;
                from = i + pattern.len();
            },
            None => {
                return count;
            },
        }
    }
}

/// Counts the places at which `pattern` stands in `text`.
pub fn count_places(text: &[char], pattern: &[char]) -> (r: u64)
    requires
        pattern.len() > 0,
    ensures
        r == places(text@, pattern@),
{
    let mut count: u64 = 0;
    let mut i: usize = 0;
    while i < text.len()
        invariant
            pattern.len() > 0,
            count <= i <= text.len(),
            count == places_below(text@, pattern@, i as int),
        decreases text.len() - i,
    {
        if stands_at(text, pattern, i) {
            count = count + 1;
        }
        i = i + 1;
    }
    assert(!occurs_at(text@, pattern@, text@.len() as int));
    count
}

/// `s` without the white space it begins with.
pub open spec fn skip_spaces(s: Seq<char>) -> Seq<char>
    decreases s.len(),
{
    if s.len() > 0 && is_space(s[0]) {
        skip_spaces(s.skip(1))
    } else {
        s
    }
}

/// `s` without the white space it ends with.
pub open spec fn drop_trailing_spaces(s: Seq<char>) -> Seq<char>
    decreases s.len(),
{
    if s.len() > 0 && is_space(s.last()) {
        drop_trailing_spaces(s.drop_last())
    } else {
        s
    }
}

/// `s` without the white space around it.
pub open spec fn trimmed(s: Seq<char>) -> Seq<char> {
    drop_trailing_spaces(skip_spaces(s))
}

/// The first `n` characters of `s`, or all of them where there are fewer.
pub open spec fn at_most(s: Seq<char>, n: nat) -> Seq<char> {
    if s.len() <= n {
        s
    } else {
        s.take(n as int)
    }
}

/// The number of white-space characters that `s` begins with.
pub fn leading_spaces(s: &[char]) -> (r: usize)
    ensures
        r <= s.len(),
        s@.skip(r as int) == skip_spaces(s@),
{
    let mut i: usize = 0;
    assert(s@.skip(0) =~= s@);
    while i < s.len() && s[i].is_whitespace()
        invariant
            i <= s.len(),
            skip_spaces(s@.skip(i as int)) == skip_spaces(s@),
        decreases s.len() - i,
    {
        assert(s@.skip(i as int).skip(1) =~= s@.skip(i + 1));
        i = i + 1;
    }
    i
}

/// The length of `s` without the white space it ends with.
pub fn trimmed_end_len(s: &[char]) -> (r: usize)
    ensures
        r <= s.len(),
        s@.take(r as int) == drop_trailing_spaces(s@),
{
    let mut n: usize = s.len();
    assert(s@.take(n as int) =~= s@);
    while n > 0 && s[n - 1].is_whitespace()
        invariant
            n <= s.len(),
            drop_trailing_spaces(s@.take(n as int)) == drop_trailing_spaces(s@),
        decreases n,
    {
        assert(s@.take(n as int).drop_last() =~= s@.take(n - 1));
        n = n - 1;
    }
    n
}

/// The characters `s[from..to]`.
pub fn slice_of(s: &[char], from: usize, to: usize) -> (r: Vec<char>)
    requires
        from <= to <= s.len(),
    ensures
        r@ == s@.subrange(from as int, to as int),
{
    let mut out: Vec<char> = Vec::new();
    let mut i: usize = from;
    while i < to
        invariant
            from <= i <= to <= s.len(),
            out@ == s@.subrange(from as int, i as int),
        decreases to - i,
    {
        out.push(s[i]);
        i = i + 1;
    }
    out
}

/// Removes the white space around `s`.
pub fn trim(s: &[char]) -> (r: Vec<char>)
    ensures
        r@ == trimmed(s@),
{
    let start = leading_spaces(s);
    let rest = slice_of(s, start, s.len());
    assert(rest@ =~= s@.skip(start as int));
    let end = trimmed_end_len(&rest);
    let out = slice_of(&rest, 0, end);
    assert(out@ =~= rest@.take(end as int));
    out
}

/// `q[i..j]` is a word of `q`: a maximal run of characters that are not white space.
pub open spec fn is_word(q: Seq<char>, i: int, j: int) -> bool {
    &&& 0 <= i < j <= q.len()
    &&& forall|k: int| i <= k < j ==> !is_space(#[trigger] q[k])
    &&& i == 0 || is_space(q[i - 1])
    &&& j == q.len() || is_space(q[j])
}

/// Every word of `query` stands in `haystack`.
pub open spec fn holds_every_word(haystack: Seq<char>, query: Seq<char>) -> bool {
    forall|i: int, j: int| #[trigger] is_word(query, i, j) ==> occurs(haystack, query.subrange(i, j))
}

/// Whether every word of `query` stands in `haystack`.
pub fn contains_every_word(haystack: &[char], query: &[char]) -> (r: bool)
    ensures
        r == holds_every_word(haystack@, query@),
{
    let mut i: usize = 0;
    while i < query.len()
        invariant
            i <= query.len(),
            i == 0 || i == query.len() || is_space(query@[i - 1]) || is_space(query@[i as int]),
            forall|a: int, b: int| #[trigger]
                is_word(query@, a, b) && a < i ==> occurs(haystack@, query@.subrange(a, b)),
        decreases query.len() - i,
    {
        if query[i].is_whitespace() {
            i = i + 1;
        } else {
            let start = i;
            while i < query.len() && !query[i].is_whitespace()
                invariant
                    start <= i <= query.len(),
                    forall|k: int| start <= k < i ==> !is_space(#[trigger] query@[k]),
                decreases query.len() - i,
            {
                i = i + 1;
            }
            let word = slice_of(query, start, i);
            assert(is_word(query@, start as int, i as int));
            if !contains(haystack, &word) {
                return false;
            }
            assert forall|a: int, b: int| #[trigger] is_word(query@, a, b) && a < i implies occurs(
                haystack@,
                query@.subrange(a, b),
            ) by {
                if a > start {
                    assert(!is_space(query@[a - 1]));
                } else if a == start {
                    if b < i {
                        assert(!is_space(query@[b]));
                    } else if b > i {
                        assert(!is_space(query@[i as int]));
                    }
                }
            }
        }
    }
    true
}

/// The number of bytes that `c` takes in UTF-8.
pub open spec fn utf8_width(c: char) -> nat {
    if (c as int) < 0x80 {
        1
    } else if (c as int) < 0x800 {
        2
    } else if (c as int) < 0x10000 {
        3
    } else {
        4
    }
}

/// The number of bytes that `s` takes in UTF-8.
pub open spec fn utf8_len(s: Seq<char>) -> nat
    decreases s.len(),
{
    if s.len() == 0 {
        0
    } else {
        utf8_len(s.drop_last()) + utf8_width(s.last())
    }
}

/// The number of bytes that `c` takes in UTF-8.
pub fn width_of(c: char) -> (r: usize)
    ensures
        r == utf8_width(c),
{
    let code: u32 = c as u32;
    if code < 0x80 {
        1
    } else if code < 0x800 {
        2
    } else if code < 0x10000 {
        3
    } else {
        4
    }
}

/// Byte lengths add up under concatenation.
pub proof fn utf8_len_concat(a: Seq<char>, b: Seq<char>)
    ensures
        utf8_len(a + b) == utf8_len(a) + utf8_len(b),
    decreases b.len(),
{
    if b.len() == 0 {
        assert(a + b =~= a);
    } else {
        assert((a + b).drop_last() =~= a + b.drop_last());
        utf8_len_concat(a, b.drop_last());
    }
}

/// A prefix takes no more bytes than the whole.
pub proof fn utf8_len_prefix(s: Seq<char>, i: int)
    requires
        0 <= i <= s.len(),
    ensures
        utf8_len(s.take(i)) <= utf8_len(s),
{
    utf8_len_concat(s.take(i), s.skip(i));
    assert(s.take(i) + s.skip(i) =~= s);
}

/// The number of bytes of the first `n` characters of `s`.
pub fn byte_offset(s: &[char], n: usize) -> (r: usize)
    requires
        n <= s.len(),
        utf8_len(s@) <= usize::MAX,
    ensures
        r == utf8_len(s@.take(n as int)),
{
    let mut i: usize = 0;
    let mut total: usize = 0;
    assert(s@.take(0) =~= Seq::<char>::empty());
    while i < n
        invariant
            i <= n <= s.len(),
            utf8_len(s@) <= usize::MAX,
            total == utf8_len(s@.take(i as int)),
        decreases n - i,
    {
        proof {
            assert(s@.take(i + 1).drop_last() =~= s@.take(i as int));
            utf8_len_prefix(s@, i + 1);
        }
        total = total + width_of(s[i]);
        i = i + 1;
    }
    total
}

} // verus!
