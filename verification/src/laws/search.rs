//! Laws on searching in text.

use vstd::prelude::*;

use crate::search::{
    contains, contains_every_word, drop_trailing_spaces, find_from, holds_every_word, is_word,
    occurs, occurs_at, skip_spaces, stands_at, trim, trimmed, utf8_len, width_of,
};
use crate::symbol::{display_of, preview_of};
use crate::text::is_space;

verus! {

/// `part` stands in `text`, with something before it and something behind it.
pub open spec fn stands_in(text: Seq<char>, part: Seq<char>) -> bool {
    exists|before: Seq<char>, behind: Seq<char>| text == #[trigger] (before + part + behind)
}

/// All of `s` is white space.
pub open spec fn is_blank(s: Seq<char>) -> bool {
    forall|i: int| 0 <= i < s.len() ==> is_space(#[trigger] s[i])
}

/// None of `s` is white space.
pub open spec fn is_solid(s: Seq<char>) -> bool {
    forall|i: int| 0 <= i < s.len() ==> !is_space(#[trigger] s[i])
}

proof fn occurrence_splits(text: Seq<char>, part: Seq<char>, i: int)
    ensures
        occurs_at(text, part, i) <==> exists|before: Seq<char>, behind: Seq<char>|
            text == #[trigger] (before + part + behind) && before.len() == i,
{
    if occurs_at(text, part, i) {
        let before = text.take(i);
        let behind = text.skip(i + part.len());
        assert(text.subrange(i, i + part.len()) == part);
        assert(text =~= before + text.subrange(i, i + part.len()) + behind);
        assert(text == before + part + behind && before.len() == i);
    }
    if exists|before: Seq<char>, behind: Seq<char>|
        text == #[trigger] (before + part + behind) && before.len() == i {
        let (before, behind) = choose|before: Seq<char>, behind: Seq<char>|
            text == #[trigger] (before + part + behind) && before.len() == i;
        assert(text.subrange(i, i + part.len()) =~= part);
    }
}

pub(crate) proof fn occurring_is_standing(text: Seq<char>, part: Seq<char>)
    ensures
        occurs(text, part) <==> stands_in(text, part),
{
    if occurs(text, part) {
        let i = choose|i: int| #[trigger] occurs_at(text, part, i);
        occurrence_splits(text, part, i);
    }
    if stands_in(text, part) {
        let (before, behind) = choose|before: Seq<char>, behind: Seq<char>|
            text == #[trigger] (before + part + behind);
        occurrence_splits(text, part, before.len() as int);
        assert(occurs_at(text, part, before.len() as int));
    }
}

/// A part stands at a place of a text exactly where as much of the text lies before it.
pub proof fn parts_stand_at_their_place(text: &[char], part: &[char], i: usize, r: bool)
    requires
        call_ensures(stands_at, (text, part, i), r),
    ensures
        r <==> exists|before: Seq<char>, behind: Seq<char>|
            text@ == #[trigger] (before + part@ + behind) && before.len() == i,
{
    occurrence_splits(text@, part@, i as int);
}

/// What is found stands there, and nowhere before from where the search began; where nothing is
/// found, it stands nowhere from there on.
pub proof fn the_first_is_found(text: &[char], part: &[char], from: usize, r: Option<usize>)
    requires
        call_ensures(find_from, (text, part, from), r),
    ensures
        r matches Some(i) ==> from <= i && exists|before: Seq<char>, behind: Seq<char>|
            text@ == #[trigger] (before + part@ + behind) && before.len() == i,
        forall|before: Seq<char>, behind: Seq<char>|
            text@ == #[trigger] (before + part@ + behind) && from <= before.len() ==> r is Some
                && r->0 <= before.len(),
{
    if let Some(i) = r {
        occurrence_splits(text@, part@, i as int);
    }
    assert forall|before: Seq<char>, behind: Seq<char>|
        text@ == #[trigger] (before + part@ + behind) && from <= before.len() implies r is Some && r->0
        <= before.len() by {
        occurrence_splits(text@, part@, before.len() as int);
        assert(occurs_at(text@, part@, before.len() as int));
    }
}

/// A text holds a part exactly where it stands in it.
pub proof fn parts_are_contained(text: &[char], part: &[char], r: bool)
    requires
        call_ensures(contains, (text, part), r),
    ensures
        r <==> stands_in(text@, part@),
{
    occurring_is_standing(text@, part@);
}

/// `word` is a word of `query`: what stands between white space or the ends.
pub open spec fn is_word_of(word: Seq<char>, query: Seq<char>) -> bool {
    &&& word.len() > 0
    &&& is_solid(word)
    &&& exists|before: Seq<char>, behind: Seq<char>|
        {
            &&& query == #[trigger] (before + word + behind)
            &&& before.len() == 0 || is_space(before.last())
            &&& behind.len() == 0 || is_space(behind[0])
        }
}

pub(crate) proof fn words_are_sought(haystack: Seq<char>, query: Seq<char>)
    ensures
        holds_every_word(haystack, query) <==> forall|word: Seq<char>| #[trigger]
            is_word_of(word, query) ==> stands_in(haystack, word),
{
    if holds_every_word(haystack, query) {
        assert forall|word: Seq<char>| #[trigger] is_word_of(word, query) implies stands_in(
            haystack,
            word,
        ) by {
            let (before, behind) = choose|before: Seq<char>, behind: Seq<char>|
                {
                    &&& query == #[trigger] (before + word + behind)
                    &&& before.len() == 0 || is_space(before.last())
                    &&& behind.len() == 0 || is_space(behind[0])
                };
            let i = before.len() as int;
            let j = i + word.len();
            assert(query.subrange(i, j) =~= word);
            assert forall|k: int| i <= k < j implies !is_space(#[trigger] query[k]) by {
                assert(query[k] == word[k - i]);
            }
            if i > 0 {
                assert(query[i - 1] == before.last());
            }
            if j < query.len() {
                assert(query[j] == behind[0]);
            }
            assert(is_word(query, i, j));
            occurring_is_standing(haystack, word);
        }
    }
    if forall|word: Seq<char>| #[trigger] is_word_of(word, query) ==> stands_in(haystack, word) {
        assert forall|i: int, j: int| #[trigger] is_word(query, i, j) implies occurs(
            haystack,
            query.subrange(i, j),
        ) by {
            let word = query.subrange(i, j);
            let before = query.take(i);
            let behind = query.skip(j);
            assert(query =~= before + word + behind);
            assert(is_word_of(word, query));
            occurring_is_standing(haystack, word);
        }
    }
}

/// Every word of a query is sought, each on its own.
pub proof fn every_word_is_sought(haystack: &[char], query: &[char], r: bool)
    requires
        call_ensures(contains_every_word, (haystack, query), r),
    ensures
        r <==> forall|word: Seq<char>| #[trigger] is_word_of(word, query@) ==> stands_in(haystack@, word),
{
    words_are_sought(haystack@, query@);
}

/// `core` is what is left of `s` without the white space around it.
pub open spec fn is_core_of(core: Seq<char>, s: Seq<char>) -> bool {
    &&& core.len() > 0 ==> !is_space(core[0]) && !is_space(core.last())
    &&& exists|before: Seq<char>, behind: Seq<char>|
        s == #[trigger] (before + core + behind) && is_blank(before) && is_blank(behind)
}

/// How much white space a text begins with.
proof fn leading_part(s: Seq<char>) -> (n: int)
    ensures
        0 <= n <= s.len(),
        is_blank(s.take(n)),
        skip_spaces(s) == s.skip(n),
        n < s.len() ==> !is_space(s[n]),
    decreases s.len(),
{
    if s.len() > 0 && is_space(s[0]) {
        let m = leading_part(s.skip(1));
        assert(s.skip(1).skip(m) =~= s.skip(m + 1));
        assert forall|i: int| 0 <= i < m + 1 implies is_space(#[trigger] s.take(m + 1)[i]) by {
            if i > 0 {
                assert(s.skip(1).take(m)[i - 1] == s[i]);
            }
        }
        m + 1
    } else {
        assert(s.skip(0) =~= s);
        0
    }
}

/// How much of a text is left without the white space that it ends with.
proof fn trailing_part(s: Seq<char>) -> (n: int)
    ensures
        0 <= n <= s.len(),
        is_blank(s.skip(n)),
        drop_trailing_spaces(s) == s.take(n),
        n > 0 ==> !is_space(s[n - 1]),
    decreases s.len(),
{
    if s.len() > 0 && is_space(s.last()) {
        let n = trailing_part(s.drop_last());
        assert(s.drop_last().take(n) =~= s.take(n));
        assert forall|i: int| 0 <= i < s.len() - n implies is_space(#[trigger] s.skip(n)[i]) by {
            if i < s.len() - n - 1 {
                assert(s.drop_last().skip(n)[i] == s[n + i]);
            }
        }
        n
    } else {
        assert(s.take(s.len() as int) =~= s);
        s.len() as int
    }
}

pub(crate) proof fn trimmed_is_core(s: Seq<char>)
    ensures
        is_core_of(trimmed(s), s),
        forall|core: Seq<char>| #[trigger] is_core_of(core, s) ==> core == trimmed(s),
{
    let n = leading_part(s);
    let m = trailing_part(s.skip(n));
    let core = s.skip(n).take(m);
    assert(s =~= s.take(n) + core + s.skip(n).skip(m));
    if core.len() > 0 {
        assert(core[0] == s[n] && core.last() == s.skip(n)[m - 1]);
    }
    assert(is_core_of(trimmed(s), s));
    assert forall|other: Seq<char>| #[trigger] is_core_of(other, s) implies other == core by {
        let (before, behind) = choose|before: Seq<char>, behind: Seq<char>|
            s == #[trigger] (before + other + behind) && is_blank(before) && is_blank(behind);
        if other.len() == 0 {
            assert(is_blank(s)) by {
                assert forall|i: int| 0 <= i < s.len() implies is_space(#[trigger] s[i]) by {
                    if i < before.len() {
                        assert(s[i] == before[i]);
                    } else {
                        assert(s[i] == behind[i - before.len()]);
                    }
                }
            }
            if n < s.len() {
                assert(is_space(s[n]));
            }
            assert(other =~= core);
        } else {
            let b = before.len() as int;
            assert(s[b] == other[0]);
            if n < b {
                assert(s[n] == before[n]);
            }
            if b < n {
                assert(s.take(n)[b] == s[b]);
            }
            let e = b + other.len();
            assert(s[e - 1] == other.last());
            if n + m > e {
                assert(s.skip(n)[m - 1] == s[n + m - 1]);
                assert(s[n + m - 1] == behind[n + m - 1 - e]);
            }
            if n + m < e {
                assert(s.skip(n).skip(m)[e - 1 - n - m] == s[e - 1]);
            }
            assert(other =~= core);
        }
    }
}

/// Trimming takes the white space off both ends, all of it and nothing else.
pub proof fn white_space_is_trimmed(s: &[char], r: Vec<char>)
    requires
        call_ensures(trim, (s,), r),
    ensures
        is_core_of(r@, s@),
{
    trimmed_is_core(s@);
}

/// A line is previewed from its first character that is not white space, up to 200 characters.
pub proof fn lines_are_previewed(line: &[char], r: Vec<char>)
    requires
        call_ensures(preview_of, (line,), r),
    ensures
        exists|indent: Seq<char>, rest: Seq<char>|
            {
                &&& line@ == #[trigger] (indent + r@ + rest)
                &&& is_blank(indent)
                &&& r@.len() > 0 ==> !is_space(r@[0])
                &&& r@.len() == 0 ==> rest.len() == 0
                &&& r@.len() <= 200
                &&& r@.len() < 200 ==> rest.len() == 0
            },
{
    let n = leading_part(line@);
    let rest = line@.skip(n).skip(r@.len() as int);
    assert(line@ =~= line@.take(n) + r@ + rest);
}

/// A line is displayed like its preview, but without white space at the end.
pub proof fn lines_are_displayed(line: &[char], preview: Vec<char>, r: String)
    requires
        call_ensures(preview_of, (line,), preview),
        call_ensures(display_of, (line,), r),
    ensures
        r@.len() > 0 ==> !is_space(r@.last()),
        exists|rest: Seq<char>| preview@ == #[trigger] (r@ + rest) && is_blank(rest),
{
    let m = trailing_part(preview@);
    assert(preview@ =~= r@ + preview@.skip(m));
}

/// The width of a character is the number of bytes that it takes in UTF-8.
pub proof fn widths_are_those_of_utf8(c: char, r: usize)
    requires
        call_ensures(width_of, (c,), r),
    ensures
        r == vstd::utf8::encode_utf8(seq![c]).len(),
{
    bytes_of_char(c);
    reveal_with_fuel(vstd::utf8::encode_utf8, 2);
}

proof fn bytes_of_char(c: char)
    ensures
        crate::search::utf8_width(c) == vstd::utf8::encode_scalar(c as u32).len(),
{
    broadcast use vstd::utf8::char_is_scalar;

}

/// The length of a text in bytes is that of its UTF-8.
pub proof fn lengths_are_those_of_utf8(s: Seq<char>)
    ensures
        utf8_len(s) == vstd::utf8::encode_utf8(s).len(),
    decreases s.len(),
{
    if s.len() > 0 {
        lengths_are_those_of_utf8(s.drop_first());
        bytes_of_char(s[0]);
        crate::search::utf8_len_concat(seq![s[0]], s.drop_first());
        assert(seq![s[0]] + s.drop_first() =~= s);
        assert(seq![s[0]].drop_last() =~= Seq::<char>::empty());
        reveal_with_fuel(utf8_len, 2);
    }
}

} // verus!
