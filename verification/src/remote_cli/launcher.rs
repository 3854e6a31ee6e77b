//! The script that starts the command line from a terminal.

use vstd::prelude::*;
use vstd::string::*;

use crate::text::concat3;

verus! {

/// `s` as it stands between single quotes in a shell script: a quote in it ends the quoted text,
/// is given by itself behind a backslash, and begins the quoted text again.
pub open spec fn escaped(s: Seq<char>) -> Seq<char>
    decreases s.len(),
{
    if s.len() == 0 {
        Seq::empty()
    } else if s[0] == '\'' {
        seq!['\'', '\\', '\'', '\''] + escaped(s.skip(1))
    } else {
        seq![s[0]] + escaped(s.skip(1))
    }
}

/// What a shell reads as one word, where the text holds only parts in single quotes and characters
/// behind a backslash; `None` where a quote or a backslash is left open.
pub open spec fn shell_word(text: Seq<char>, quoted: bool) -> Option<Seq<char>>
    decreases text.len(),
{
    if text.len() == 0 {
        if quoted {
            None
        } else {
            Some(Seq::empty())
        }
    } else if text[0] == '\'' {
        shell_word(text.skip(1), !quoted)
    } else if quoted {
        match shell_word(text.skip(1), true) {
            Some(rest) => Some(seq![text[0]] + rest),
            None => None,
        }
    } else if text[0] == '\\' && text.len() >= 2 {
        match shell_word(text.skip(2), false) {
            Some(rest) => Some(seq![text[1]] + rest),
            None => None,
        }
    } else {
        None
    }
}

/// Escaping appends: what comes first is escaped first.
proof fn escaped_push(s: Seq<char>, c: char)
    ensures
        escaped(s.push(c)) == escaped(s) + escaped(seq![c]),
    decreases s.len(),
{
    if s.len() == 0 {
        assert(s.push(c) =~= seq![c]);
        assert(escaped(s) + escaped(seq![c]) =~= escaped(seq![c]));
    } else {
        assert(s.push(c).skip(1) =~= s.skip(1).push(c));
        escaped_push(s.skip(1), c);
        assert(escaped(s.push(c)) =~= escaped(s) + escaped(seq![c]));
    }
}

/// Escapes a text for a place between single quotes in a shell script.
fn escape(s: &str) -> (r: String)
    ensures
        r@ == escaped(s@),
{
    let mut out = String::new();
    proof {
        reveal_strlit("'\\''");
        assert("'\\''"@ =~= seq!['\'', '\\', '\'', '\'']);
    }
    for c in it: s.chars()
        invariant
            it.seq() == s@,
            out@ == escaped(s@.take(it.index() as int)),
            "'\\''"@ == seq!['\'', '\\', '\'', '\''],
    {
        proof {
            let taken = s@.take(it.index() as int);
            assert(s@.take(it.index() + 1) =~= taken.push(c));
            escaped_push(taken, c);
            reveal_with_fuel(escaped, 2);
            assert(seq![c].skip(1) =~= Seq::empty());
            assert(escaped(seq![c]) =~= if c == '\'' {
                seq!['\'', '\\', '\'', '\'']
            } else {
                seq![c]
            });
        }
        let ghost before = out@;
        if c == '\'' {
            out.append("'\\''");
        } else {
            out.push(c);
            assert(before.push(c) =~= before + seq![c]);
        }
    }
    assert(s@.take(s@.len() as int) =~= s@);
    out
}

/// The script that runs the command line of an executable with the arguments that it is given.
pub fn launcher_script(executable: &str) -> (r: String)
    ensures
        r@ == "#!/bin/sh\nexec '"@ + escaped(executable@) + "' cli \"$@\"\n"@,
{
    concat3("#!/bin/sh\nexec '", escape(executable).as_str(), "' cli \"$@\"\n")
}

/// Between the quotes of the script, a shell reads the executable as it is named, whatever
/// characters the name holds.
pub proof fn executable_is_quoted(executable: Seq<char>)
    ensures
        shell_word(seq!['\''] + escaped(executable) + seq!['\''], false) == Some(executable),
{
    let text = seq!['\''] + escaped(executable) + seq!['\''];
    assert(text.skip(1) =~= escaped(executable) + seq!['\'']);
    quoted_part(executable);
}

/// What stands escaped between quotes is read back.
proof fn quoted_part(s: Seq<char>)
    ensures
        shell_word(escaped(s) + seq!['\''], true) == Some(s),
    decreases s.len(),
{
    let text = escaped(s) + seq!['\''];
    if s.len() == 0 {
        assert(text =~= seq!['\'']);
        assert(text.skip(1) =~= Seq::empty());
        assert(shell_word(text.skip(1), false) == Some(Seq::<char>::empty()));
        assert(s =~= Seq::empty());
    } else {
        quoted_part(s.skip(1));
        let rest = escaped(s.skip(1)) + seq!['\''];
        assert(seq![s[0]] + s.skip(1) =~= s);
        if s[0] == '\'' {
            assert(text =~= seq!['\'', '\\', '\'', '\''] + rest);
            let tail = text.skip(1);
            assert(tail[0] == '\\' && tail[1] == '\'');
            assert(tail.skip(2) =~= seq!['\''] + rest);
            assert((seq!['\''] + rest).skip(1) =~= rest);
            assert(shell_word(tail.skip(2), false) == shell_word(rest, true));
            assert(shell_word(tail, false) == Some(seq!['\''] + s.skip(1)));
        } else {
            assert(text =~= seq![s[0]] + rest);
            assert(text.skip(1) =~= rest);
        }
    }
}

} // verus!
