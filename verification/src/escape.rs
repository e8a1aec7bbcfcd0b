//! The storage-escaping transform applied to user-supplied text before it
//! is interpolated into a statement: a fixed set of characters is prefixed
//! with a backslash and the whole value is wrapped in double quotes.  The
//! nullable variant maps an empty value to the bare token `NULL` so that
//! optional fields can be omitted from storage.

use vstd::prelude::*;
use vstd::string::StringExecFns;
use crate::text::push_char;

verus! {

/// The characters that the storage layer requires to be escaped.
pub open spec fn needs_escape(c: char) -> bool {
    c == '\0' || c == '\n' || c == '\r' || c == '\\' || c == '\'' || c == '"' || c == '\u{1a}'
}

/// The escaped form of one character.
pub open spec fn escaped_char(c: char) -> Seq<char> {
    if needs_escape(c) {
        seq!['\\', c]
    } else {
        seq![c]
    }
}

/// The escaped form of a whole value, before quoting.
pub open spec fn escape_seq(s: Seq<char>) -> Seq<char>
    decreases s.len(),
{
    if s.len() == 0 {
        Seq::empty()
    } else {
        escaped_char(s[0]) + escape_seq(s.drop_first())
    }
}

/// The quoted, escaped form of a value.
pub open spec fn quoted_escaped(s: Seq<char>) -> Seq<char> {
    seq!['"'] + escape_seq(s) + seq!['"']
}

/// The nullable form: the bare token `NULL` for an empty value, the
/// quoted escaped form otherwise.
pub open spec fn spec_escape_nullable(s: Seq<char>) -> Seq<char> {
    if s.len() == 0 {
        "NULL"@
    } else {
        quoted_escaped(s)
    }
}

/// Reverses the escaping transform: a backslash is dropped and the
/// character after it kept, any other character is kept as it is.
pub open spec fn unescape_seq(s: Seq<char>) -> Seq<char>
    decreases s.len(),
{
    if s.len() == 0 {
        Seq::empty()
    } else if s[0] == '\\' && s.len() >= 2 {
        seq![s[1]] + unescape_seq(s.skip(2))
    } else {
        seq![s[0]] + unescape_seq(s.drop_first())
    }
}

/// Escaping loses nothing: reversing the escape characters reproduces the
/// original value, whatever it held.
pub proof fn lemma_escape_round_trip(s: Seq<char>)
    ensures
        unescape_seq(escape_seq(s)) == s,
    decreases s.len(),
{
    if s.len() == 0 {
        assert(unescape_seq(escape_seq(s)) =~= s);
    } else {
        let e = escape_seq(s);
        lemma_escape_round_trip(s.drop_first());
        if needs_escape(s[0]) {
            assert(e == seq!['\\', s[0]] + escape_seq(s.drop_first()));
            assert(e[0] == '\\' && e.len() >= 2);
            assert(e[1] == s[0]);
            assert(e.skip(2) =~= escape_seq(s.drop_first()));
            assert(unescape_seq(e) =~= s);
        } else {
            assert(e == seq![s[0]] + escape_seq(s.drop_first()));
            assert(e[0] == s[0]);
            assert(e[0] != '\\');
            assert(e.drop_first() =~= escape_seq(s.drop_first()));
            assert(unescape_seq(e) =~= s);
        }
    }
}

proof fn lemma_escape_snoc(s: Seq<char>, c: char)
    ensures
        escape_seq(s.push(c)) == escape_seq(s) + escaped_char(c),
    decreases s.len(),
{
    if s.len() == 0 {
        let sp = s.push(c);
        assert(sp.len() == 1 && sp[0] == c);
        assert(sp.drop_first() =~= Seq::<char>::empty());
        assert(escape_seq(sp.drop_first()) == Seq::<char>::empty());
        assert(escape_seq(sp) =~= escaped_char(c));
        assert(escape_seq(s) + escaped_char(c) =~= escaped_char(c));
    } else {
        assert(s.push(c).drop_first() =~= s.drop_first().push(c));
        lemma_escape_snoc(s.drop_first(), c);
        assert(escape_seq(s.push(c)) =~= escape_seq(s) + escaped_char(c));
    }
}

fn is_escape_char(c: char) -> (b: bool)
    ensures
        b == needs_escape(c),
{
    c == '\0' || c == '\n' || c == '\r' || c == '\\' || c == '\'' || c == '"' || c == '\u{1a}'
}

/// Escapes a value and wraps it in double quotes.
pub fn mysql_escape(s: &str) -> (r: String)
    ensures
        r@ == quoted_escaped(s@),
{
    let mut out = String::new();
    push_char(&mut out, '"');
    for c in it: s.chars()
        invariant
            it.seq() == s@,
            out@ == seq!['"'] + escape_seq(it.seq().take(it.index() as int)),
    {
        proof {
            lemma_escape_snoc(it.seq().take(it.index() as int), c);
            assert(it.seq().take(it.index() + 1) =~= it.seq().take(it.index() as int).push(c));
        }
        if is_escape_char(c) {
            push_char(&mut out, '\\');
        }
        push_char(&mut out, c);
        proof {
            assert(out@ =~= seq!['"'] + escape_seq(it.seq().take(it.index() + 1)));
        }
    }
    proof {
        assert(s@.take(s@.len() as int) =~= s@);
    }
    push_char(&mut out, '"');
    proof {
        assert(out@ =~= quoted_escaped(s@));
    }
    out
}

/// Escapes a value for storage, mapping an empty value to `NULL`.
pub fn mysql_escape_nullable(s: &str) -> (r: String)
    ensures
        r@ == spec_escape_nullable(s@),
{
    if s.is_empty() {
        String::from_str("NULL")
    } else {
        mysql_escape(s)
    }
}

} // verus!
