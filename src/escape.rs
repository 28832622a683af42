//! Escaping of file-system paths for use as one unquoted shell word.

use vstd::prelude::*;
use vstd::string::*;

verus! {

/// The characters that a shell would interpret if they stood unescaped
/// in a command line.
pub open spec fn is_shell_special(c: char) -> bool {
    c == ' ' || c == '$' || c == '`' || c == '\\' || c == '"' || c == '\'' || c == '&' || c
        == '|' || c == '*' || c == '?' || c == ';' || c == '<' || c == '>' || c == '(' || c == ')'
        || c == '[' || c == ']' || c == '{' || c == '}' || c == '^' || c == '#' || c == '~'
}

/// The characters on which a POSIX shell splits words.
pub open spec fn is_shell_blank(c: char) -> bool {
    c == ' ' || c == '\t' || c == '\n'
}

/// What one character of a path becomes in the escaped token.
pub open spec fn escape_char(c: char) -> Seq<char> {
    if is_shell_special(c) {
        seq!['\\', c]
    } else {
        seq![c]
    }
}

/// The escaped form of a whole path.
pub open spec fn escaped(s: Seq<char>) -> Seq<char>
    decreases s.len(),
{
    if s.len() == 0 {
        Seq::empty()
    } else {
        escaped(s.drop_last()) + escape_char(s.last())
    }
}

/// Whether the unquoted text `t`, read by a POSIX shell, is one word whose
/// value is `w`: a backslash stands for the character after it, and every
/// other character must be neither blank nor special.
pub open spec fn reads_as_word(t: Seq<char>, w: Seq<char>) -> bool
    decreases t.len(),
{
    if t.len() == 0 {
        w.len() == 0
    } else if t[0] == '\\' {
        &&& t.len() >= 2
        &&& w.len() >= 1
        &&& w[0] == t[1]
        &&& reads_as_word(t.subrange(2, t.len() as int), w.drop_first())
    } else {
        &&& !is_shell_special(t[0])
        &&& !is_shell_blank(t[0])
        &&& w.len() >= 1
        &&& w[0] == t[0]
        &&& reads_as_word(t.drop_first(), w.drop_first())
    }
}

pub fn is_special_char(c: char) -> (r: bool)
    ensures
        r == is_shell_special(c),
{
    c == ' ' || c == '$' || c == '`' || c == '\\' || c == '"' || c == '\'' || c == '&' || c == '|'
        || c == '*' || c == '?' || c == ';' || c == '<' || c == '>' || c == '(' || c == ')' || c
        == '[' || c == ']' || c == '{' || c == '}' || c == '^' || c == '#' || c == '~'
}

/// Prefixes every shell-special character of `path` with a backslash.
pub fn escape_path(path: &str) -> (r: String)
    ensures
        r@ == escaped(path@),
{
    let mut out = String::new();
    let n = path.unicode_len();
    let mut i: usize = 0;
    while i < n
        invariant
            i <= n,
            n == path@.len(),
            out@ == escaped(path@.take(i as int)),
        decreases n - i,
    {
        let c = path.get_char(i);
        if is_special_char(c) {
            proof {
                reveal_strlit("\\");
            }
            out.append("\\");
        }
        out.append(path.substring_char(i, i + 1));
        proof {
            assert(path@.take(i + 1).drop_last() =~= path@.take(i as int));
            assert(path@.subrange(i as int, i + 1) =~= seq![c]);
        }
        i = i + 1;
    }
    proof {
        assert(path@.take(n as int) =~= path@);
    }
    out
}

proof fn lemma_escaped_front(s: Seq<char>)
    requires
        s.len() > 0,
    ensures
        escaped(s) == escape_char(s[0]) + escaped(s.drop_first()),
    decreases s.len(),
{
    if s.len() == 1 {
        assert(s.drop_last() =~= Seq::<char>::empty());
        assert(s.drop_first() =~= Seq::<char>::empty());
        assert(escaped(s.drop_first()) == Seq::<char>::empty());
        assert(escaped(s.drop_last()) == Seq::<char>::empty());
        assert(escaped(s) =~= escape_char(s[0]) + escaped(s.drop_first()));
    } else {
        lemma_escaped_front(s.drop_last());
        assert(s.drop_last().drop_first() =~= s.drop_first().drop_last());
        assert(s.drop_first().last() == s.last());
        assert(s.drop_last()[0] == s[0]);
        assert(escaped(s) =~= escape_char(s[0]) + escaped(s.drop_first()));
    }
}

proof fn lemma_escaped_reads(p: Seq<char>)
    requires
        forall|i: int| 0 <= i < p.len() ==> p[i] != '\t' && p[i] != '\n',
    ensures
        reads_as_word(escaped(p), p),
    decreases p.len(),
{
    if p.len() == 0 {
        assert(escaped(p) == Seq::<char>::empty());
    } else {
        let rest = p.drop_first();
        lemma_escaped_front(p);
        lemma_escaped_reads(rest);
        let t = escaped(p);
        if is_shell_special(p[0]) {
            assert(t.subrange(2, t.len() as int) =~= escaped(rest));
        } else {
            assert(t.drop_first() =~= escaped(rest));
        }
    }
}

/// A non-empty path without tabs or newlines, once escaped, reads back in a
/// POSIX shell as exactly one word whose value is the original path.
pub proof fn lemma_escape_is_one_word(p: Seq<char>)
    requires
        p.len() > 0,
        forall|i: int| 0 <= i < p.len() ==> p[i] != '\t' && p[i] != '\n',
    ensures
        reads_as_word(escaped(p), p),
        escaped(p).len() > 0,
{
    lemma_escaped_reads(p);
    lemma_escaped_front(p);
}

} // verus!
