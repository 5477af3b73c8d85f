//! Character-level text helpers shared by the parser and the bot.
use vstd::prelude::*;
use vstd::string::*;

verus! {

/// How one character of a command line is written to the process input.
pub open spec fn escaped_char(c: char) -> Seq<char> {
    if c == '\n' {
        seq!['\\', 'n']
    } else if c == '\r' {
        seq!['\\', 'r']
    } else {
        seq![c]
    }
}

/// A command line with newlines and carriage returns written as `\n` and `\r`.
pub open spec fn escaped(s: Seq<char>) -> Seq<char>
    decreases s.len(),
{
    if s.len() == 0 {
        Seq::empty()
    } else {
        escaped(s.drop_last()) + escaped_char(s.last())
    }
}

/// Like `escaped_char`, but a backslash is doubled as well.
pub open spec fn chat_escaped_char(c: char) -> Seq<char> {
    if c == '\\' {
        seq!['\\', '\\']
    } else {
        escaped_char(c)
    }
}

/// Chat text with backslashes doubled and line breaks escaped.
pub open spec fn chat_escaped(s: Seq<char>) -> Seq<char>
    decreases s.len(),
{
    if s.len() == 0 {
        Seq::empty()
    } else {
        chat_escaped(s.drop_last()) + chat_escaped_char(s.last())
    }
}

/// Escapes newlines and carriage returns, so that the text stays one line.
pub fn escape_line(s: &str) -> (r: String)
    ensures
        r@ == escaped(s@),
{
    let n = s.unicode_len();
    let mut r = String::new();
    let mut i: usize = 0;
    while i < n
        invariant
            n == s@.len(),
            i <= n,
            r@ == escaped(s@.subrange(0, i as int)),
        decreases n - i,
    {
        let c = s.get_char(i);
        proof {
            reveal_strlit("\\n");
            reveal_strlit("\\r");
            assert(s@.subrange(0, i + 1).drop_last() == s@.subrange(0, i as int));
        }
        if c == '\n' {
            r.append("\\n");
        } else if c == '\r' {
            r.append("\\r");
        } else {
            let one = s.substring_char(i, i + 1);
            assert(one@ == seq![c]);
            r.append(one);
        }
        i += 1;
    }
    assert(s@.subrange(0, n as int) == s@);
    r
}

/// Escapes backslashes and line breaks of chat text.
pub fn escape_chat(s: &str) -> (r: String)
    ensures
        r@ == chat_escaped(s@),
{
    let n = s.unicode_len();
    let mut r = String::new();
    let mut i: usize = 0;
    while i < n
        invariant
            n == s@.len(),
            i <= n,
            r@ == chat_escaped(s@.subrange(0, i as int)),
        decreases n - i,
    {
        let c = s.get_char(i);
        proof {
            reveal_strlit("\\n");
            reveal_strlit("\\r");
            reveal_strlit("\\\\");
            assert(s@.subrange(0, i + 1).drop_last() == s@.subrange(0, i as int));
        }
        if c == '\\' {
            r.append("\\\\");
        } else if c == '\n' {
            r.append("\\n");
        } else if c == '\r' {
            r.append("\\r");
        } else {
            let one = s.substring_char(i, i + 1);
            assert(one@ == seq![c]);
            r.append(one);
        }
        i += 1;
    }
    assert(s@.subrange(0, n as int) == s@);
    r
}

/// Whether two texts hold the same characters.
pub fn same_text(a: &str, b: &str) -> (r: bool)
    ensures
        r == (a@ == b@),
{
    let n = a.unicode_len();
    if n != b.unicode_len() {
        return false;
    }
    let mut i: usize = 0;
    while i < n
        invariant
            n == a@.len(),
            n == b@.len(),
            i <= n,
            forall|k: int| 0 <= k < i ==> a@[k] == b@[k],
        decreases n - i,
    {
        if a.get_char(i) != b.get_char(i) {
            return false;
        }
        i += 1;
    }
    assert(a@ =~= b@);
    true
}

} // verus!
