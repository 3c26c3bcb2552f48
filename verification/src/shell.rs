//! Quoting of values for POSIX shell command lines.

use vstd::prelude::*;

use crate::text::owned;

verus! {

/// What a single quote inside a quoted value becomes: close the single quotes,
/// a double-quoted single quote, and reopen the single quotes.
pub const QUOTE_ESCAPE: &'static str = "'\"'\"'";

/// The replacement of one character inside single quotes.
pub open spec fn escape_char(c: char) -> Seq<char> {
    if c == '\'' {
        QUOTE_ESCAPE@
    } else {
        seq![c]
    }
}

/// `s` with every single quote replaced by `'"'"'`.
pub open spec fn quote_escape(s: Seq<char>) -> Seq<char>
    decreases s.len(),
{
    if s.len() == 0 {
        Seq::empty()
    } else {
        escape_char(s[0]) + quote_escape(s.drop_first())
    }
}

/// `value` as one single-quoted shell word.
pub open spec fn spec_shell_quote(value: Seq<char>) -> Seq<char> {
    seq!['\''] + quote_escape(value) + seq!['\'']
}

/// Escaping distributes over concatenation.
pub proof fn lemma_quote_escape_append(a: Seq<char>, b: Seq<char>)
    ensures
        quote_escape(a + b) == quote_escape(a) + quote_escape(b),
    decreases a.len(),
{
    if a.len() == 0 {
        assert(a + b =~= b);
        assert(quote_escape(a) =~= Seq::<char>::empty());
        assert(quote_escape(a) + quote_escape(b) =~= quote_escape(b));
    } else {
        lemma_quote_escape_append(a.drop_first(), b);
        assert((a + b).drop_first() =~= a.drop_first() + b);
        assert((a + b)[0] == a[0]);
        assert(quote_escape(a + b) =~= escape_char(a[0]) + quote_escape(a.drop_first() + b));
    }
}

/// Quotes `value` for a POSIX shell: wraps it in single quotes and writes each single
/// quote inside it as `'"'"'`.
pub fn shell_quote(value: &str) -> (res: String)
    ensures
        res@ == spec_shell_quote(value@),
{
    let n: usize = value.unicode_len();
    let mut out: String = String::new();
    out.push('\'');
    let mut i: usize = 0;
    assert(value@.take(0) =~= Seq::<char>::empty());
    assert(out@ =~= seq!['\''] + quote_escape(value@.take(0)));
    while i < n
        invariant
            n == value@.len(),
            i <= n,
            out@ == seq!['\''] + quote_escape(value@.take(i as int)),
        decreases n - i,
    {
        let c: char = value.get_char(i);
        if c == '\'' {
            out.push_str(QUOTE_ESCAPE);
        } else {
            out.push(c);
        }
        proof {
            let single = seq![c];
            lemma_quote_escape_append(value@.take(i as int), single);
            assert(value@.take(i + 1) =~= value@.take(i as int) + single);
            assert(single.drop_first() =~= Seq::<char>::empty());
            assert(quote_escape(single.drop_first()) =~= Seq::<char>::empty());
            assert(quote_escape(single) == escape_char(c) + quote_escape(single.drop_first()));
            assert(quote_escape(single) =~= escape_char(c));
            assert(out@ =~= seq!['\''] + quote_escape(value@.take(i + 1)));
        }
        i = i + 1;
    }
    out.push('\'');
    assert(value@.take(n as int) =~= value@);
    assert(out@ =~= spec_shell_quote(value@));
    out
}

/// Where a POSIX shell stands while it reads a word.
pub enum QuoteState {
    Unquoted,
    InSingle,
    InDouble,
}

/// `c` followed by the word read so far, if the word reads at all.
pub open spec fn prepend(c: char, word: Option<Seq<char>>) -> Option<Seq<char>> {
    match word {
        Some(w) => Some(seq![c] + w),
        None => None,
    }
}

/// The value of a shell word made only of quoted parts, as a POSIX shell reads it:
/// inside single quotes every character but `'` stands for itself; inside double quotes
/// every character but `"`, `$`, a backquote and a backslash stands for itself.
/// Anything unquoted other than a quote, or an unterminated quote, makes it `None`.
pub open spec fn read_quoted_word(s: Seq<char>, state: QuoteState) -> Option<Seq<char>>
    decreases s.len(),
{
    if s.len() == 0 {
        match state {
            QuoteState::Unquoted => Some(Seq::empty()),
            _ => None,
        }
    } else {
        let c = s[0];
        let rest = s.drop_first();
        match state {
            QuoteState::Unquoted => if c == '\'' {
                read_quoted_word(rest, QuoteState::InSingle)
            } else if c == '"' {
                read_quoted_word(rest, QuoteState::InDouble)
            } else {
                None
            },
            QuoteState::InSingle => if c == '\'' {
                read_quoted_word(rest, QuoteState::Unquoted)
            } else {
                prepend(c, read_quoted_word(rest, QuoteState::InSingle))
            },
            QuoteState::InDouble => if c == '"' {
                read_quoted_word(rest, QuoteState::Unquoted)
            } else if c == '$' || c == '`' || c == '\\' {
                None
            } else {
                prepend(c, read_quoted_word(rest, QuoteState::InDouble))
            },
        }
    }
}

proof fn lemma_read_escaped(v: Seq<char>, rest: Seq<char>)
    ensures
        read_quoted_word(quote_escape(v) + rest, QuoteState::InSingle) == match read_quoted_word(
            rest,
            QuoteState::InSingle,
        ) {
            Some(w) => Some(v + w),
            None => None,
        },
    decreases v.len(),
{
    if v.len() == 0 {
        assert(quote_escape(v) + rest =~= rest);
        match read_quoted_word(rest, QuoteState::InSingle) {
            Some(w) => { assert(v + w =~= w); },
            None => {},
        }
    } else {
        let c = v[0];
        let tail = v.drop_first();
        lemma_read_escaped(tail, rest);
        let after = quote_escape(tail) + rest;
        assert(quote_escape(v) + rest =~= escape_char(c) + after);
        if c == '\'' {
            reveal_strlit("'\"'\"'");
            let s0 = escape_char(c) + after;
            assert(s0[0] == '\'');
            assert(s0.drop_first()[0] == '"');
            assert(s0.drop_first().drop_first()[0] == '\'');
            assert(s0.drop_first().drop_first().drop_first()[0] == '"');
            assert(s0.drop_first().drop_first().drop_first().drop_first()[0] == '\'');
            assert(s0.drop_first().drop_first().drop_first().drop_first().drop_first() =~= after);
            let s3 = s0.drop_first().drop_first().drop_first();
            assert(read_quoted_word(s3, QuoteState::InDouble) == read_quoted_word(
                s3.drop_first(),
                QuoteState::Unquoted,
            ));
            assert(read_quoted_word(s3.drop_first(), QuoteState::Unquoted) == read_quoted_word(
                after,
                QuoteState::InSingle,
            ));
            let s2 = s0.drop_first().drop_first();
            assert(read_quoted_word(s2, QuoteState::InDouble) == prepend(
                '\'',
                read_quoted_word(s3, QuoteState::InDouble),
            ));
            assert(read_quoted_word(s0.drop_first(), QuoteState::Unquoted) == read_quoted_word(
                s2,
                QuoteState::InDouble,
            ));
            assert(read_quoted_word(s0, QuoteState::InSingle) == read_quoted_word(
                s0.drop_first(),
                QuoteState::Unquoted,
            ));
            assert(read_quoted_word(s0, QuoteState::InSingle) == prepend(
                c,
                read_quoted_word(after, QuoteState::InSingle),
            ));
        } else {
            let s0 = escape_char(c) + after;
            assert(s0[0] == c);
            assert(s0.drop_first() =~= after);
            assert(read_quoted_word(s0, QuoteState::InSingle) == prepend(
                c,
                read_quoted_word(after, QuoteState::InSingle),
            ));
        }
        match read_quoted_word(rest, QuoteState::InSingle) {
            Some(w) => { assert(v + w =~= seq![c] + (tail + w)); },
            None => {},
        }
    }
}

/// A quoted value reads back, as one shell word, as exactly the value: the shell
/// expands nothing inside it and it cannot end the command early.
pub proof fn lemma_shell_quote_reads_back(value: Seq<char>)
    ensures
        read_quoted_word(spec_shell_quote(value), QuoteState::Unquoted) == Some(value),
{
    let q = spec_shell_quote(value);
    let closing = seq!['\''];
    assert(q.drop_first() =~= quote_escape(value) + closing);
    lemma_read_escaped(value, closing);
    assert(closing.drop_first() =~= Seq::<char>::empty());
    assert(read_quoted_word(closing.drop_first(), QuoteState::Unquoted) == Some(Seq::<char>::empty()));
    assert(read_quoted_word(closing, QuoteState::InSingle) == Some(Seq::<char>::empty()));
    assert(value + Seq::<char>::empty() =~= value);
}

/// A quoted value followed by more of the same word reads as the value followed by what
/// the rest reads as.
pub proof fn lemma_quoted_then(value: Seq<char>, rest: Seq<char>)
    ensures
        read_quoted_word(spec_shell_quote(value) + rest, QuoteState::Unquoted) == match read_quoted_word(
            rest,
            QuoteState::Unquoted,
        ) {
            Some(w) => Some(value + w),
            None => None,
        },
{
    let closing = seq!['\''] + rest;
    let s = spec_shell_quote(value) + rest;
    assert(s[0] == '\'');
    assert(s.drop_first() =~= quote_escape(value) + closing);
    lemma_read_escaped(value, closing);
    assert(closing[0] == '\'');
    assert(closing.drop_first() =~= rest);
    assert(read_quoted_word(closing, QuoteState::InSingle) == read_quoted_word(rest, QuoteState::Unquoted));
}

/// The command line shown for the Go build of `source` into `artifact`.
pub open spec fn spec_go_build_preview(source: Seq<char>, artifact: Seq<char>) -> Seq<char> {
    "GOOS=linux GOARCH=amd64 go build -o "@ + spec_shell_quote(artifact) + " "@
        + spec_shell_quote(source)
}

/// `GOOS=linux GOARCH=amd64 go build -o '<artifact>' '<source>'`.
pub fn go_build_command_preview(source: &str, artifact: &str) -> (res: String)
    ensures
        res@ == spec_go_build_preview(source@, artifact@),
{
    let mut out = owned("GOOS=linux GOARCH=amd64 go build -o ");
    out.push_str(shell_quote(artifact).as_str());
    out.push_str(" ");
    out.push_str(shell_quote(source).as_str());
    out
}

} // verus!
