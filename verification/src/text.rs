//! Text building blocks: comparison, decimal numbers, and text indented line
//! by line for display.

use vstd::prelude::*;

verus! {

/// `String::push`: the character is appended to the end of the string.
pub assume_specification[ String::push ](s: &mut String, c: char)
    ensures
        final(s)@ == old(s)@.push(c),
;

/// The ten decimal digits, in order.
pub open spec fn digits() -> Seq<char> {
    seq!['0', '1', '2', '3', '4', '5', '6', '7', '8', '9']
}

/// The character that writes a decimal digit.
pub open spec fn digit_char(d: int) -> char
    recommends
        0 <= d < 10,
{
    digits()[d]
}

/// A natural number written in decimal, without leading zeros.
pub open spec fn decimal(n: nat) -> Seq<char>
    decreases n,
{
    if n < 10 {
        seq![digit_char(n as int)]
    } else {
        decimal(n / 10).push(digit_char((n % 10) as int))
    }
}

fn digit(d: u64) -> (c: char)
    requires
        d < 10,
    ensures
        c == digit_char(d as int),
{
    if d == 0 {
        '0'
    } else if d == 1 {
        '1'
    } else if d == 2 {
        '2'
    } else if d == 3 {
        '3'
    } else if d == 4 {
        '4'
    } else if d == 5 {
        '5'
    } else if d == 6 {
        '6'
    } else if d == 7 {
        '7'
    } else if d == 8 {
        '8'
    } else {
        '9'
    }
}

/// Appends `n` in decimal to `out`.
pub fn push_decimal(out: &mut String, n: u64)
    ensures
        final(out)@ == old(out)@ + decimal(n as nat),
    decreases n,
{
    if n >= 10 {
        push_decimal(out, n / 10);
    }
    out.push(digit(n % 10));
}

/// `n` written in decimal.
pub fn decimal_string(n: u64) -> (s: String)
    ensures
        s@ == decimal(n as nat),
{
    let mut s = String::new();
    push_decimal(&mut s, n);
    s
}

/// Whether two texts hold the same characters.
pub fn same_text(a: &str, b: &str) -> (same: bool)
    ensures
        same == (a@ == b@),
{
    let left = String::from_str(a);
    let right = String::from_str(b);
    left == right
}

/// The view of a text that may be absent.
pub open spec fn opt_view(text: Option<String>) -> Option<Seq<char>> {
    match text {
        Some(s) => Some(s@),
        None => None,
    }
}

/// The position of the first line feed of `s`, its length where it holds none.
pub open spec fn first_newline(s: Seq<char>) -> nat
    decreases s.len(),
{
    if s.len() == 0 || s[0] == '\n' {
        0
    } else {
        1 + first_newline(s.skip(1))
    }
}

/// A line without the carriage return that ended it, if one did.
pub open spec fn strip_cr(line: Seq<char>) -> Seq<char> {
    if line.len() > 0 && line.last() == '\r' {
        line.drop_last()
    } else {
        line
    }
}

/// The lines of a text. A line ends at a line feed, or at a carriage return
/// directly followed by one; the text's last line needs no ending, and a text
/// that ends with a line ending has no empty line after it.
pub open spec fn lines_of(s: Seq<char>) -> Seq<Seq<char>>
    decreases s.len(),
{
    let k = first_newline(s);
    if s.len() == 0 {
        Seq::empty()
    } else if k >= s.len() {
        seq![s]
    } else {
        seq![strip_cr(s.take(k as int))] + lines_of(s.skip((k + 1) as int))
    }
}

/// Lines joined by line feeds, each behind two spaces.
pub open spec fn indented_lines(lines: Seq<Seq<char>>) -> Seq<char>
    decreases lines.len(),
{
    if lines.len() == 0 {
        Seq::empty()
    } else if lines.len() == 1 {
        seq![' ', ' '] + lines[0]
    } else {
        indented_lines(lines.drop_last()) + seq!['\n', ' ', ' '] + lines.last()
    }
}

/// A text with each of its lines behind two spaces.
pub open spec fn indented(s: Seq<char>) -> Seq<char> {
    indented_lines(lines_of(s))
}

proof fn lemma_first_newline_bounds(s: Seq<char>)
    ensures
        0 <= first_newline(s) <= s.len(),
        first_newline(s) < s.len() ==> s[first_newline(s) as int] == '\n',
        forall|i: int| 0 <= i < first_newline(s) ==> s[i] != '\n',
    decreases s.len(),
{
    if s.len() == 0 || s[0] == '\n' {
    } else {
        lemma_first_newline_bounds(s.skip(1));
        assert forall|i: int| 0 <= i < first_newline(s) implies s[i] != '\n' by {
            if i > 0 {
                assert(s[i] == s.skip(1)[i - 1]);
            }
        }
    }
}

proof fn lemma_first_newline_is(s: Seq<char>, k: int)
    requires
        0 <= k <= s.len(),
        forall|i: int| 0 <= i < k ==> s[i] != '\n',
        k < s.len() ==> s[k] == '\n',
    ensures
        first_newline(s) == k,
{
    lemma_first_newline_bounds(s);
}

/// Appends the characters of `chars` to `out`.
fn push_chars(out: &mut String, chars: &Vec<char>)
    ensures
        final(out)@ == old(out)@ + chars@,
{
    let mut i: usize = 0;
    while i < chars.len()
        invariant
            i <= chars.len(),
            out@ == old(out)@ + chars@.take(i as int),
        decreases chars.len() - i,
    {
        out.push(chars[i]);
        proof {
            assert(chars@.take(i + 1) == chars@.take(i as int).push(chars@[i as int]));
        }
        i = i + 1;
    }
    proof {
        assert(chars@.take(i as int) == chars@);
    }
}

/// Appends one more indented line to `out`, which holds `done` lines so far.
fn push_line(out: &mut String, line: &Vec<char>, first: bool, Ghost(done): Ghost<Seq<Seq<char>>>)
    requires
        old(out)@ == indented_lines(done),
        first == (done.len() == 0),
    ensures
        final(out)@ == indented_lines(done.push(line@)),
{
    if !first {
        out.push('\n');
    }
    out.push(' ');
    out.push(' ');
    push_chars(out, line);
    proof {
        let all = done.push(line@);
        assert(all.drop_last() == done);
        assert(all.last() == line@);
        if first {
            assert(out@ == seq![' ', ' '] + line@);
        } else {
            assert(out@ == indented_lines(done) + seq!['\n', ' ', ' '] + line@);
        }
    }
}

/// Indents a text for display: each line behind two spaces, the lines joined
/// by line feeds.
pub fn indent_lines(text: &str) -> (out: String)
    ensures
        out@ == indented(text@),
{
    let mut out = String::new();
    let mut line: Vec<char> = Vec::new();
    let mut first = true;
    let ghost mut done: Seq<Seq<char>> = Seq::empty();
    proof {
        assert(line@ + text@.skip(0) == text@);
        assert(done + lines_of(text@) == lines_of(text@));
    }
    for c in it: text.chars()
        invariant
            it.seq() == text@,
            out@ == indented_lines(done),
            first == (done.len() == 0),
            forall|i: int| 0 <= i < line@.len() ==> line@[i] != '\n',
            lines_of(text@) == done + lines_of(line@ + text@.skip(it.index())),
    {
        let ghost rest = text@.skip(it.index());
        let ghost whole = line@ + rest;
        proof {
            assert(rest.len() > 0 && rest[0] == c);
        }
        if c == '\n' {
            proof {
                lemma_first_newline_is(whole, line@.len() as int);
                assert(whole.take(line@.len() as int) == line@);
                assert(whole.skip((line@.len() + 1) as int) == text@.skip(it.index() + 1));
                assert(text@.skip(it.index() + 1) == Seq::<char>::empty() + text@.skip(it.index() + 1));
            }
            let n = line.len();
            if n > 0 && line[n - 1] == '\r' {
                line.pop();
            }
            push_line(&mut out, &line, first, Ghost(done));
            proof {
                done = done.push(line@);
                assert(lines_of(text@) == done + lines_of(text@.skip(it.index() + 1)));
            }
            first = false;
            line = Vec::new();
        } else {
            line.push(c);
            proof {
                assert(line@ + text@.skip(it.index() + 1) == whole);
            }
        }
    }
    proof {
        assert(text@.skip(text@.len() as int) == Seq::<char>::empty());
        assert(line@ + Seq::<char>::empty() == line@);
        if line@.len() > 0 {
            lemma_first_newline_is(line@, line@.len() as int);
        }
    }
    if line.len() > 0 {
        push_line(&mut out, &line, first, Ghost(done));
        proof {
            assert(done + seq![line@] == done.push(line@));
        }
    } else {
        proof {
            assert(done + Seq::<Seq<char>>::empty() == done);
        }
    }
    out
}

} // verus!
