//! Character-level string helpers shared by the two buffer types.
//!
//! Columns and lengths count scalar characters, not bytes; every helper is
//! specified against the `Seq<char>` view of its strings.

use vstd::prelude::*;
use vstd::string::*;

verus! {

/// Relies on `String::push`: appends exactly the given character.
#[verifier::external_body]
pub(crate) fn push_char(s: &mut String, c: char)
    ensures
        final(s)@ == old(s)@.push(c),
{
    s.push(c);
}

/// Character-for-character string equality.
pub fn str_eq(a: &str, b: &str) -> (r: bool)
    ensures
        r == (a@ == b@),
{
    let alen = a.unicode_len();
    let blen = b.unicode_len();
    if alen != blen {
        return false;
    }
    let mut i: usize = 0;
    while i < alen
        invariant
            0 <= i <= alen,
            alen == a@.len(),
            alen == b@.len(),
            forall|j: int| 0 <= j < i ==> a@[j] == b@[j],
        decreases alen - i,
    {
        if a.get_char(i) != b.get_char(i) {
            return false;
        }
        i = i + 1;
    }
    proof {
        assert(a@ =~= b@);
    }
    true
}

/// A copy of `line` with `ch` spliced in before position `col`.
pub fn line_insert(line: &str, col: usize, ch: char) -> (r: String)
    requires
        col <= line@.len(),
    ensures
        r@ == line@.insert(col as int, ch),
{
    let n = line.unicode_len();
    let mut s = String::from_str(line.substring_char(0, col));
    push_char(&mut s, ch);
    let r = s.concat(line.substring_char(col, n));
    proof {
        assert(r@ =~= line@.insert(col as int, ch));
    }
    r
}

/// A copy of `line` with the character at position `col` removed; returns the
/// removed character as well.
pub fn line_remove(line: &str, col: usize) -> (r: (String, char))
    requires
        col < line@.len(),
    ensures
        r.0@ == line@.remove(col as int),
        r.1 == line@[col as int],
{
    let n = line.unicode_len();
    let c = line.get_char(col);
    let s = String::from_str(line.substring_char(0, col)).concat(
        line.substring_char(col + 1, n),
    );
    proof {
        assert(s@ =~= line@.remove(col as int));
    }
    (s, c)
}

/// The position of the first line break in `s`, or `s.len()` if there is none.
pub open spec fn first_nl(s: Seq<char>) -> int
    decreases s.len(),
{
    if s.len() == 0 {
        0
    } else if s[0] == '\n' {
        0
    } else {
        1 + first_nl(s.drop_first())
    }
}

pub proof fn lemma_first_nl_bounds(s: Seq<char>)
    ensures
        0 <= first_nl(s) <= s.len(),
        forall|j: int| 0 <= j < first_nl(s) ==> s[j] != '\n',
        first_nl(s) < s.len() ==> s[first_nl(s)] == '\n',
    decreases s.len(),
{
    if s.len() != 0 && s[0] != '\n' {
        lemma_first_nl_bounds(s.drop_first());
        assert forall|j: int| 0 <= j < first_nl(s) implies s[j] != '\n' by {
            if j >= 1 {
                assert(s[j] == s.drop_first()[j - 1]);
            }
        }
        if first_nl(s) < s.len() {
            assert(s[first_nl(s)] == s.drop_first()[first_nl(s) - 1]);
        }
    }
}

/// With no line break in `pre`, the first break of `pre + rest` lies in `rest`.
proof fn lemma_first_nl_concat(pre: Seq<char>, rest: Seq<char>)
    requires
        forall|j: int| 0 <= j < pre.len() ==> pre[j] != '\n',
    ensures
        first_nl(pre + rest) == pre.len() + first_nl(rest),
    decreases pre.len(),
{
    if pre.len() == 0 {
        assert(pre + rest =~= rest);
    } else {
        assert((pre + rest)[0] == pre[0]);
        assert((pre + rest).drop_first() =~= pre.drop_first() + rest);
        lemma_first_nl_concat(pre.drop_first(), rest);
    }
}

/// A line as stored after splitting: a carriage return that sat directly
/// before the line break is dropped with it.
pub open spec fn strip_cr(line: Seq<char>) -> Seq<char> {
    if line.len() > 0 && line.last() == '\r' {
        line.drop_last()
    } else {
        line
    }
}

/// `s` divided at its line breaks, the way the buffers read text content:
/// a break ends a line (a carriage return directly before it goes with it),
/// and a final line without a break still counts, kept as it stands.
pub open spec fn spec_lines(s: Seq<char>) -> Seq<Seq<char>>
    decreases s.len(),
{
    if s.len() == 0 {
        Seq::empty()
    } else {
        let i = first_nl(s);
        if 0 <= i && i < s.len() {
            seq![strip_cr(s.take(i))] + spec_lines(s.skip(i + 1))
        } else {
            seq![s]
        }
    }
}

proof fn lemma_spec_lines_no_nl(s: Seq<char>)
    requires
        s.len() > 0,
        forall|j: int| 0 <= j < s.len() ==> s[j] != '\n',
    ensures
        spec_lines(s) == seq![s],
{
    lemma_first_nl_bounds(s);
    if first_nl(s) < s.len() {
        assert(s[first_nl(s)] == '\n');
    }
}

proof fn lemma_spec_lines_step(pre: Seq<char>, rest: Seq<char>)
    requires
        forall|j: int| 0 <= j < pre.len() ==> pre[j] != '\n',
        rest.len() > 0,
        rest[0] == '\n',
    ensures
        spec_lines(pre + rest) == seq![strip_cr(pre)] + spec_lines(rest.drop_first()),
{
    lemma_first_nl_concat(pre, rest);
    let s = pre + rest;
    assert(first_nl(s) == pre.len());
    assert(s.len() > 0);
    assert(s.take(pre.len() as int) =~= pre);
    assert(s.skip(pre.len() as int + 1) =~= rest.drop_first());
}

/// A copy of `s` without its last character.
pub fn string_drop_last(s: &String) -> (r: String)
    ensures
        s@.len() > 0 ==> r@ == s@.drop_last(),
        s@.len() == 0 ==> r@ == s@,
{
    let len = s.as_str().unicode_len();
    if len > 0 {
        let r = s.as_str().substring_char(0, len - 1).to_owned();
        proof {
            assert(r@ =~= s@.drop_last());
        }
        r
    } else {
        s.clone()
    }
}

/// Divides text into its lines. A trailing line break does not open a new
/// line; a carriage return directly before a break is dropped with it.
pub fn split_lines(content: &str) -> (r: Vec<String>)
    ensures
        r.deep_view() == spec_lines(content@),
{
    let n = content.unicode_len();
    let mut out: Vec<String> = Vec::new();
    let mut cur = String::new();
    let mut j: usize = 0;
    proof {
        assert(out.deep_view() =~= Seq::<Seq<char>>::empty());
        assert(cur@ + content@.skip(0) =~= content@);
        assert(Seq::<Seq<char>>::empty() + spec_lines(content@) =~= spec_lines(content@));
    }
    while j < n
        invariant
            0 <= j <= n,
            n == content@.len(),
            forall|k: int| 0 <= k < cur@.len() ==> cur@[k] != '\n',
            spec_lines(content@) == out.deep_view() + spec_lines(cur@ + content@.skip(j as int)),
        decreases n - j,
    {
        let c = content.get_char(j);
        if c == '\n' {
            proof {
                let rest = content@.skip(j as int);
                assert(rest[0] == '\n');
                lemma_spec_lines_step(cur@, rest);
                assert(rest.drop_first() =~= content@.skip(j + 1));
            }
            let cur_len = cur.as_str().unicode_len();
            let finished = if cur_len > 0 && cur.as_str().get_char(cur_len - 1) == '\r' {
                string_drop_last(&cur)
            } else {
                cur
            };
            proof {
                assert(finished@ =~= strip_cr(cur@));
            }
            let ghost old_dv = out.deep_view();
            out.push(finished);
            proof {
                assert(out.deep_view() =~= old_dv.push(strip_cr(cur@)));
            }
            cur = String::new();
        } else {
            proof {
                assert(cur@.push(c) + content@.skip(j + 1) =~= cur@ + content@.skip(j as int));
            }
            push_char(&mut cur, c);
        }
        j = j + 1;
    }
    proof {
        assert(cur@ + content@.skip(n as int) =~= cur@);
    }
    if cur.unicode_len() > 0 {
        proof {
            lemma_spec_lines_no_nl(cur@);
        }
        let ghost old_dv = out.deep_view();
        let ghost last = cur@;
        out.push(cur);
        proof {
            assert(out.deep_view() =~= old_dv.push(last));
        }
    }
    out
}

/// The lines of a buffer joined with single line breaks.
pub open spec fn spec_join(lines: Seq<Seq<char>>) -> Seq<char>
    decreases lines.len(),
{
    if lines.len() == 0 {
        Seq::empty()
    } else if lines.len() == 1 {
        lines[0]
    } else {
        spec_join(lines.drop_last()).push('\n') + lines.last()
    }
}

/// Joins lines with `'\n'` between each pair.
pub fn join_lines(lines: &Vec<String>) -> (r: String)
    ensures
        r@ == spec_join(lines.deep_view()),
{
    let mut s = String::new();
    if lines.len() == 0 {
        return s;
    }
    s.append(lines[0].as_str());
    let mut i: usize = 1;
    while i < lines.len()
        invariant
            1 <= i <= lines.len(),
            s@ == spec_join(lines.deep_view().take(i as int)),
        decreases lines.len() - i,
    {
        push_char(&mut s, '\n');
        s.append(lines[i].as_str());
        proof {
            let dv = lines.deep_view();
            assert(dv.take(i + 1).drop_last() =~= dv.take(i as int));
            assert(dv.take(i + 1).last() == dv[i as int]);
        }
        i = i + 1;
    }
    proof {
        assert(lines.deep_view().take(lines@.len() as int) =~= lines.deep_view());
    }
    s
}

/// The decimal digits of `n`, most significant first.
pub open spec fn spec_dec(n: nat) -> Seq<char>
    decreases n,
{
    if n < 10 {
        seq![spec_digit_char(n as int)]
    } else {
        spec_dec(n / 10).push(spec_digit_char((n % 10) as int))
    }
}

pub open spec fn spec_digit_char(d: int) -> char {
    if d == 0 {
        '0'
    } else if d == 1 {
        '1'
    } else if d == 2 {
        '2'
    } else if d == 3 {
        '3'
    } else if d == 4 {
        '4'
    } else if d == 5 {
        '5'
    } else if d == 6 {
        '6'
    } else if d == 7 {
        '7'
    } else if d == 8 {
        '8'
    } else {
        '9'
    }
}

fn digit_char(d: usize) -> (c: char)
    requires
        d < 10,
    ensures
        c == spec_digit_char(d as int),
{
    if d == 0 {
        '0'
    } else if d == 1 {
        '1'
    } else if d == 2 {
        '2'
    } else if d == 3 {
        '3'
    } else if d == 4 {
        '4'
    } else if d == 5 {
        '5'
    } else if d == 6 {
        '6'
    } else if d == 7 {
        '7'
    } else if d == 8 {
        '8'
    } else {
        '9'
    }
}

/// `n` written in decimal.
pub fn usize_to_string(n: usize) -> (r: String)
    ensures
        r@ == spec_dec(n as nat),
    decreases n,
{
    if n < 10 {
        let mut s = String::new();
        push_char(&mut s, digit_char(n));
        proof {
            assert(s@ =~= spec_dec(n as nat));
        }
        s
    } else {
        let mut s = usize_to_string(n / 10);
        push_char(&mut s, digit_char(n % 10));
        s
    }
}

} // verus!
