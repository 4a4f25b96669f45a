//! Character-level text handling: trimming, splitting, line breaking and
//! decimal rendering, each stated over `Seq<char>`.
use vstd::prelude::*;

verus! {

/// Whether a character carries the Unicode `White_Space` property, as
/// `char::is_whitespace` decides it.
pub uninterp spec fn unicode_white_space(c: char) -> bool;

/// `char::is_whitespace`: the contract only ties the answer to the name
/// `unicode_white_space`; which characters are white space is not spelled out.
#[verifier::external_body]
pub(crate) fn is_white_space(c: char) -> (r: bool)
    ensures
        r == unicode_white_space(c),
{
    c.is_whitespace()
}

/// The characters of a string slice, in order.
pub fn chars_of(s: &str) -> (r: Vec<char>)
    ensures
        r@ == s@,
{
    let mut out: Vec<char> = Vec::new();
    for c in it: s.chars()
        invariant
            out@ == it.seq().take(it.index()),
    {
        out.push(c);
        assert(out@ =~= it.seq().take(it.index() + 1));
    }
    assert(out@ =~= s@);
    out
}

/// A string made of the given characters, in order (`String::from_iter`).
#[verifier::external_body]
pub(crate) fn string_of(cs: &[char]) -> (r: String)
    ensures
        r@ == cs@,
{
    String::from_iter(cs)
}

/// `str == str`: the two texts hold the same characters.
#[verifier::external_body]
pub(crate) fn str_eq(a: &str, b: &str) -> (r: bool)
    ensures
        r == (a@ == b@),
{
    a == b
}

/// What a trim removes: white space when `target` is `None`, else that one character.
pub open spec fn trimmed_away(target: Option<char>, c: char) -> bool {
    match target {
        None => unicode_white_space(c),
        Some(t) => c == t,
    }
}

pub open spec fn strip_start(s: Seq<char>, target: Option<char>) -> Seq<char>
    decreases s.len(),
{
    if s.len() > 0 && trimmed_away(target, s[0]) {
        strip_start(s.drop_first(), target)
    } else {
        s
    }
}

pub open spec fn strip_end(s: Seq<char>, target: Option<char>) -> Seq<char>
    decreases s.len(),
{
    if s.len() > 0 && trimmed_away(target, s.last()) {
        strip_end(s.drop_last(), target)
    } else {
        s
    }
}

/// `str::trim`: leading and trailing white space removed.
pub open spec fn trim(s: Seq<char>) -> Seq<char> {
    strip_end(strip_start(s, None), None)
}

/// `str::trim_matches(c)`: every leading and trailing `c` removed.
pub open spec fn trim_matches(s: Seq<char>, c: char) -> Seq<char> {
    strip_end(strip_start(s, Some(c)), Some(c))
}

/// Position of the first `c` in `s`, or `s.len()` when there is none.
pub open spec fn index_of(s: Seq<char>, c: char) -> int
    decreases s.len(),
{
    if s.len() == 0 {
        0
    } else if s[0] == c {
        0
    } else {
        1 + index_of(s.drop_first(), c)
    }
}

pub proof fn lemma_index_of(s: Seq<char>, c: char)
    ensures
        0 <= index_of(s, c) <= s.len(),
        index_of(s, c) < s.len() ==> s[index_of(s, c)] == c,
        forall|k: int| 0 <= k < index_of(s, c) ==> s[k] != c,
    decreases s.len(),
{
    if s.len() > 0 && s[0] != c {
        lemma_index_of(s.drop_first(), c);
        assert forall|k: int| 0 <= k < index_of(s, c) implies s[k] != c by {
            if k > 0 {
                assert(s[k] == s.drop_first()[k - 1]);
            }
        }
    }
}

/// `str::split_once(c)`: the text before and after the first `c`.
pub open spec fn split_once(s: Seq<char>, c: char) -> Option<(Seq<char>, Seq<char>)> {
    let i = index_of(s, c);
    if i < s.len() {
        Some((s.subrange(0, i), s.subrange(i + 1, s.len() as int)))
    } else {
        None
    }
}

/// One line without its `"\r"` of a `"\r\n"` ending.
pub open spec fn strip_cr(l: Seq<char>) -> Seq<char> {
    if l.len() > 0 && l.last() == '\r' {
        l.drop_last()
    } else {
        l
    }
}

/// `str::lines`: the text split at `"\n"` and `"\r\n"`; a final line ending
/// adds no empty line.
pub open spec fn lines(s: Seq<char>) -> Seq<Seq<char>>
    decreases s.len(),
{
    if s.len() == 0 {
        seq![]
    } else {
        let i = index_of(s, '\n');
        proof {
            lemma_index_of(s, '\n');
        }
        if i < s.len() {
            seq![strip_cr(s.subrange(0, i))] + lines(s.subrange(i + 1, s.len() as int))
        } else {
            seq![s]
        }
    }
}

/// The decimal digit for `d < 10`.
pub open spec fn digit_char(d: nat) -> char {
    if d == 0 { '0' }
    else if d == 1 { '1' }
    else if d == 2 { '2' }
    else if d == 3 { '3' }
    else if d == 4 { '4' }
    else if d == 5 { '5' }
    else if d == 6 { '6' }
    else if d == 7 { '7' }
    else if d == 8 { '8' }
    else { '9' }
}

/// The decimal rendering of a natural number, without sign or leading zeros.
pub open spec fn decimal(n: nat) -> Seq<char>
    decreases n,
{
    if n < 10 {
        seq![digit_char(n)]
    } else {
        decimal(n / 10).push(digit_char(n % 10))
    }
}

fn digit_of(d: u64) -> (c: char)
    requires
        d < 10,
    ensures
        c == digit_char(d as nat),
{
    if d == 0 { '0' }
    else if d == 1 { '1' }
    else if d == 2 { '2' }
    else if d == 3 { '3' }
    else if d == 4 { '4' }
    else if d == 5 { '5' }
    else if d == 6 { '6' }
    else if d == 7 { '7' }
    else if d == 8 { '8' }
    else { '9' }
}

fn push_decimal(n: u64, out: &mut Vec<char>)
    ensures
        final(out)@ == old(out)@ + decimal(n as nat),
    decreases n,
{
    if n >= 10 {
        push_decimal(n / 10, out);
    }
    out.push(digit_of(n % 10));
    proof {
        if n < 10 {
            assert(old(out)@ + decimal(n as nat) =~= old(out)@.push(digit_char(n as nat)));
        } else {
            assert((old(out)@ + decimal((n / 10) as nat)).push(digit_char((n % 10) as nat))
                =~= old(out)@ + decimal(n as nat));
        }
    }
}

/// Decimal text of an unsigned integer, as `u64::to_string` writes it.
pub fn u64_to_decimal(n: u64) -> (r: String)
    ensures
        r@ == decimal(n as nat),
{
    let mut v: Vec<char> = Vec::new();
    push_decimal(n, &mut v);
    assert(v@ =~= decimal(n as nat));
    string_of(v.as_slice())
}

/// Text of a boolean, as `bool::to_string` writes it.
pub fn bool_text(b: bool) -> (r: String)
    ensures
        r@ == (if b { "true"@ } else { "false"@ }),
{
    if b {
        "true".to_string()
    } else {
        "false".to_string()
    }
}

/// The characters `s[from..to]`.
pub fn copy_range(s: &Vec<char>, from: usize, to: usize) -> (r: Vec<char>)
    requires
        from <= to <= s.len(),
    ensures
        r@ == s@.subrange(from as int, to as int),
{
    let mut r: Vec<char> = Vec::new();
    let mut i = from;
    while i < to
        invariant
            from <= i <= to <= s.len(),
            r@ == s@.subrange(from as int, i as int),
        decreases to - i,
    {
        r.push(s[i]);
        i += 1;
        assert(r@ =~= s@.subrange(from as int, i as int));
    }
    r
}

fn is_trimmed(target: Option<char>, c: char) -> (r: bool)
    ensures
        r == trimmed_away(target, c),
{
    match target {
        None => is_white_space(c),
        Some(t) => c == t,
    }
}

proof fn lemma_strip_start_step(s: Seq<char>, target: Option<char>, a: int)
    requires
        0 <= a < s.len(),
        trimmed_away(target, s[a]),
    ensures
        strip_start(s.subrange(a, s.len() as int), target)
            == strip_start(s.subrange(a + 1, s.len() as int), target),
{
    assert(s.subrange(a, s.len() as int).drop_first() =~= s.subrange(a + 1, s.len() as int));
}

proof fn lemma_strip_end_step(s: Seq<char>, target: Option<char>, a: int, b: int)
    requires
        0 <= a < b <= s.len(),
        trimmed_away(target, s[b - 1]),
    ensures
        strip_end(s.subrange(a, b), target) == strip_end(s.subrange(a, b - 1), target),
{
    assert(s.subrange(a, b).drop_last() =~= s.subrange(a, b - 1));
}

/// Bounds `(a, b)` of what remains of `s` once `target` is stripped from both ends.
fn strip_bounds(s: &Vec<char>, target: Option<char>) -> (r: (usize, usize))
    ensures
        r.0 <= r.1 <= s.len(),
        s@.subrange(r.0 as int, r.1 as int) == strip_end(strip_start(s@, target), target),
{
    let len = s.len();
    let mut a: usize = 0;
    assert(s@.subrange(0, len as int) =~= s@);
    while a < len && is_trimmed(target, s[a])
        invariant
            a <= len == s.len(),
            strip_start(s@.subrange(a as int, len as int), target) == strip_start(s@, target),
        decreases len - a,
    {
        proof {
            lemma_strip_start_step(s@, target, a as int);
        }
        a += 1;
    }
    let mut b: usize = len;
    while b > a && is_trimmed(target, s[b - 1])
        invariant
            a <= b <= len == s.len(),
            strip_start(s@, target) == s@.subrange(a as int, len as int),
            strip_end(s@.subrange(a as int, b as int), target)
                == strip_end(strip_start(s@, target), target),
        decreases b,
    {
        proof {
            lemma_strip_end_step(s@, target, a as int, b as int);
        }
        b -= 1;
    }
    (a, b)
}

/// `str::trim` on characters.
pub fn trim_chars(s: &Vec<char>) -> (r: Vec<char>)
    ensures
        r@ == trim(s@),
{
    let (a, b) = strip_bounds(s, None);
    copy_range(s, a, b)
}

/// `str::trim_matches(c)` on characters.
pub fn trim_matches_chars(s: &Vec<char>, c: char) -> (r: Vec<char>)
    ensures
        r@ == trim_matches(s@, c),
{
    let (a, b) = strip_bounds(s, Some(c));
    copy_range(s, a, b)
}

/// Position of the first `c` in `s`, or `s.len()`.
pub fn find_char(s: &Vec<char>, c: char) -> (r: usize)
    ensures
        r == index_of(s@, c),
{
    let mut i: usize = 0;
    while i < s.len() && s[i] != c
        invariant
            i <= s.len(),
            forall|k: int| 0 <= k < i ==> s@[k] != c,
        decreases s.len() - i,
    {
        i += 1;
    }
    proof {
        lemma_index_of(s@, c);
        let j = index_of(s@, c);
        if j < i {
            assert(s@[j] == c);
        }
        if (i as int) < j {
            assert(s@[i as int] == c);
        }
    }
    i
}

/// `str::split_once(c)` on characters.
pub fn split_once_chars(s: &Vec<char>, c: char) -> (r: Option<(Vec<char>, Vec<char>)>)
    ensures
        match split_once(s@, c) {
            Some((x, y)) => r matches Some(p) && p.0@ == x && p.1@ == y,
            None => r is None,
        },
{
    let i = find_char(s, c);
    proof {
        lemma_index_of(s@, c);
    }
    if i < s.len() {
        Some((copy_range(s, 0, i), copy_range(s, i + 1, s.len())))
    } else {
        None
    }
}

/// Whether two character sequences are equal.
pub fn chars_eq(a: &Vec<char>, b: &[char]) -> (r: bool)
    ensures
        r == (a@ == b@),
{
    if a.len() != b.len() {
        return false;
    }
    let mut i: usize = 0;
    while i < a.len()
        invariant
            a.len() == b.len(),
            i <= a.len(),
            forall|k: int| 0 <= k < i ==> a@[k] == b@[k],
        decreases a.len() - i,
    {
        if a[i] != b[i] {
            return false;
        }
        i += 1;
    }
    assert(a@ =~= b@);
    true
}

/// `str::lines` on characters.
pub fn lines_of(s: &Vec<char>) -> (r: Vec<Vec<char>>)
    ensures
        r@.len() == lines(s@).len(),
        forall|k: int| 0 <= k < r@.len() ==> (#[trigger] r@[k])@ == lines(s@)[k],
{
    let len = s.len();
    let mut out: Vec<Vec<char>> = Vec::new();
    let mut start: usize = 0;
    let ghost mut views: Seq<Seq<char>> = seq![];
    assert(s@.subrange(0, len as int) =~= s@);
    while start < len
        invariant
            start <= len == s.len(),
            out@.len() == views.len(),
            forall|k: int| 0 <= k < out@.len() ==> (#[trigger] out@[k])@ == views[k],
            views + lines(s@.subrange(start as int, len as int)) == lines(s@),
        decreases len - start,
    {
        let ghost rest = s@.subrange(start as int, len as int);
        let mut i = start;
        while i < len && s[i] != '\n'
            invariant
                start <= i <= len == s.len(),
                forall|k: int| start <= k < i ==> s@[k] != '\n',
            decreases len - i,
        {
            i += 1;
        }
        proof {
            lemma_index_of(rest, '\n');
            let j = index_of(rest, '\n');
            if j < i - start {
                assert(rest[j] == s@[start + j]);
            }
            if i - start < j {
                assert(rest[i - start] == s@[i as int]);
            }
        }
        if i < len {
            let mut line = copy_range(s, start, i);
            if line.len() > 0 && line[line.len() - 1] == '\r' {
                line.pop();
            }
            proof {
                assert(rest.subrange(0, i - start) =~= s@.subrange(start as int, i as int));
                assert(rest.subrange(i - start + 1, rest.len() as int)
                    =~= s@.subrange(i + 1, len as int));
                assert(line@ == strip_cr(s@.subrange(start as int, i as int)));
                assert(views.push(line@) + lines(s@.subrange(i + 1, len as int))
                    =~= views + lines(rest));
                views = views.push(line@);
            }
            out.push(line);
            start = i + 1;
        } else {
            let line = copy_range(s, start, len);
            proof {
                assert(views.push(line@) =~= views + lines(rest));
                views = views.push(line@);
            }
            out.push(line);
            start = len;
            proof {
                assert(lines(s@.subrange(len as int, len as int)) =~= Seq::<Seq<char>>::empty());
                assert(views + lines(s@.subrange(start as int, len as int)) =~= views);
            }
        }
    }
    proof {
        assert(lines(s@.subrange(len as int, len as int)) =~= Seq::<Seq<char>>::empty());
        assert(views + lines(s@.subrange(start as int, len as int)) =~= views);
    }
    out
}

} // verus!
