//! Character-level helpers: white space, trimming and line splitting.

use vstd::prelude::*;

verus! {

/// Whether `c` is a Unicode white-space character.
pub open spec fn is_space_spec(c: char) -> bool {
    let u = c as u32;
    (0x09 <= u <= 0x0D) || u == 0x20 || u == 0x85 || u == 0xA0 || u == 0x1680 || (0x2000 <= u
        <= 0x200A) || u == 0x2028 || u == 0x2029 || u == 0x202F || u == 0x205F || u == 0x3000
}

/// Whether `c` is a Unicode white-space character.
pub fn is_space(c: char) -> (b: bool)
    ensures
        b == is_space_spec(c),
{
    let u: u32 = c as u32;
    (0x09 <= u && u <= 0x0D) || u == 0x20 || u == 0x85 || u == 0xA0 || u == 0x1680 || (0x2000 <= u
        && u <= 0x200A) || u == 0x2028 || u == 0x2029 || u == 0x202F || u == 0x205F || u == 0x3000
}

/// `s` without the white space at its start.
pub open spec fn skip_leading_space(s: Seq<char>) -> Seq<char>
    decreases s.len(),
{
    if s.len() > 0 && is_space_spec(s[0]) {
        skip_leading_space(s.drop_first())
    } else {
        s
    }
}

/// `s` without the white space at its end.
pub open spec fn skip_trailing_space(s: Seq<char>) -> Seq<char>
    decreases s.len(),
{
    if s.len() > 0 && is_space_spec(s.last()) {
        skip_trailing_space(s.drop_last())
    } else {
        s
    }
}

/// `s` without the white space at either end.
pub open spec fn trimmed(s: Seq<char>) -> Seq<char> {
    skip_trailing_space(skip_leading_space(s))
}

/// The bounds of `chars[from..to]` without the white space at either end.
pub fn trim_range(chars: &Vec<char>, from: usize, to: usize) -> (r: (usize, usize))
    requires
        from <= to <= chars.len(),
    ensures
        from <= r.0 <= r.1 <= to,
        chars@.subrange(r.0 as int, r.1 as int) == trimmed(chars@.subrange(from as int, to as int)),
{
    let mut a: usize = from;
    while a < to && is_space(chars[a])
        invariant
            from <= a <= to <= chars.len(),
            skip_leading_space(chars@.subrange(a as int, to as int)) == skip_leading_space(
                chars@.subrange(from as int, to as int),
            ),
        decreases to - a,
    {
        assert(chars@.subrange(a as int, to as int).drop_first() == chars@.subrange(
            a as int + 1,
            to as int,
        ));
        a = a + 1;
    }
    let mut b: usize = to;
    while a < b && is_space(chars[b - 1])
        invariant
            a <= b <= to <= chars.len(),
            skip_trailing_space(chars@.subrange(a as int, b as int)) == skip_trailing_space(
                chars@.subrange(a as int, to as int),
            ),
        decreases b - a,
    {
        assert(chars@.subrange(a as int, b as int).drop_last() == chars@.subrange(
            a as int,
            b as int - 1,
        ));
        b = b - 1;
    }
    (a, b)
}

/// The characters of `s`, in order.
pub fn to_chars(s: &str) -> (v: Vec<char>)
    ensures
        v@ == s@,
{
    let mut v: Vec<char> = Vec::new();
    for c in it: s.chars()
        invariant
            v@ == it.seq().take(it.index() as int),
            it.seq() == s@,
    {
        v.push(c);
    }
    v
}

/// How many characters stand before the first line feed of `s`; the length
/// of `s` where it has none.
pub open spec fn line_end(s: Seq<char>) -> int
    decreases s.len(),
{
    if s.len() == 0 || s[0] == '\n' {
        0
    } else {
        1 + line_end(s.drop_first())
    }
}

/// `line` without the carriage return at its end, if it has one.
pub open spec fn without_cr(line: Seq<char>) -> Seq<char> {
    if line.len() > 0 && line.last() == '\r' {
        line.drop_last()
    } else {
        line
    }
}

/// The lines of `s`. A line ends at a line feed, or at a carriage return
/// directly followed by one; neither belongs to the line. What follows the
/// last line feed is a line of its own unless it is empty.
pub open spec fn lines_of(s: Seq<char>) -> Seq<Seq<char>>
    decreases s.len(),
{
    if s.len() == 0 {
        Seq::empty()
    } else {
        let n = line_end(s);
        if 0 <= n < s.len() {
            seq![without_cr(s.take(n))] + lines_of(s.skip(n + 1))
        } else {
            seq![s]
        }
    }
}

/// The pieces of `chars` that `bounds` marks out, each from its first index
/// up to its second.
pub open spec fn pieces(chars: Seq<char>, bounds: Seq<(usize, usize)>) -> Seq<Seq<char>> {
    Seq::new(bounds.len(), |i: int| chars.subrange(bounds[i].0 as int, bounds[i].1 as int))
}

/// Where the line that starts at `pos` ends: the index of the next line feed,
/// or the length of `chars`.
fn scan_line(chars: &Vec<char>, pos: usize) -> (end: usize)
    requires
        pos <= chars.len(),
    ensures
        pos <= end <= chars.len(),
        end - pos == line_end(chars@.skip(pos as int)),
{
    let mut end: usize = pos;
    while end < chars.len() && chars[end] != '\n'
        invariant
            pos <= end <= chars.len(),
            line_end(chars@.skip(pos as int)) == (end - pos) + line_end(chars@.skip(end as int)),
        decreases chars.len() - end,
    {
        assert(chars@.skip(end as int).drop_first() == chars@.skip(end as int + 1));
        end = end + 1;
    }
    end
}

/// The bounds of each line of `chars`, in order.
pub fn split_lines(chars: &Vec<char>) -> (bounds: Vec<(usize, usize)>)
    ensures
        pieces(chars@, bounds@) == lines_of(chars@),
        bounds.len() <= chars.len(),
        forall|i: int| 0 <= i < bounds.len() ==> (#[trigger] bounds[i]).0 <= bounds[i].1 <= chars.len(),
{
    let mut bounds: Vec<(usize, usize)> = Vec::new();
    let mut pos: usize = 0;
    assert(chars@.skip(0) == chars@);
    assert(pieces(chars@, bounds@) + lines_of(chars@) == lines_of(chars@));
    while pos < chars.len()
        invariant
            pos <= chars.len(),
            bounds.len() <= pos,
            pieces(chars@, bounds@) + lines_of(chars@.skip(pos as int)) == lines_of(chars@),
            forall|i: int|
                0 <= i < bounds.len() ==> (#[trigger] bounds[i]).0 <= bounds[i].1 <= chars.len(),
        decreases chars.len() - pos,
    {
        let ghost rest = chars@.skip(pos as int);
        let ghost before = pieces(chars@, bounds@);
        let end = scan_line(chars, pos);
        if end < chars.len() {
            let stop = if end > pos && chars[end - 1] == '\r' {
                end - 1
            } else {
                end
            };
            assert(rest.take(end - pos) == chars@.subrange(pos as int, end as int));
            assert(without_cr(rest.take(end - pos)) == chars@.subrange(pos as int, stop as int));
            assert(rest.skip(end - pos + 1) == chars@.skip(end as int + 1));
            bounds.push((pos, stop));
            assert(pieces(chars@, bounds@) == before + seq![
                chars@.subrange(pos as int, stop as int),
            ]);
            assert(pieces(chars@, bounds@) + lines_of(chars@.skip(end as int + 1)) == before
                + lines_of(rest));
            pos = end + 1;
        } else {
            assert(rest == chars@.subrange(pos as int, end as int));
            bounds.push((pos, end));
            assert(pieces(chars@, bounds@) == before + seq![rest]);
            assert(lines_of(chars@.skip(end as int)) == Seq::<Seq<char>>::empty());
            assert(pieces(chars@, bounds@) + lines_of(chars@.skip(end as int)) == before
                + lines_of(rest));
            pos = end;
        }
    }
    assert(lines_of(chars@.skip(pos as int)) == Seq::<Seq<char>>::empty());
    assert(pieces(chars@, bounds@) + Seq::<Seq<char>>::empty() == pieces(chars@, bounds@));
    bounds
}

} // verus!
