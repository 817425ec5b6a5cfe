//! Tokenization of the raw input: bytes are cut into lines at newlines, a
//! trailing carriage return is stripped from each line, blank lines are
//! skipped, and each remaining line is cut into fields at tab characters.

use vstd::prelude::*;

verus! {

/// The tab character, the field delimiter.
pub const TAB: u8 = 9;

/// The line feed character, the row delimiter.
pub const LINE_FEED: u8 = 10;

/// The carriage return character, stripped from a line end.
pub const CARRIAGE_RETURN: u8 = 13;

/// The index of the first occurrence of `d` in `s`, or `s.len()` when `d`
/// does not occur.
pub open spec fn first_at(s: Seq<u8>, d: u8) -> int
    decreases s.len(),
{
    if s.len() == 0 {
        0
    } else if s[0] == d {
        0
    } else {
        1 + first_at(s.drop_first(), d)
    }
}

/// An index before which `d` does not occur, and at which it does unless it
/// is the length, is the first occurrence.
pub proof fn lemma_first_at_is(s: Seq<u8>, d: u8, j: int)
    requires
        0 <= j <= s.len(),
        forall|i: int| 0 <= i < j ==> s[i] != d,
        j < s.len() ==> s[j] == d,
    ensures
        first_at(s, d) == j,
    decreases s.len(),
{
    if s.len() != 0 && s[0] != d {
        assert forall|i: int| 0 <= i < j - 1 implies s.drop_first()[i] != d by {
            assert(s.drop_first()[i] == s[i + 1]);
        }
        lemma_first_at_is(s.drop_first(), d, j - 1);
    }
}

/// The segments of `s` between occurrences of the delimiter `d`, in
/// order: splitting the empty input yields one empty segment.
pub open spec fn split_on(s: Seq<u8>, d: u8) -> Seq<Seq<u8>>
    decreases s.len(),
{
    if s.len() == 0 {
        seq![Seq::<u8>::empty()]
    } else if s.last() == d {
        split_on(s.drop_last(), d).push(Seq::<u8>::empty())
    } else {
        let r = split_on(s.drop_last(), d);
        r.update(r.len() - 1, r.last().push(s.last()))
    }
}

pub proof fn lemma_split_on_len(s: Seq<u8>, d: u8)
    ensures
        split_on(s, d).len() >= 1,
    decreases s.len(),
{
    if s.len() != 0 {
        lemma_split_on_len(s.drop_last(), d);
    }
}

/// Cuts a byte vector at every occurrence of the delimiter.
pub fn split_bytes(v: &Vec<u8>, d: u8) -> (r: Vec<Vec<u8>>)
    ensures
        r.deep_view() == split_on(v@, d),
{
    let mut out: Vec<Vec<u8>> = Vec::new();
    let mut cur: Vec<u8> = Vec::new();
    let mut i: usize = 0;
    proof {
        assert(v@.take(0) =~= Seq::<u8>::empty());
    }
    while i < v.len()
        invariant
            0 <= i <= v.len(),
            split_on(v@.take(i as int), d) == out.deep_view().push(cur@),
        decreases v.len() - i,
    {
        proof {
            assert(v@.take(i as int + 1).drop_last() =~= v@.take(i as int));
            assert(v@.take(i as int + 1).last() == v@[i as int]);
            lemma_split_on_len(v@.take(i as int), d);
        }
        let b = v[i];
        if b == d {
            out.push(cur);
            cur = Vec::new();
            proof {
                assert(split_on(v@.take(i as int + 1), d) =~~= out.deep_view().push(cur@));
            }
        } else {
            cur.push(b);
            proof {
                let prev = split_on(v@.take(i as int), d);
                assert(prev.update(prev.len() - 1, prev.last().push(b)) =~~= out.deep_view().push(
                    cur@,
                ));
            }
        }
        i = i + 1;
    }
    proof {
        assert(v@.take(v@.len() as int) =~= v@);
    }
    out.push(cur);
    proof {
        assert(out.deep_view() =~~= split_on(v@, d));
    }
    out
}

/// A line with one trailing carriage return removed, so that input with
/// CRLF row ends tokenizes like input with bare LF row ends.
pub open spec fn strip_cr(l: Seq<u8>) -> Seq<u8> {
    if l.len() >= 1 && l.last() == CARRIAGE_RETURN {
        l.drop_last()
    } else {
        l
    }
}

/// The fields of one row.
pub open spec fn row_fields(l: Seq<u8>) -> Seq<Seq<u8>> {
    split_on(l, TAB)
}

/// The rows contributed by a sequence of lines: a carriage return is
/// stripped from each line end, lines left empty are skipped, and every
/// other line is cut into fields at tabs.
pub open spec fn rows_of_lines(lines: Seq<Seq<u8>>) -> Seq<Seq<Seq<u8>>>
    decreases lines.len(),
{
    if lines.len() == 0 {
        Seq::empty()
    } else {
        let prev = rows_of_lines(lines.drop_last());
        let l = strip_cr(lines.last());
        if l.len() == 0 {
            prev
        } else {
            prev.push(row_fields(l))
        }
    }
}

/// All rows of an input: its lines, cut at line feeds, tokenized in order.
pub open spec fn rows_of(input: Seq<u8>) -> Seq<Seq<Seq<u8>>> {
    rows_of_lines(split_on(input, LINE_FEED))
}

/// Tokenizes a whole input into rows of tab-separated fields.
pub fn tokenize(input: &Vec<u8>) -> (rows: Vec<Vec<Vec<u8>>>)
    ensures
        rows.deep_view() == rows_of(input@),
{
    let lines = split_bytes(input, LINE_FEED);
    let mut rows: Vec<Vec<Vec<u8>>> = Vec::new();
    let mut i: usize = 0;
    proof {
        assert(lines.deep_view().take(0) =~= Seq::<Seq<u8>>::empty());
    }
    while i < lines.len()
        invariant
            0 <= i <= lines.len(),
            lines.deep_view() == split_on(input@, LINE_FEED),
            rows.deep_view() == rows_of_lines(lines.deep_view().take(i as int)),
        decreases lines.len() - i,
    {
        proof {
            assert(lines.deep_view().take(i as int + 1).drop_last() =~= lines.deep_view().take(
                i as int,
            ));
            assert(lines.deep_view().take(i as int + 1).last() =~~= lines@[i as int]@);
        }
        let line = trim_line(&lines[i]);
        if line.len() > 0 {
            let fields = split_bytes(&line, TAB);
            rows.push(fields);
            proof {
                assert(rows.deep_view() =~~= rows_of_lines(
                    lines.deep_view().take(i as int + 1),
                ));
            }
        }
        i = i + 1;
    }
    proof {
        assert(lines.deep_view().take(lines@.len() as int) =~= lines.deep_view());
    }
    rows
}

/// Copies a line without its trailing carriage return, if it has one.
fn trim_line(l: &Vec<u8>) -> (r: Vec<u8>)
    ensures
        r@ == strip_cr(l@),
{
    let mut out: Vec<u8> = Vec::new();
    let n = if l.len() >= 1 && l[l.len() - 1] == CARRIAGE_RETURN {
        l.len() - 1
    } else {
        l.len()
    };
    let mut i: usize = 0;
    while i < n
        invariant
            0 <= i <= n <= l.len(),
            out@ == l@.take(i as int),
        decreases n - i,
    {
        out.push(l[i]);
        proof {
            assert(l@.take(i as int).push(l@[i as int]) =~= l@.take(i as int + 1));
        }
        i = i + 1;
    }
    proof {
        assert(out@ =~= strip_cr(l@));
    }
    out
}

} // verus!
