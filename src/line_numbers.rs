//! Byte offset to line and column mapping for one source file.
//!
//! Offsets count bytes; lines and columns are zero-based, and a column counts
//! characters, so a multi-byte character advances the column by one.
use vstd::prelude::*;
use vstd::string::StringSliceAdditionalSpecFns;

verus! {

pub const NEWLINE: u8 = 10;

/// A UTF-8 continuation byte, `0b10xx_xxxx`.
pub open spec fn is_continuation(x: u8) -> bool {
    0x80 <= x && x < 0xC0
}

/// A character of `b` ends at `p`: `p` is the end of the text or the start of
/// the next character.
pub open spec fn is_char_end(b: Seq<u8>, p: int) -> bool {
    p == b.len() || !is_continuation(b[p])
}

/// The line of offset `o`: the number of newlines before it.
pub open spec fn line_of(b: Seq<u8>, o: int) -> int
    decreases o,
{
    if o <= 0 {
        0
    } else {
        line_of(b, o - 1) + if b[o - 1] == NEWLINE { 1int } else { 0int }
    }
}

/// The offset where the line holding `o` starts.
pub open spec fn line_start_of(b: Seq<u8>, o: int) -> int
    decreases o,
{
    if o <= 0 || b[o - 1] == NEWLINE {
        o
    } else {
        line_start_of(b, o - 1)
    }
}

/// The column of offset `o`: the number of characters of its line that end at
/// or before `o`.
pub open spec fn column_of(b: Seq<u8>, o: int) -> int
    decreases o,
{
    if o <= 0 || b[o - 1] == NEWLINE {
        0
    } else {
        column_of(b, o - 1) + if is_char_end(b, o) { 1int } else { 0int }
    }
}

/// The number of lines of `b`.
pub open spec fn line_count(b: Seq<u8>) -> int {
    line_of(b, b.len() as int) + 1
}

/// `r` is the offset named by (`line`, `column`) in `b`: the first offset of
/// that line whose column reaches `column`, or the end of the line where the
/// line is shorter. A line past the last names the end of the text.
pub open spec fn is_position(b: Seq<u8>, line: int, column: int, r: int) -> bool {
    if 0 <= line < line_count(b) {
        &&& 0 <= r <= b.len()
        &&& line_of(b, r) == line
        &&& (r == b.len() || b[r] == NEWLINE || column_of(b, r) >= column)
        &&& forall|q: int| line_start_of(b, r) <= q < r ==> column_of(b, q) < column
    } else {
        r == b.len()
    }
}

/// A line and a column, both counted from zero.
#[derive(Clone, Copy, Debug, PartialEq, Eq, Structural)]
pub struct LineColumn {
    pub line: usize,
    pub column: usize,
}

/// The index of one source text: its bytes and the offset where each line
/// starts.
#[derive(Debug)]
pub struct LineNumbers {
    text: Vec<u8>,
    line_starts: Vec<usize>,
}

impl View for LineNumbers {
    type V = Seq<u8>;

    closed spec fn view(&self) -> Seq<u8> {
        self.text@
    }
}

impl LineNumbers {
    #[verifier::type_invariant]
    spec fn well_formed(self) -> bool {
        &&& self.line_starts@.len() == line_count(self.text@)
        &&& self.line_starts@[0] == 0
        &&& forall|k: int|
            0 <= k < self.line_starts@.len() ==> {
                let s = #[trigger] self.line_starts@[k] as int;
                &&& s <= self.text@.len()
                &&& line_of(self.text@, s) == k
                &&& (s == 0 || self.text@[s - 1] == NEWLINE)
            }
    }

    /// Indexes the source text `src`.
    pub fn new(src: &str) -> (r: Self)
        ensures
            r@ == src.spec_bytes(),
    {
        let bytes = src.as_bytes();
        let mut text: Vec<u8> = Vec::new();
        let mut line_starts: Vec<usize> = Vec::new();
        line_starts.push(0);
        let mut i: usize = 0;
        while i < bytes.len()
            invariant
                0 <= i <= bytes@.len(),
                text@ == bytes@.subrange(0, i as int),
                line_starts@.len() == line_of(bytes@, i as int) + 1,
                0 < line_starts@.len(),
                line_starts@[0] == 0,
                forall|k: int|
                    0 <= k < line_starts@.len() ==> {
                        let s = #[trigger] line_starts@[k] as int;
                        &&& s <= i
                        &&& line_of(bytes@, s) == k
                        &&& (s == 0 || bytes@[s - 1] == NEWLINE)
                    },
            decreases bytes@.len() - i,
        {
            text.push(bytes[i]);
            if bytes[i] == NEWLINE {
                line_starts.push(i + 1);
            }
            i = i + 1;
        }
        assert(text@ =~= bytes@);
        LineNumbers { text, line_starts }
    }

    /// The length of the text in bytes.
    pub fn length(&self) -> (r: usize)
        ensures
            r == self@.len(),
    {
        self.text.len()
    }

    /// The line and column of byte offset `byte_index`.
    pub fn line_and_column_number(&self, byte_index: usize) -> (r: LineColumn)
        requires
            byte_index <= self@.len(),
        ensures
            r.line == line_of(self@, byte_index as int),
            r.column == column_of(self@, byte_index as int),
    {
        proof {
            use_type_invariant(self);
        }
        let ghost b = self.text@;
        let line = self.line_number(byte_index);
        let start = self.line_starts[line];
        let mut column: usize = 0;
        let mut i: usize = start;
        while i < byte_index
            invariant
                b == self.text@,
                byte_index <= b.len(),
                start <= i <= byte_index,
                column <= i - start,
                column == column_of(b, i as int),
                line_start_of(b, i as int) == start,
                forall|k: int| start <= k < byte_index ==> b[k] != NEWLINE,
            decreases byte_index - i,
        {
            let at_end = i + 1 == self.text.len() || !(0x80 <= self.text[i + 1]
                && self.text[i + 1] < 0xC0);
            if at_end {
                column = column + 1;
            }
            i = i + 1;
        }
        LineColumn { line, column }
    }

    /// The line of `byte_index`, found by bisecting the line starts, with
    /// the facts that let a caller walk that line from its start.
    fn line_number(&self, byte_index: usize) -> (line: usize)
        requires
            byte_index <= self@.len(),
        ensures
            line == line_of(self@, byte_index as int),
            line < self.line_starts@.len(),
            self.line_starts@[line as int] <= byte_index,
            line_start_of(self@, byte_index as int) == self.line_starts@[line as int],
            forall|k: int| self.line_starts@[line as int] <= k < byte_index ==> self@[k] != NEWLINE,
    {
        proof {
            use_type_invariant(self);
        }
        let ghost b = self.text@;
        proof {
            lemma_line_monotone(b, 0, b.len() as int);
        }
        let mut lo: usize = 0;
        let mut hi: usize = self.line_starts.len();
        while hi - lo > 1
            invariant
                b == self.text@,
                byte_index <= b.len(),
                self.line_starts@.len() == line_count(b),
                lo < hi <= self.line_starts@.len(),
                self.line_starts@[lo as int] <= byte_index,
                hi == self.line_starts@.len() || self.line_starts@[hi as int] > byte_index,
            decreases hi - lo,
        {
            let mid = lo + (hi - lo) / 2;
            if self.line_starts[mid] <= byte_index {
                lo = mid;
            } else {
                hi = mid;
            }
        }
        proof {
            let o = byte_index as int;
            let s = self.line_starts@[lo as int] as int;
            assert(line_of(b, s) == lo);
            lemma_line_monotone(b, s, o);
            lemma_line_monotone(b, o, b.len() as int);
            if hi < self.line_starts@.len() {
                let t = self.line_starts@[hi as int] as int;
                assert(line_of(b, t) == hi);
                lemma_line_monotone(b, o, t);
                if line_of(b, o) == hi {
                    lemma_same_line(b, o, t);
                    assert(b[t - 1] == NEWLINE);
                }
            }
            lemma_same_line(b, s, o);
        }
        lo
    }

    /// The byte offset of (`line`, `column`). A column past the end of its
    /// line gives the end of that line; a line past the last gives the end of
    /// the text.
    pub fn byte_index(&self, line: usize, column: usize) -> (r: usize)
        ensures
            is_position(self@, line as int, column as int, r as int),
    {
        proof {
            use_type_invariant(self);
        }
        let ghost b = self.text@;
        if line >= self.line_starts.len() {
            return self.text.len();
        }
        let start = self.line_starts[line];
        let mut p: usize = start;
        let mut col: usize = 0;
        while p < self.text.len() && self.text[p] != NEWLINE && col < column
            invariant
                b == self.text@,
                start <= p <= b.len(),
                start == 0 || b[start - 1] == NEWLINE,
                line_of(b, p as int) == line,
                line_start_of(b, p as int) == start,
                col == column_of(b, p as int),
                col <= column,
                forall|q: int| start <= q < p ==> column_of(b, q) < column,
            decreases b.len() - p,
        {
            let at_end = p + 1 == self.text.len() || !(0x80 <= self.text[p + 1]
                && self.text[p + 1] < 0xC0);
            if at_end {
                col = col + 1;
            }
            p = p + 1;
        }
        p
    }
}

/// The line of an offset never decreases as the offset grows.
pub proof fn lemma_line_monotone(b: Seq<u8>, p: int, q: int)
    requires
        0 <= p <= q <= b.len(),
    ensures
        line_of(b, p) <= line_of(b, q),
    decreases q - p,
{
    if p < q {
        lemma_line_monotone(b, p, q - 1);
    }
}

/// Two offsets on one line have no newline between them and share the start
/// of their line.
pub proof fn lemma_same_line(b: Seq<u8>, p: int, q: int)
    requires
        0 <= p <= q <= b.len(),
        line_of(b, p) == line_of(b, q),
    ensures
        line_start_of(b, p) == line_start_of(b, q),
        forall|k: int| p <= k < q ==> b[k] != NEWLINE,
    decreases q - p,
{
    if p < q {
        lemma_line_monotone(b, p, q - 1);
        lemma_same_line(b, p, q - 1);
    }
}

/// Along one line the column never decreases.
pub proof fn lemma_column_monotone(b: Seq<u8>, p: int, q: int)
    requires
        0 <= p <= q <= b.len(),
        forall|k: int| p <= k < q ==> b[k] != NEWLINE,
    ensures
        column_of(b, p) <= column_of(b, q),
    decreases q - p,
{
    if p < q {
        lemma_column_monotone(b, p, q - 1);
    }
}

/// Mapping a valid offset to its line and column and back gives an offset on
/// the same line, at or before the first, with the same column; at the start
/// of a character it gives the offset itself.
pub proof fn lemma_position_round_trip(b: Seq<u8>, o: int, r: int)
    requires
        0 <= o <= b.len(),
        is_position(b, line_of(b, o), column_of(b, o), r),
    ensures
        r <= o,
        line_of(b, r) == line_of(b, o),
        column_of(b, r) == column_of(b, o),
        is_char_end(b, o) ==> r == o,
{
    lemma_line_monotone(b, 0, o);
    lemma_line_monotone(b, o, b.len() as int);
    let c = column_of(b, o);
    if r > o {
        lemma_same_line(b, o, r);
        assert(line_start_of(b, r) <= o) by {
            lemma_line_start_le(b, o);
        }
        assert(false);
    }
    lemma_same_line(b, r, o);
    lemma_column_monotone(b, r, o);
    if is_char_end(b, o) && r < o {
        lemma_column_step(b, r, o);
    }
}

proof fn lemma_line_start_le(b: Seq<u8>, o: int)
    requires
        0 <= o <= b.len(),
    ensures
        0 <= line_start_of(b, o) <= o,
    decreases o,
{
    if o > 0 && b[o - 1] != NEWLINE {
        lemma_line_start_le(b, o - 1);
    }
}

/// Within one line, an offset where a character ends has a larger column than
/// every earlier offset.
proof fn lemma_column_step(b: Seq<u8>, p: int, q: int)
    requires
        0 <= p < q <= b.len(),
        forall|k: int| p <= k < q ==> b[k] != NEWLINE,
        is_char_end(b, q),
    ensures
        column_of(b, p) < column_of(b, q),
{
    lemma_column_monotone(b, p, q - 1);
}

} // verus!
