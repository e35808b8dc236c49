//! Text selection over a flattened document: every visual line owns a
//! half-open range of character offsets, and a selection is an anchor and a
//! focus offset.
use vstd::prelude::*;
use vstd::string::*;
use vstd::utf8::*;

verus! {

/// The selection state of a selectable document.
pub struct State {
    /// The `(start, end)` offsets of each visual line, in document order.
    pub line_boundaries: Vec<(usize, usize)>,
    /// The length of the whole document.
    pub total_length: usize,
    /// The anchor (where the selection began) and the focus (where it is now).
    pub selection: Option<(usize, usize)>,
}

/// The line that holds `offset`: the first range containing it, or the whole
/// document when none does.
pub open spec fn line_of(lines: Seq<(usize, usize)>, total: usize, offset: int, i: int) -> (
    usize,
    usize,
)
    decreases lines.len() - i,
{
    if i < 0 || i >= lines.len() {
        (0, total)
    } else if lines[i].0 <= offset < lines[i].1 {
        lines[i]
    } else {
        line_of(lines, total, offset, i + 1)
    }
}

impl State {
    /// Nothing laid out and nothing selected.
    pub fn new() -> (r: State)
        ensures
            r.line_boundaries@.len() == 0,
            r.total_length == 0,
            r.selection.is_none(),
    {
        State { line_boundaries: Vec::new(), total_length: 0, selection: None }
    }

    /// The selection as `(start, end)` with `start <= end`, whichever way
    /// it was made.
    pub fn selection_range(&self) -> (r: Option<(usize, usize)>)
        ensures
            match self.selection {
                Some((a, f)) => r == Some(
                    (
                        if a <= f {
                            a
                        } else {
                            f
                        },
                        if a <= f {
                            f
                        } else {
                            a
                        },
                    ),
                ),
                None => r.is_none(),
            },
    {
        match self.selection {
            Some((a, f)) => {
                if a <= f {
                    Some((a, f))
                } else {
                    Some((f, a))
                }
            },
            None => None,
        }
    }

    /// The range of the first line that holds `offset`, or the whole
    /// document when no line does.
    pub fn find_line_boundaries(&self, offset: usize) -> (r: (usize, usize))
        ensures
            r == line_of(self.line_boundaries@, self.total_length, offset as int, 0),
    {
        let mut i: usize = 0;
        while i < self.line_boundaries.len()
            invariant
                i <= self.line_boundaries@.len(),
                line_of(self.line_boundaries@, self.total_length, offset as int, i as int)
                    == line_of(self.line_boundaries@, self.total_length, offset as int, 0),
            decreases self.line_boundaries@.len() - i,
        {
            let (start, end) = self.line_boundaries[i];
            if start <= offset && offset < end {
                return (start, end);
            }
            i = i + 1;
        }
        (0, self.total_length)
    }

    /// Lays out lines of the given lengths one after another, each followed
    /// by a line break: line `i` gets `(s, s + len + 1)` where `s` is where
    /// the previous one ended.
    pub fn set_lines(&mut self, lengths: &Vec<usize>)
        requires
            line_total(lengths@, lengths@.len() as int) <= usize::MAX,
        ensures
            final(self).line_boundaries@.len() == lengths@.len(),
            forall|i: int|
                0 <= i < lengths@.len() ==> #[trigger] final(self).line_boundaries@[i] == (
                    line_total(lengths@, i) as usize,
                    line_total(lengths@, i + 1) as usize,
                ),
            final(self).total_length == line_total(lengths@, lengths@.len() as int),
            final(self).selection == old(self).selection,
    {
        let mut bounds: Vec<(usize, usize)> = Vec::new();
        let mut offset: usize = 0;
        let mut i: usize = 0;
        while i < lengths.len()
            invariant
                line_total(lengths@, lengths@.len() as int) <= usize::MAX,
                i <= lengths@.len(),
                offset == line_total(lengths@, i as int),
                bounds@.len() == i,
                forall|k: int|
                    0 <= k < i ==> #[trigger] bounds@[k] == (
                        line_total(lengths@, k) as usize,
                        line_total(lengths@, k + 1) as usize,
                    ),
            decreases lengths@.len() - i,
        {
            proof {
                lemma_line_total_monotone(lengths@, i + 1, lengths@.len() as int);
            }
            let end = offset + lengths[i] + 1;
            bounds.push((offset, end));
            offset = end;
            i = i + 1;
        }
        self.line_boundaries = bounds;
        self.total_length = offset;
    }
}

/// Where line `i` starts: the lengths before it, each plus its line break.
pub open spec fn line_total(lengths: Seq<usize>, i: int) -> int
    decreases i,
{
    if i <= 0 {
        0
    } else {
        line_total(lengths, i - 1) + lengths[i - 1] + 1
    }
}

proof fn lemma_line_total_monotone(lengths: Seq<usize>, i: int, j: int)
    requires
        0 <= i <= j,
    ensures
        0 <= line_total(lengths, i) <= line_total(lengths, j),
    decreases j,
{
    if j > i {
        lemma_line_total_monotone(lengths, i, j - 1);
    } else if i > 0 {
        lemma_line_total_monotone(lengths, i - 1, i - 1);
    }
}

/// The UTF-8 bytes of a run of characters.
pub open spec fn utf8_of(s: Seq<char>) -> Seq<u8> {
    encode_utf8(s)
}

/// The byte length of the first `n` spans together.
pub open spec fn spans_bytes(spans: Seq<String>, n: int) -> int
    decreases n,
{
    if n <= 0 {
        0
    } else {
        spans_bytes(spans, n - 1) + utf8_of(spans[n - 1]@).len()
    }
}

/// The characters of the first `n` spans, one after another.
pub open spec fn spans_chars(spans: Seq<String>, n: int) -> Seq<char>
    decreases n,
{
    if n <= 0 {
        Seq::empty()
    } else {
        spans_chars(spans, n - 1) + spans[n - 1]@
    }
}

proof fn lemma_spans_bytes_monotone(spans: Seq<String>, i: int, j: int)
    requires
        0 <= i <= j,
    ensures
        0 <= spans_bytes(spans, i) <= spans_bytes(spans, j),
    decreases j,
{
    if j > i {
        lemma_spans_bytes_monotone(spans, i, j - 1);
    } else if i > 0 {
        lemma_spans_bytes_monotone(spans, i - 1, i - 1);
    }
}

/// Encoding two runs of characters one after the other gives the two
/// encodings one after the other.
proof fn lemma_utf8_concat(a: Seq<char>, b: Seq<char>)
    ensures
        utf8_of(a + b) == utf8_of(a) + utf8_of(b),
    decreases a.len(),
{
    if a.len() == 0 {
        assert(a + b =~= b);
        assert(utf8_of(a) + utf8_of(b) =~= utf8_of(b));
    } else {
        assert((a + b).drop_first() =~= a.drop_first() + b);
        assert((a + b)[0] == a[0]);
        lemma_utf8_concat(a.drop_first(), b);
        assert(utf8_of(a + b) =~= utf8_of(a) + utf8_of(b));
    }
}

/// The length in bytes of a run of styled text: the spans' lengths added.
pub fn spans_text_length(spans: &Vec<String>) -> (r: usize)
    requires
        spans_bytes(spans@, spans@.len() as int) <= usize::MAX,
    ensures
        r == spans_bytes(spans@, spans@.len() as int),
{
    let mut total: usize = 0;
    let mut i: usize = 0;
    while i < spans.len()
        invariant
            spans_bytes(spans@, spans@.len() as int) <= usize::MAX,
            i <= spans@.len(),
            total == spans_bytes(spans@, i as int),
        decreases spans@.len() - i,
    {
        proof {
            lemma_spans_bytes_monotone(spans@, i + 1, spans@.len() as int);
        }
        let n = spans[i].as_str().len();
        total = total + n;
        i = i + 1;
    }
    total
}

/// The plain text of a run of styled text: the spans joined.
pub fn extract_spans_text(spans: &Vec<String>) -> (r: String)
    ensures
        r@ == spans_chars(spans@, spans@.len() as int),
{
    let mut text = String::new();
    let mut i: usize = 0;
    while i < spans.len()
        invariant
            i <= spans@.len(),
            text@ == spans_chars(spans@, i as int),
        decreases spans@.len() - i,
    {
        text.append(spans[i].as_str());
        i = i + 1;
    }
    text
}

/// Where the part of line `i` that the selection `start..end` covers starts
/// and ends, in the line's own bytes: `None` when the selection misses the
/// line (or the line has no range).
pub open spec fn cut_of(
    bounds: Seq<(usize, usize)>,
    line: Seq<u8>,
    start: int,
    end: int,
    i: int,
) -> Option<(int, int)> {
    if i >= bounds.len() {
        None
    } else {
        let (ls, le) = bounds[i];
        if end <= ls || start >= le {
            None
        } else {
            let from = if start > ls {
                start - ls
            } else {
                0
            };
            let to = if end - ls < le - ls {
                end - ls
            } else {
                le - ls
            };
            if from < line.len() {
                Some(
                    (
                        from,
                        if to < line.len() {
                            to
                        } else {
                            line.len() as int
                        },
                    ),
                )
            } else {
                None
            }
        }
    }
}

/// Whether a cut falls on character boundaries, in order.
pub open spec fn cut_fits(line: Seq<u8>, cut: Option<(int, int)>) -> bool {
    match cut {
        Some((a, b)) => a <= b && is_char_boundary(line, a) && is_char_boundary(
            line.subrange(a, line.len() as int),
            b - a,
        ),
        None => true,
    }
}

/// The bytes that the cut takes from a line.
pub open spec fn cut_bytes(line: Seq<u8>, cut: Option<(int, int)>) -> Seq<u8> {
    match cut {
        Some((a, b)) => line.subrange(a, b),
        None => Seq::empty(),
    }
}

/// Whether every cut among the first `n` lines fits.
pub open spec fn cuts_fit(
    bounds: Seq<(usize, usize)>,
    lines: Seq<String>,
    start: int,
    end: int,
    n: int,
) -> bool {
    forall|i: int|
        0 <= i < n ==> cut_fits(
            utf8_of(#[trigger] lines[i]@),
            cut_of(bounds, utf8_of(lines[i]@), start, end, i),
        )
}

/// The selected bytes of the first `n` lines, one after another.
pub open spec fn selected_bytes(
    bounds: Seq<(usize, usize)>,
    lines: Seq<String>,
    start: int,
    end: int,
    n: int,
) -> Seq<u8>
    decreases n,
{
    if n <= 0 {
        Seq::empty()
    } else {
        selected_bytes(bounds, lines, start, end, n - 1) + cut_bytes(
            utf8_of(lines[n - 1]@),
            cut_of(bounds, utf8_of(lines[n - 1]@), start, end, n - 1),
        )
    }
}

impl State {
    /// The text that the selection `start..end` covers, taken line by line
    /// from `lines` (line `i` laid out over `line_boundaries[i]`). `None`
    /// when a cut would fall inside a character, or past its own end.
    pub fn extract_text(&self, start: usize, end: usize, lines: &Vec<String>) -> (r: Option<
        String,
    >)
        ensures
            match r {
                Some(text) => cuts_fit(
                    self.line_boundaries@,
                    lines@,
                    start as int,
                    end as int,
                    lines@.len() as int,
                ) && utf8_of(text@) == selected_bytes(
                    self.line_boundaries@,
                    lines@,
                    start as int,
                    end as int,
                    lines@.len() as int,
                ),
                None => !cuts_fit(
                    self.line_boundaries@,
                    lines@,
                    start as int,
                    end as int,
                    lines@.len() as int,
                ),
            },
    {
        let ghost bounds = self.line_boundaries@;
        let mut text = String::new();
        let mut i: usize = 0;
        while i < lines.len()
            invariant
                bounds == self.line_boundaries@,
                i <= lines@.len(),
                cuts_fit(bounds, lines@, start as int, end as int, i as int),
                utf8_of(text@) == selected_bytes(bounds, lines@, start as int, end as int, i as int),
            decreases lines@.len() - i,
        {
            let line: &str = lines[i].as_str();
            let ghost bytes = utf8_of(lines@[i as int]@);
            assert(line.spec_bytes() == bytes);
            let ghost cut = cut_of(bounds, bytes, start as int, end as int, i as int);
            let mut piece: Option<&str> = None;
            if i < self.line_boundaries.len() {
                let (ls, le) = self.line_boundaries[i];
                if !(end <= ls || start >= le) {
                    let from = if start > ls {
                        start - ls
                    } else {
                        0
                    };
                    let len = line.as_bytes().len();
                    if from < len {
                        if le < ls {
                            proof {
                                assert(!cut_fits(
                                    utf8_of(lines@[i as int]@),
                                    cut_of(bounds, utf8_of(lines@[i as int]@), start as int, end as int, i as int),
                                ));
                            }
                            return None;
                        }
                        let to = if end - ls < le - ls {
                            end - ls
                        } else {
                            le - ls
                        };
                        let to = if to < len {
                            to
                        } else {
                            len
                        };
                        if from > to || !line.is_char_boundary(from) {
                            proof {
                                assert(!cut_fits(
                                    utf8_of(lines@[i as int]@),
                                    cut_of(bounds, utf8_of(lines@[i as int]@), start as int, end as int, i as int),
                                ));
                            }
                            return None;
                        }
                        assert(cut == Some((from as int, to as int)));
                        let (_, rest) = line.split_at(from);
                        assert(rest.spec_bytes() =~= bytes.subrange(from as int, bytes.len() as int));
                        if !rest.is_char_boundary(to - from) {
                            proof {
                                assert(!cut_fits(
                                    utf8_of(lines@[i as int]@),
                                    cut_of(bounds, utf8_of(lines@[i as int]@), start as int, end as int, i as int),
                                ));
                            }
                            return None;
                        }
                        let (taken, _) = rest.split_at(to - from);
                        assert(taken.spec_bytes() =~= bytes.subrange(from as int, to as int));
                        piece = Some(taken);
                    }
                }
            }
            proof {
                assert(cut_fits(bytes, cut));
                assert forall|k: int| 0 <= k < i + 1 implies cut_fits(
                    utf8_of(#[trigger] lines@[k]@),
                    cut_of(bounds, utf8_of(lines@[k]@), start as int, end as int, k),
                ) by {}
            }
            match piece {
                Some(p) => {
                    proof {
                        lemma_utf8_concat(text@, p@);
                    }
                    text.append(p);
                },
                None => {
                    assert(cut_bytes(bytes, cut) =~= Seq::<u8>::empty());
                    assert(utf8_of(text@) + cut_bytes(bytes, cut) =~= utf8_of(text@));
                },
            }
            i = i + 1;
        }
        Some(text)
    }
}

} // verus!
