//! Plain-value text: styled preview lines, and splitting / joining of
//! multi-line text at line breaks.
use vstd::prelude::*;

verus! {

/// The colour a piece of preview text is drawn in.
#[derive(PartialEq, Eq, Structural, Clone, Copy, Debug)]
pub enum Tone {
    Plain,
    DarkGray,
    Magenta,
    Yellow,
    Cyan,
}

/// A run of text drawn in one tone.
pub struct Span {
    pub text: String,
    pub tone: Tone,
}

/// One line of a preview.
///
/// `Raw` is a line made from a whole string, which the terminal front end
/// breaks at its own line breaks; `Styled` is a line made of spans, each
/// kept as it is.
pub enum TextLine {
    Raw(String),
    Styled(Vec<Span>),
}

/// A span as a mathematical value: its characters and its tone.
pub type SpanV = (Seq<char>, Tone);

/// A preview line as a mathematical value.
pub enum LineV {
    Raw(Seq<char>),
    Styled(Seq<SpanV>),
}

impl View for Span {
    type V = SpanV;

    open spec fn view(&self) -> SpanV {
        (self.text@, self.tone)
    }
}

pub open spec fn spans_view(spans: Seq<Span>) -> Seq<SpanV> {
    spans.map_values(|s: Span| s@)
}

impl View for TextLine {
    type V = LineV;

    open spec fn view(&self) -> LineV {
        match self {
            TextLine::Raw(s) => LineV::Raw(s@),
            TextLine::Styled(spans) => LineV::Styled(spans_view(spans@)),
        }
    }
}

/// The view of a sequence of preview lines.
pub open spec fn lines_view(lines: Seq<TextLine>) -> Seq<LineV> {
    lines.map_values(|l: TextLine| l@)
}

/// A span holding a copy of `text`.
pub fn span(text: &str, tone: Tone) -> (r: Span)
    ensures
        r@ == (text@, tone),
{
    Span { text: String::from_str(text), tone }
}

/// A line made of the given spans.
pub fn styled(spans: Vec<Span>) -> (r: TextLine)
    ensures
        r@ == LineV::Styled(spans_view(spans@)),
{
    TextLine::Styled(spans)
}

/// A raw line holding a copy of `text`.
pub fn raw(text: &str) -> (r: TextLine)
    ensures
        r@ == LineV::Raw(text@),
{
    TextLine::Raw(String::from_str(text))
}

/// A span holding a copy of `text`.
pub fn span_of(text: &String, tone: Tone) -> (r: Span)
    ensures
        r@ == (text@, tone),
{
    Span { text: text.clone(), tone }
}

/// The doc-comment line shown above an item when it has a description.
pub open spec fn doc_lines(description: Seq<char>) -> Seq<LineV> {
    if description.len() == 0 {
        seq![]
    } else {
        seq![LineV::Styled(seq![("/// "@, Tone::DarkGray), (description, Tone::DarkGray)])]
    }
}

/// The indented doc-comment line shown above a member when it has a note.
pub open spec fn note_lines(note: Seq<char>) -> Seq<LineV> {
    if note.len() == 0 {
        seq![]
    } else {
        seq![LineV::Styled(seq![("    /// "@, Tone::DarkGray), (note, Tone::DarkGray)])]
    }
}

/// How a type is shown: as written, or a grey `unknown...` when it is empty.
pub open spec fn type_span(t: Seq<char>) -> SpanV {
    if t.len() == 0 {
        ("unknown..."@, Tone::DarkGray)
    } else {
        (t, Tone::Plain)
    }
}

/// The line `<keyword><name> {` that opens an item.
pub open spec fn opening_line(keyword: Seq<char>, name: Seq<char>) -> LineV {
    LineV::Styled(seq![(keyword, Tone::Magenta), (name, Tone::Plain), (" {"@, Tone::Plain)])
}

/// Appends `doc_lines(description)`.
pub fn push_doc_line(lines: &mut Vec<TextLine>, description: &String)
    ensures
        lines_view(final(lines)@) == lines_view(old(lines)@) + doc_lines(description@),
{
    let ghost before = lines@;
    if !description.as_str().is_empty() {
        let mut spans: Vec<Span> = Vec::new();
        spans.push(span("/// ", Tone::DarkGray));
        spans.push(span_of(description, Tone::DarkGray));
        lines.push(styled(spans));
        assert(spans_view(spans@) =~= seq![("/// "@, Tone::DarkGray), (description@, Tone::DarkGray)]);
    }
    assert(lines_view(lines@) =~= lines_view(before) + doc_lines(description@));
}

/// Appends `note_lines(note)`.
pub fn push_note_line(lines: &mut Vec<TextLine>, note: &String)
    ensures
        lines_view(final(lines)@) == lines_view(old(lines)@) + note_lines(note@),
{
    let ghost before = lines@;
    if !note.as_str().is_empty() {
        let mut spans: Vec<Span> = Vec::new();
        spans.push(span("    /// ", Tone::DarkGray));
        spans.push(span_of(note, Tone::DarkGray));
        lines.push(styled(spans));
        assert(spans_view(spans@) =~= seq![("    /// "@, Tone::DarkGray), (note@, Tone::DarkGray)]);
    }
    assert(lines_view(lines@) =~= lines_view(before) + note_lines(note@));
}

/// The span `type_span(t)`.
pub fn type_span_of(t: &String) -> (r: Span)
    ensures
        r@ == type_span(t@),
{
    if t.as_str().is_empty() {
        span("unknown...", Tone::DarkGray)
    } else {
        span_of(t, Tone::Plain)
    }
}

/// Appends `opening_line(keyword, name)`.
pub fn push_opening_line(lines: &mut Vec<TextLine>, keyword: &str, name: &String)
    ensures
        lines_view(final(lines)@) == lines_view(old(lines)@).push(opening_line(keyword@, name@)),
{
    let ghost before = lines@;
    let mut spans: Vec<Span> = Vec::new();
    spans.push(span(keyword, Tone::Magenta));
    spans.push(span_of(name, Tone::Plain));
    spans.push(span(" {", Tone::Plain));
    assert(spans_view(spans@) =~= seq![(keyword@, Tone::Magenta), (name@, Tone::Plain), (" {"@, Tone::Plain)]);
    lines.push(styled(spans));
    assert(lines_view(lines@) =~= lines_view(before).push(opening_line(keyword@, name@)));
}

/// Appends the raw line `text`.
pub fn push_raw(lines: &mut Vec<TextLine>, text: &str)
    ensures
        lines_view(final(lines)@) == lines_view(old(lines)@).push(LineV::Raw(text@)),
{
    let ghost before = lines@;
    lines.push(raw(text));
    assert(lines_view(lines@) =~= lines_view(before).push(LineV::Raw(text@)));
}

/// Whether the two texts are equal.
pub fn str_eq(a: &str, b: &str) -> (r: bool)
    ensures
        r == (a@ == b@),
{
    String::from_str(a) == String::from_str(b)
}

/// The pieces of `s` between its line breaks (`'\n'`), in order: one more
/// piece than `s` has line breaks, so the empty text has one empty piece.
pub open spec fn split_spec(s: Seq<char>) -> Seq<Seq<char>>
    decreases s.len(),
{
    if s.len() == 0 {
        seq![Seq::<char>::empty()]
    } else {
        let rest = split_spec(s.drop_last());
        if s.last() == '\n' {
            rest.push(Seq::<char>::empty())
        } else {
            rest.update(rest.len() - 1, rest.last().push(s.last()))
        }
    }
}

/// The pieces joined, with one line break between each two of them.
pub open spec fn join_spec(parts: Seq<Seq<char>>) -> Seq<char>
    decreases parts.len(),
{
    if parts.len() == 0 {
        Seq::<char>::empty()
    } else if parts.len() == 1 {
        parts[0]
    } else {
        join_spec(parts.drop_last()) + seq!['\n'] + parts.last()
    }
}

pub open spec fn strings_view(v: Seq<String>) -> Seq<Seq<char>> {
    v.map_values(|s: String| s@)
}

proof fn lemma_split_nonempty(s: Seq<char>)
    ensures
        split_spec(s).len() >= 1,
    decreases s.len(),
{
    if s.len() > 0 {
        lemma_split_nonempty(s.drop_last());
    }
}

/// Splits `s` at its line breaks, as `str::split('\n')` does.
pub fn split_lines(s: &str) -> (r: Vec<String>)
    ensures
        strings_view(r@) == split_spec(s@),
{
    let n = s.unicode_len();
    let mut pieces: Vec<String> = Vec::new();
    let mut start: usize = 0;
    let mut i: usize = 0;
    proof {
        assert(s@.take(0) =~= Seq::<char>::empty());
        assert(strings_view(pieces@).push(s@.subrange(0, 0)) =~= seq![Seq::<char>::empty()]);
    }
    while i < n
        invariant
            n == s@.len(),
            start <= i <= n,
            split_spec(s@.take(i as int)) == strings_view(pieces@).push(
                s@.subrange(start as int, i as int),
            ),
        decreases n - i,
    {
        let c = s.get_char(i);
        proof {
            assert(s@.take(i + 1).drop_last() =~= s@.take(i as int));
            assert(s@.take(i + 1).last() == c);
        }
        if c == '\n' {
            let piece = String::from_str(s.substring_char(start, i));
            let ghost old_pieces = pieces@;
            pieces.push(piece);
            proof {
                assert(strings_view(pieces@) =~= strings_view(old_pieces).push(
                    s@.subrange(start as int, i as int),
                ));
                assert(s@.subrange(i + 1, i + 1) =~= Seq::<char>::empty());
            }
            start = i + 1;
        } else {
            proof {
                assert(s@.subrange(start as int, i + 1) =~= s@.subrange(start as int, i as int).push(
                    c,
                ));
            }
        }
        i = i + 1;
    }
    let last = String::from_str(s.substring_char(start, n));
    let ghost old_pieces = pieces@;
    pieces.push(last);
    proof {
        assert(s@.take(n as int) =~= s@);
        assert(strings_view(pieces@) =~= strings_view(old_pieces).push(
            s@.subrange(start as int, n as int),
        ));
    }
    pieces
}

/// Joins the pieces with a line break between each two of them, as
/// `[String]::join("\n")` does.
pub fn join_lines(parts: &Vec<String>) -> (r: String)
    ensures
        r@ == join_spec(strings_view(parts@)),
{
    let mut out = String::new();
    let mut i: usize = 0;
    while i < parts.len()
        invariant
            i <= parts.len(),
            out@ == join_spec(strings_view(parts@.take(i as int))),
        decreases parts.len() - i,
    {
        proof {
            let t = strings_view(parts@.take(i + 1));
            assert(t.drop_last() =~= strings_view(parts@.take(i as int)));
            assert(t.last() == parts@[i as int]@);
        }
        if i > 0 {
            out.append("\n");
            proof {
                reveal_strlit("\n");
            }
        }
        out.append(parts[i].as_str());
        proof {
            if i == 0 {
                assert(out@ =~= strings_view(parts@.take(1))[0]);
            } else {
                assert(out@ =~= join_spec(strings_view(parts@.take(i as int))) + seq!['\n']
                    + parts@[i as int]@);
            }
        }
        i = i + 1;
    }
    proof {
        assert(parts@.take(parts.len() as int) =~= parts@);
    }
    out
}

/// No piece of `split_spec(s)` holds a line break.
pub open spec fn no_line_breaks(parts: Seq<Seq<char>>) -> bool {
    forall|i: int, j: int|
        0 <= i < parts.len() && 0 <= j < parts[i].len() ==> #[trigger] parts[i][j] != '\n'
}

proof fn lemma_join_extend_last(p: Seq<Seq<char>>, c: char)
    requires
        p.len() >= 1,
    ensures
        join_spec(p.update(p.len() - 1, p.last().push(c))) == join_spec(p).push(c),
{
    let q = p.update(p.len() - 1, p.last().push(c));
    if p.len() >= 2 {
        assert(q.drop_last() =~= p.drop_last());
        assert(join_spec(q) =~= join_spec(p).push(c));
    }
}

proof fn lemma_split_append_plain(x: Seq<char>, y: Seq<char>)
    requires
        forall|j: int| 0 <= j < y.len() ==> y[j] != '\n',
    ensures
        split_spec(x + y) == split_spec(x).update(
            split_spec(x).len() - 1,
            split_spec(x).last() + y,
        ),
    decreases y.len(),
{
    lemma_split_nonempty(x);
    let r = split_spec(x);
    if y.len() == 0 {
        assert(x + y =~= x);
        assert(r.last() + y =~= r.last());
        assert(r.update(r.len() - 1, r.last() + y) =~= r);
    } else {
        let y1 = y.drop_last();
        lemma_split_append_plain(x, y1);
        assert((x + y).drop_last() =~= x + y1);
        assert((x + y).last() == y.last());
        let r1 = split_spec(x + y1);
        assert(r1 =~= r.update(r.len() - 1, r.last() + y1));
        assert((r.last() + y1).push(y.last()) =~= r.last() + y);
        assert(split_spec(x + y) =~= r1.update(r1.len() - 1, r1.last().push(y.last())));
        assert(r1.update(r1.len() - 1, r1.last().push(y.last())) =~= r.update(
            r.len() - 1,
            r.last() + y,
        ));
    }
}

/// Joining the pieces of a text at its line breaks gives the text back: an
/// editor loaded with the lines of a description and saved unchanged stores
/// the same description.
pub proof fn lemma_join_split(s: Seq<char>)
    ensures
        join_spec(split_spec(s)) == s,
    decreases s.len(),
{
    if s.len() > 0 {
        let s1 = s.drop_last();
        lemma_join_split(s1);
        lemma_split_nonempty(s1);
        let r = split_spec(s1);
        if s.last() == '\n' {
            let q = r.push(Seq::<char>::empty());
            assert(q.drop_last() =~= r);
            assert(join_spec(q) =~= s);
        } else {
            lemma_join_extend_last(r, s.last());
            assert(s1.push(s.last()) =~= s);
        }
    }
}

/// Splitting the joined lines of an editor gives the same lines back, when
/// there is at least one line and no line holds a line break.
pub proof fn lemma_split_join(parts: Seq<Seq<char>>)
    requires
        parts.len() >= 1,
        no_line_breaks(parts),
    ensures
        split_spec(join_spec(parts)) == parts,
    decreases parts.len(),
{
    let last = parts.last();
    assert forall|j: int| 0 <= j < last.len() implies last[j] != '\n' by {
        assert(parts[parts.len() - 1][j] != '\n');
    }
    if parts.len() == 1 {
        lemma_split_append_plain(Seq::<char>::empty(), last);
        assert(Seq::<char>::empty() + last =~= last);
        assert(Seq::<char>::empty() + last =~= parts[0]);
        assert(split_spec(Seq::<char>::empty()).update(0, Seq::<char>::empty() + last) =~= parts);
    } else {
        let p1 = parts.drop_last();
        assert forall|i: int, j: int| 0 <= i < p1.len() && 0 <= j < p1[i].len() implies #[trigger] p1[i][j]
            != '\n' by {
            assert(parts[i][j] != '\n');
        }
        lemma_split_join(p1);
        let x = join_spec(p1) + seq!['\n'];
        lemma_split_append_plain(x, last);
        assert(x.drop_last() =~= join_spec(p1));
        let r = split_spec(x);
        assert(r =~= p1.push(Seq::<char>::empty()));
        assert(Seq::<char>::empty() + last =~= last);
        assert(r.update(r.len() - 1, r.last() + last) =~= parts);
    }
}

} // verus!
