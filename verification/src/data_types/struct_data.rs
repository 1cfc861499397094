//! Structs of the blueprint and their fields.
use vstd::prelude::*;
use crate::text::{
    doc_lines, lines_view, note_lines, opening_line, push_doc_line, push_note_line,
    push_opening_line, push_raw, span, span_of, spans_view, styled, type_span, type_span_of,
    LineV, Span, TextLine, Tone,
};

verus! {

/// A planned struct: its doc description, its name and its fields.
#[derive(Clone)]
pub struct Struct {
    pub description: String,
    pub name: String,
    pub fields: Vec<Field>,
}

/// A planned field: its name, its type and a note on it.
#[derive(Clone)]
pub struct Field {
    pub name: String,
    pub field_type: String,
    pub note: String,
}

/// A field as a mathematical value.
#[verifier::ext_equal]
pub struct FieldV {
    pub name: Seq<char>,
    pub field_type: Seq<char>,
    pub note: Seq<char>,
}

/// A struct as a mathematical value.
#[verifier::ext_equal]
pub struct StructV {
    pub description: Seq<char>,
    pub name: Seq<char>,
    pub fields: Seq<FieldV>,
}

impl View for Field {
    type V = FieldV;

    open spec fn view(&self) -> FieldV {
        FieldV { name: self.name@, field_type: self.field_type@, note: self.note@ }
    }
}

pub open spec fn fields_view(fields: Seq<Field>) -> Seq<FieldV> {
    fields.map_values(|f: Field| f@)
}

impl View for Struct {
    type V = StructV;

    open spec fn view(&self) -> StructV {
        StructV { description: self.description@, name: self.name@, fields: fields_view(self.fields@) }
    }
}

pub open spec fn structs_view(structs: Seq<Struct>) -> Seq<StructV> {
    structs.map_values(|s: Struct| s@)
}

/// The field with every text empty.
pub open spec fn empty_field() -> FieldV {
    FieldV { name: seq![], field_type: seq![], note: seq![] }
}

/// A field is blank when its name, type and note are all empty.
pub open spec fn is_blank_field(f: FieldV) -> bool {
    f.name.len() == 0 && f.field_type.len() == 0 && f.note.len() == 0
}

/// The struct that a new entry starts as.
pub open spec fn new_struct() -> StructV {
    StructV { description: seq![], name: "New Struct"@, fields: seq![] }
}

/// The struct with every text empty and no fields.
pub open spec fn empty_struct() -> StructV {
    StructV { description: seq![], name: seq![], fields: seq![] }
}

/// The preview lines of one field: its note, then `name: type,`.
pub open spec fn field_preview(f: FieldV) -> Seq<LineV> {
    note_lines(f.note) + seq![
        LineV::Styled(
            seq![
                ("    "@, Tone::Plain),
                (f.name, Tone::Yellow),
                (": "@, Tone::Plain),
                type_span(f.field_type),
                (","@, Tone::Plain),
            ],
        ),
    ]
}

/// The preview lines of the fields, one field after the other.
pub open spec fn fields_preview(fields: Seq<FieldV>) -> Seq<LineV>
    decreases fields.len(),
{
    if fields.len() == 0 {
        seq![]
    } else {
        fields_preview(fields.drop_last()) + field_preview(fields.last())
    }
}

/// The preview of a struct, written as Rust source.
pub open spec fn struct_preview(s: StructV) -> Seq<LineV> {
    doc_lines(s.description) + seq![opening_line("struct "@, s.name)] + fields_preview(s.fields)
        + seq![LineV::Raw("}"@), LineV::Raw("\n"@)]
}

impl Field {
    fn new() -> (r: Self)
        ensures
            r@ == empty_field(),
    {
        Field { name: String::new(), field_type: String::new(), note: String::new() }
    }
}

impl Struct {
    /// A new struct named `New Struct`, with no description and no fields.
    pub fn new() -> (r: Self)
        ensures
            r@ == new_struct(),
    {
        proof {
            reveal_strlit("New Struct");
        }
        Struct { description: String::new(), name: String::from_str("New Struct"), fields: Vec::new() }
    }

    /// A struct with every text empty and no fields.
    pub fn empty() -> (r: Self)
        ensures
            r@ == empty_struct(),
    {
        Struct { description: String::new(), name: String::new(), fields: Vec::new() }
    }

    /// The struct as preview lines.
    pub fn to_list_item(&self) -> (r: Vec<TextLine>)
        ensures
            lines_view(r@) == struct_preview(self@),
    {
        let mut lines: Vec<TextLine> = Vec::new();
        push_doc_line(&mut lines, &self.description);
        push_opening_line(&mut lines, "struct ", &self.name);
        let ghost head = lines_view(lines@);
        let mut i: usize = 0;
        while i < self.fields.len()
            invariant
                i <= self.fields.len(),
                lines_view(lines@) == head + fields_preview(fields_view(self.fields@.take(i as int))),
            decreases self.fields.len() - i,
        {
            let field = &self.fields[i];
            proof {
                let t = fields_view(self.fields@.take(i + 1));
                assert(t.drop_last() =~= fields_view(self.fields@.take(i as int)));
                assert(t.last() == field@);
            }
            let ghost before = lines_view(lines@);
            push_note_line(&mut lines, &field.note);
            let mut spans: Vec<Span> = Vec::new();
            spans.push(span("    ", Tone::Plain));
            spans.push(span_of(&field.name, Tone::Yellow));
            spans.push(span(": ", Tone::Plain));
            spans.push(type_span_of(&field.field_type));
            spans.push(span(",", Tone::Plain));
            assert(spans_view(spans@) =~= seq![
                ("    "@, Tone::Plain),
                (field.name@, Tone::Yellow),
                (": "@, Tone::Plain),
                type_span(field.field_type@),
                (","@, Tone::Plain),
            ]);
            let ghost before_line = lines@;
            lines.push(styled(spans));
            proof {
                assert(lines_view(lines@) =~= lines_view(before_line).push(lines@.last()@));
                assert(lines_view(lines@) =~= before + field_preview(field@));
            }
            i = i + 1;
        }
        proof {
            assert(self.fields@.take(self.fields.len() as int) =~= self.fields@);
        }
        push_raw(&mut lines, "}");
        push_raw(&mut lines, "\n");
        assert(lines_view(lines@) =~= struct_preview(self@));
        lines
    }

    /// Appends an empty field.
    pub fn add_field(&mut self)
        ensures
            final(self)@ == (StructV { fields: old(self)@.fields.push(empty_field()), ..old(self)@ }),
    {
        let ghost before = self.fields@;
        self.fields.push(Field::new());
        assert(fields_view(self.fields@) =~= fields_view(before).push(empty_field()));
    }
}

impl Default for Struct {
    fn default() -> (r: Self)
        ensures
            r@ == empty_struct(),
    {
        Struct::empty()
    }
}

/// The preview of a struct starts with the doc line `/// <description>`
/// (both parts grey) when the description is not empty, then the line
/// `struct <name> {` (the keyword magenta, the rest plain), and ends with
/// the closing lines.
pub proof fn lemma_struct_preview_frame(x: StructV)
    ensures
        ({
            let p = struct_preview(x);
            let opening = LineV::Styled(
                seq![("struct "@, Tone::Magenta), (x.name, Tone::Plain), (" {"@, Tone::Plain)],
            );
            let doc = LineV::Styled(
                seq![("/// "@, Tone::DarkGray), (x.description, Tone::DarkGray)],
            );
            &&& x.description.len() > 0 ==> p.len() >= 4 && p[0] == doc && p[1] == opening
            &&& x.description.len() == 0 ==> p.len() >= 3 && p[0] == opening
            &&& p[p.len() - 2] == LineV::Raw("}"@)
            &&& p[p.len() - 1] == LineV::Raw("\n"@)
        }),
{
    let p = struct_preview(x);
    let head = doc_lines(x.description) + seq![opening_line("struct "@, x.name)];
    assert(p == head + fields_preview(x.fields) + seq![LineV::Raw("}"@), LineV::Raw("\n"@)]);
}

/// When no field has a note, the fields' preview has one line per field, in
/// order: four spaces, the name in yellow, `: `, the type (or a grey
/// `unknown...` when it is empty), and `,`.
pub proof fn lemma_fields_preview_without_notes(fs: Seq<FieldV>)
    requires
        forall|i: int| 0 <= i < fs.len() ==> #[trigger] fs[i].note.len() == 0,
    ensures
        fields_preview(fs).len() == fs.len(),
        forall|i: int|
            0 <= i < fs.len() ==> #[trigger] fields_preview(fs)[i] == LineV::Styled(
                seq![
                    ("    "@, Tone::Plain),
                    (fs[i].name, Tone::Yellow),
                    (": "@, Tone::Plain),
                    if fs[i].field_type.len() == 0 {
                        ("unknown..."@, Tone::DarkGray)
                    } else {
                        (fs[i].field_type, Tone::Plain)
                    },
                    (","@, Tone::Plain),
                ],
            ),
    decreases fs.len(),
{
    if fs.len() > 0 {
        let p = fs.drop_last();
        assert forall|i: int| 0 <= i < p.len() implies #[trigger] p[i].note.len() == 0 by {
            assert(p[i] == fs[i]);
        }
        lemma_fields_preview_without_notes(p);
        assert(fs.last().note.len() == fs[fs.len() - 1].note.len());
        let r = fields_preview(p);
        assert(fields_preview(fs) == r + field_preview(fs.last()));
        assert forall|i: int| 0 <= i < fs.len() implies #[trigger] fields_preview(fs)[i]
            == LineV::Styled(
            seq![
                ("    "@, Tone::Plain),
                (fs[i].name, Tone::Yellow),
                (": "@, Tone::Plain),
                if fs[i].field_type.len() == 0 {
                    ("unknown..."@, Tone::DarkGray)
                } else {
                    (fs[i].field_type, Tone::Plain)
                },
                (","@, Tone::Plain),
            ],
        ) by {
            if i < p.len() {
                assert(p[i] == fs[i]);
                assert(fields_preview(fs)[i] == r[i]);
            }
        }
    }
}

} // verus!
