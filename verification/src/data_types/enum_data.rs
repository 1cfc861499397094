//! Enums of the blueprint and their variants.
use vstd::prelude::*;
use crate::text::{
    doc_lines, lines_view, note_lines, opening_line, push_doc_line, push_note_line,
    push_opening_line, push_raw, span, span_of, spans_view, styled, LineV, Span, TextLine, Tone,
};

verus! {

/// A planned enum: its doc description, its name and its variants.
pub struct Enum {
    pub description: String,
    pub name: String,
    pub variants: Vec<Variant>,
}

/// A planned variant: its name and a note on it.
pub struct Variant {
    pub name: String,
    pub note: String,
}

/// A variant as a mathematical value.
#[verifier::ext_equal]
pub struct VariantV {
    pub name: Seq<char>,
    pub note: Seq<char>,
}

/// An enum as a mathematical value.
#[verifier::ext_equal]
pub struct EnumV {
    pub description: Seq<char>,
    pub name: Seq<char>,
    pub variants: Seq<VariantV>,
}

impl View for Variant {
    type V = VariantV;

    open spec fn view(&self) -> VariantV {
        VariantV { name: self.name@, note: self.note@ }
    }
}

pub open spec fn variants_view(variants: Seq<Variant>) -> Seq<VariantV> {
    variants.map_values(|v: Variant| v@)
}

impl View for Enum {
    type V = EnumV;

    open spec fn view(&self) -> EnumV {
        EnumV {
            description: self.description@,
            name: self.name@,
            variants: variants_view(self.variants@),
        }
    }
}

pub open spec fn enums_view(enums: Seq<Enum>) -> Seq<EnumV> {
    enums.map_values(|e: Enum| e@)
}

/// The variant with every text empty.
pub open spec fn empty_variant() -> VariantV {
    VariantV { name: seq![], note: seq![] }
}

/// The enum that a new entry starts as: named `New Enum`, with one empty variant.
pub open spec fn new_enum() -> EnumV {
    EnumV { description: seq![], name: "New Enum"@, variants: seq![empty_variant()] }
}

/// The enum with every text empty and no variants.
pub open spec fn empty_enum() -> EnumV {
    EnumV { description: seq![], name: seq![], variants: seq![] }
}

/// The preview lines of one variant: its note, then `name,`.
pub open spec fn variant_preview(v: VariantV) -> Seq<LineV> {
    note_lines(v.note) + seq![
        LineV::Styled(seq![("    "@, Tone::Plain), (v.name, Tone::Yellow), (","@, Tone::Plain)]),
    ]
}

/// The preview lines of the variants, one after the other.
pub open spec fn variants_preview(variants: Seq<VariantV>) -> Seq<LineV>
    decreases variants.len(),
{
    if variants.len() == 0 {
        seq![]
    } else {
        variants_preview(variants.drop_last()) + variant_preview(variants.last())
    }
}

/// The preview of an enum, written as Rust source.
pub open spec fn enum_preview(e: EnumV) -> Seq<LineV> {
    doc_lines(e.description) + seq![opening_line("enum "@, e.name)] + variants_preview(e.variants)
        + seq![LineV::Raw("}"@), LineV::Raw("\n"@)]
}

impl Variant {
    fn new() -> (r: Self)
        ensures
            r@ == empty_variant(),
    {
        Variant { name: String::new(), note: String::new() }
    }
}

impl Default for Variant {
    fn default() -> (r: Self)
        ensures
            r@ == empty_variant(),
    {
        Variant::new()
    }
}

impl Enum {
    /// A new enum named `New Enum`, with no description and one empty variant.
    pub fn new() -> (r: Self)
        ensures
            r@ == new_enum(),
    {
        proof {
            reveal_strlit("New Enum");
        }
        let mut variants: Vec<Variant> = Vec::new();
        variants.push(Variant::new());
        let r = Enum { description: String::new(), name: String::from_str("New Enum"), variants };
        assert(variants_view(r.variants@) =~= seq![empty_variant()]);
        r
    }

    /// An enum with every text empty and no variants.
    pub fn empty() -> (r: Self)
        ensures
            r@ == empty_enum(),
    {
        Enum { description: String::new(), name: String::new(), variants: Vec::new() }
    }

    /// The enum as preview lines.
    pub fn to_list_item(&self) -> (r: Vec<TextLine>)
        ensures
            lines_view(r@) == enum_preview(self@),
    {
        let mut lines: Vec<TextLine> = Vec::new();
        push_doc_line(&mut lines, &self.description);
        push_opening_line(&mut lines, "enum ", &self.name);
        let ghost head = lines_view(lines@);
        let mut i: usize = 0;
        while i < self.variants.len()
            invariant
                i <= self.variants.len(),
                lines_view(lines@) == head + variants_preview(
                    variants_view(self.variants@.take(i as int)),
                ),
            decreases self.variants.len() - i,
        {
            let variant = &self.variants[i];
            proof {
                let t = variants_view(self.variants@.take(i + 1));
                assert(t.drop_last() =~= variants_view(self.variants@.take(i as int)));
                assert(t.last() == variant@);
            }
            let ghost before = lines_view(lines@);
            push_note_line(&mut lines, &variant.note);
            let mut spans: Vec<Span> = Vec::new();
            spans.push(span("    ", Tone::Plain));
            spans.push(span_of(&variant.name, Tone::Yellow));
            spans.push(span(",", Tone::Plain));
            assert(spans_view(spans@) =~= seq![
                ("    "@, Tone::Plain),
                (variant.name@, Tone::Yellow),
                (","@, Tone::Plain),
            ]);
            let ghost before_line = lines@;
            lines.push(styled(spans));
            proof {
                assert(lines_view(lines@) =~= lines_view(before_line).push(lines@.last()@));
                assert(lines_view(lines@) =~= before + variant_preview(variant@));
            }
            i = i + 1;
        }
        proof {
            assert(self.variants@.take(self.variants.len() as int) =~= self.variants@);
        }
        push_raw(&mut lines, "}");
        push_raw(&mut lines, "\n");
        assert(lines_view(lines@) =~= enum_preview(self@));
        lines
    }

    /// Appends an empty variant.
    pub fn add_variant(&mut self)
        ensures
            final(self)@ == (EnumV {
                variants: old(self)@.variants.push(empty_variant()),
                ..old(self)@
            }),
    {
        let ghost before = self.variants@;
        self.variants.push(Variant::new());
        assert(variants_view(self.variants@) =~= variants_view(before).push(empty_variant()));
    }
}

impl Default for Enum {
    fn default() -> (r: Self)
        ensures
            r@ == empty_enum(),
    {
        Enum::empty()
    }
}

/// The preview of a enum starts with the doc line `/// <description>`
/// (both parts grey) when the description is not empty, then the line
/// `enum <name> {` (the keyword magenta, the rest plain), and ends with
/// the closing lines.
pub proof fn lemma_enum_preview_frame(x: EnumV)
    ensures
        ({
            let p = enum_preview(x);
            let opening = LineV::Styled(
                seq![("enum "@, Tone::Magenta), (x.name, Tone::Plain), (" {"@, Tone::Plain)],
            );
            let doc = LineV::Styled(
                seq![("/// "@, Tone::DarkGray), (x.description, Tone::DarkGray)],
            );
            &&& x.description.len() > 0 ==> p.len() >= 4 && p[0] == doc && p[1] == opening
            &&& x.description.len() == 0 ==> p.len() >= 3 && p[0] == opening
            &&& p[p.len() - 2] == LineV::Raw("}"@)
            &&& p[p.len() - 1] == LineV::Raw("\n"@)
        }),
{
    let p = enum_preview(x);
    let head = doc_lines(x.description) + seq![opening_line("enum "@, x.name)];
    assert(p == head + variants_preview(x.variants) + seq![LineV::Raw("}"@), LineV::Raw("\n"@)]);
}

/// When no variant has a note, the variants' preview has one line per
/// variant, in order: four spaces, the name in yellow, and `,`.
pub proof fn lemma_variants_preview_without_notes(vs: Seq<VariantV>)
    requires
        forall|i: int| 0 <= i < vs.len() ==> #[trigger] vs[i].note.len() == 0,
    ensures
        variants_preview(vs).len() == vs.len(),
        forall|i: int|
            0 <= i < vs.len() ==> #[trigger] variants_preview(vs)[i] == LineV::Styled(
                seq![("    "@, Tone::Plain), (vs[i].name, Tone::Yellow), (","@, Tone::Plain)],
            ),
    decreases vs.len(),
{
    if vs.len() > 0 {
        let p = vs.drop_last();
        assert forall|i: int| 0 <= i < p.len() implies #[trigger] p[i].note.len() == 0 by {
            assert(p[i] == vs[i]);
        }
        lemma_variants_preview_without_notes(p);
        assert(vs.last().note.len() == vs[vs.len() - 1].note.len());
        let r = variants_preview(p);
        assert(variants_preview(vs) == r + variant_preview(vs.last()));
        assert forall|i: int| 0 <= i < vs.len() implies #[trigger] variants_preview(vs)[i]
            == LineV::Styled(
            seq![("    "@, Tone::Plain), (vs[i].name, Tone::Yellow), (","@, Tone::Plain)],
        ) by {
            if i < p.len() {
                assert(p[i] == vs[i]);
                assert(variants_preview(vs)[i] == r[i]);
            }
        }
    }
}

} // verus!
