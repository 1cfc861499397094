//! Traits of the blueprint, their methods and the methods' arguments.
use vstd::prelude::*;
use crate::text::{
    doc_lines, lines_view, opening_line, push_doc_line, push_opening_line, push_raw, span,
    span_of, spans_view, styled, type_span, type_span_of, LineV, Span, TextLine, Tone,
};

verus! {

/// A planned trait: its doc description, its name and its methods.
#[derive(Debug)]
pub struct Trait {
    pub description: String,
    pub name: String,
    pub methods: Vec<Method>,
}

/// A planned method: its name, its return type and its arguments.
#[derive(Debug)]
pub struct Method {
    pub name: String,
    pub return_type: String,
    pub arguments: Vec<Argument>,
}

/// A planned argument: its name and its type.
#[derive(Debug)]
pub struct Argument {
    pub name: String,
    pub argument_type: String,
}

/// An argument as a mathematical value.
#[verifier::ext_equal]
pub struct ArgumentV {
    pub name: Seq<char>,
    pub argument_type: Seq<char>,
}

/// A method as a mathematical value.
#[verifier::ext_equal]
pub struct MethodV {
    pub name: Seq<char>,
    pub return_type: Seq<char>,
    pub arguments: Seq<ArgumentV>,
}

/// A trait as a mathematical value.
#[verifier::ext_equal]
pub struct TraitV {
    pub description: Seq<char>,
    pub name: Seq<char>,
    pub methods: Seq<MethodV>,
}

impl View for Argument {
    type V = ArgumentV;

    open spec fn view(&self) -> ArgumentV {
        ArgumentV { name: self.name@, argument_type: self.argument_type@ }
    }
}

pub open spec fn arguments_view(arguments: Seq<Argument>) -> Seq<ArgumentV> {
    arguments.map_values(|a: Argument| a@)
}

impl View for Method {
    type V = MethodV;

    open spec fn view(&self) -> MethodV {
        MethodV {
            name: self.name@,
            return_type: self.return_type@,
            arguments: arguments_view(self.arguments@),
        }
    }
}

pub open spec fn methods_view(methods: Seq<Method>) -> Seq<MethodV> {
    methods.map_values(|m: Method| m@)
}

impl View for Trait {
    type V = TraitV;

    open spec fn view(&self) -> TraitV {
        TraitV { description: self.description@, name: self.name@, methods: methods_view(self.methods@) }
    }
}

pub open spec fn traits_view(traits: Seq<Trait>) -> Seq<TraitV> {
    traits.map_values(|t: Trait| t@)
}

/// The argument with an empty name and an empty type.
pub open spec fn empty_argument() -> ArgumentV {
    ArgumentV { name: seq![], argument_type: seq![] }
}

/// The method with every text empty and no arguments.
pub open spec fn empty_method() -> MethodV {
    MethodV { name: seq![], return_type: seq![], arguments: seq![] }
}

/// The method that a new entry starts as: every text empty and one empty argument.
pub open spec fn new_method() -> MethodV {
    MethodV { name: seq![], return_type: seq![], arguments: seq![empty_argument()] }
}

/// The trait that a new entry starts as: named `New Trait`, with one empty
/// method that has no arguments.
pub open spec fn new_trait() -> TraitV {
    TraitV { description: seq![], name: "New Trait"@, methods: seq![empty_method()] }
}

/// The trait with every text empty and no methods.
pub open spec fn empty_trait() -> TraitV {
    TraitV { description: seq![], name: seq![], methods: seq![] }
}

/// The preview line of one argument: `name: type`.
pub open spec fn argument_preview(a: ArgumentV) -> LineV {
    LineV::Styled(
        seq![
            ("        "@, Tone::Plain),
            (a.name, Tone::Yellow),
            (": "@, Tone::Plain),
            type_span(a.argument_type),
        ],
    )
}

/// The preview lines of the arguments, one line each.
pub open spec fn arguments_preview(arguments: Seq<ArgumentV>) -> Seq<LineV> {
    arguments.map_values(|a: ArgumentV| argument_preview(a))
}

/// The line that closes a method's signature, with its return type if it has one.
pub open spec fn return_line(return_type: Seq<char>) -> LineV {
    if return_type.len() == 0 {
        LineV::Styled(seq![("    );"@, Tone::Plain)])
    } else {
        LineV::Styled(
            seq![("    ) -> "@, Tone::Plain), (return_type, Tone::Plain), (";"@, Tone::Plain)],
        )
    }
}

/// The preview lines of one method: `fn name (`, its arguments, the closing
/// line and an empty line.
pub open spec fn method_preview(m: MethodV) -> Seq<LineV> {
    seq![LineV::Styled(seq![("    fn "@, Tone::Plain), (m.name, Tone::Cyan), (" ("@, Tone::Plain)])]
        + arguments_preview(m.arguments) + seq![return_line(m.return_type), LineV::Styled(seq![])]
}

/// The preview lines of the methods, one method after the other.
pub open spec fn methods_preview(methods: Seq<MethodV>) -> Seq<LineV>
    decreases methods.len(),
{
    if methods.len() == 0 {
        seq![]
    } else {
        methods_preview(methods.drop_last()) + method_preview(methods.last())
    }
}

/// The preview of a trait, written as Rust source.
pub open spec fn trait_preview(t: TraitV) -> Seq<LineV> {
    doc_lines(t.description) + seq![opening_line("trait "@, t.name)] + methods_preview(t.methods)
        + seq![LineV::Raw("}"@), LineV::Raw(""@), LineV::Raw(""@)]
}

impl Default for Argument {
    fn default() -> (r: Self)
        ensures
            r@ == empty_argument(),
    {
        Argument { name: String::new(), argument_type: String::new() }
    }
}

impl Default for Method {
    fn default() -> (r: Self)
        ensures
            r@ == empty_method(),
    {
        Method { name: String::new(), return_type: String::new(), arguments: Vec::new() }
    }
}

impl Default for Trait {
    fn default() -> (r: Self)
        ensures
            r@ == empty_trait(),
    {
        Trait { description: String::new(), name: String::new(), methods: Vec::new() }
    }
}

/// Appends the preview lines of `m`.
fn push_method_preview(lines: &mut Vec<TextLine>, m: &Method)
    ensures
        lines_view(final(lines)@) == lines_view(old(lines)@) + method_preview(m@),
{
    let ghost start = lines_view(lines@);
    let mut spans: Vec<Span> = Vec::new();
    spans.push(span("    fn ", Tone::Plain));
    spans.push(span_of(&m.name, Tone::Cyan));
    spans.push(span(" (", Tone::Plain));
    assert(spans_view(spans@) =~= seq![("    fn "@, Tone::Plain), (m.name@, Tone::Cyan), (" ("@, Tone::Plain)]);
    lines.push(styled(spans));
    let ghost head = lines_view(lines@);
    assert(head =~= start + seq![LineV::Styled(seq![("    fn "@, Tone::Plain), (m.name@, Tone::Cyan), (" ("@, Tone::Plain)])]);
    let mut i: usize = 0;
    while i < m.arguments.len()
        invariant
            i <= m.arguments.len(),
            lines_view(lines@) == head + arguments_preview(arguments_view(m.arguments@.take(i as int))),
        decreases m.arguments.len() - i,
    {
        let argument = &m.arguments[i];
        let mut spans: Vec<Span> = Vec::new();
        spans.push(span("        ", Tone::Plain));
        spans.push(span_of(&argument.name, Tone::Yellow));
        spans.push(span(": ", Tone::Plain));
        spans.push(type_span_of(&argument.argument_type));
        assert(spans_view(spans@) =~= seq![
            ("        "@, Tone::Plain),
            (argument.name@, Tone::Yellow),
            (": "@, Tone::Plain),
            type_span(argument.argument_type@),
        ]);
        let ghost before = lines@;
        lines.push(styled(spans));
        proof {
            assert(arguments_view(m.arguments@.take(i + 1)) =~= arguments_view(
                m.arguments@.take(i as int),
            ).push(argument@));
            assert(lines_view(lines@) =~= lines_view(before).push(argument_preview(argument@)));
            assert(lines_view(lines@) =~= head + arguments_preview(
                arguments_view(m.arguments@.take(i + 1)),
            ));
        }
        i = i + 1;
    }
    proof {
        assert(m.arguments@.take(m.arguments.len() as int) =~= m.arguments@);
    }
    let mut spans: Vec<Span> = Vec::new();
    if m.return_type.as_str().is_empty() {
        spans.push(span("    );", Tone::Plain));
        assert(spans_view(spans@) =~= seq![("    );"@, Tone::Plain)]);
    } else {
        spans.push(span("    ) -> ", Tone::Plain));
        spans.push(span_of(&m.return_type, Tone::Plain));
        spans.push(span(";", Tone::Plain));
        assert(spans_view(spans@) =~= seq![
            ("    ) -> "@, Tone::Plain),
            (m.return_type@, Tone::Plain),
            (";"@, Tone::Plain),
        ]);
    }
    let ghost before = lines@;
    lines.push(styled(spans));
    let ghost middle = lines@;
    lines.push(styled(Vec::new()));
    proof {
        assert(spans_view(Seq::<Span>::empty()) =~= seq![]);
        assert(lines_view(middle) =~= lines_view(before).push(return_line(m.return_type@)));
        assert(lines_view(lines@) =~= lines_view(middle).push(LineV::Styled(seq![])));
        assert(lines_view(before) == head + arguments_preview(arguments_view(m.arguments@)));
        assert(lines_view(lines@) =~= start + method_preview(m@));
    }
}

impl Trait {
    /// A new trait named `New Trait`, with no description and one empty
    /// method that has no arguments.
    pub fn new() -> (r: Self)
        ensures
            r@ == new_trait(),
    {
        proof {
            reveal_strlit("New Trait");
        }
        let mut methods: Vec<Method> = Vec::new();
        methods.push(Method::default());
        let r = Trait { description: String::new(), name: String::from_str("New Trait"), methods };
        assert(methods_view(r.methods@) =~= seq![empty_method()]);
        r
    }

    /// The trait as preview lines.
    pub fn to_list_item(&self) -> (r: Vec<TextLine>)
        ensures
            lines_view(r@) == trait_preview(self@),
    {
        let mut lines: Vec<TextLine> = Vec::new();
        push_doc_line(&mut lines, &self.description);
        push_opening_line(&mut lines, "trait ", &self.name);
        let ghost head = lines_view(lines@);
        let mut i: usize = 0;
        while i < self.methods.len()
            invariant
                i <= self.methods.len(),
                lines_view(lines@) == head + methods_preview(methods_view(self.methods@.take(i as int))),
            decreases self.methods.len() - i,
        {
            let method = &self.methods[i];
            proof {
                let t = methods_view(self.methods@.take(i + 1));
                assert(t.drop_last() =~= methods_view(self.methods@.take(i as int)));
                assert(t.last() == method@);
            }
            let ghost before = lines_view(lines@);
            push_method_preview(&mut lines, method);
            assert(lines_view(lines@) =~= before + method_preview(method@));
            i = i + 1;
        }
        proof {
            assert(self.methods@.take(self.methods.len() as int) =~= self.methods@);
        }
        push_raw(&mut lines, "}");
        push_raw(&mut lines, "");
        push_raw(&mut lines, "");
        assert(lines_view(lines@) =~= trait_preview(self@));
        lines
    }

    /// Appends a new method (one that has one empty argument).
    pub fn add_method(&mut self)
        ensures
            final(self)@ == (TraitV { methods: old(self)@.methods.push(new_method()), ..old(self)@ }),
    {
        let ghost before = self.methods@;
        self.methods.push(Method::new());
        assert(methods_view(self.methods@) =~= methods_view(before).push(new_method()));
    }
}

impl Method {
    /// A new method: every text empty and one empty argument.
    pub fn new() -> (r: Self)
        ensures
            r@ == new_method(),
    {
        let mut arguments: Vec<Argument> = Vec::new();
        arguments.push(Argument::default());
        let r = Method { name: String::new(), return_type: String::new(), arguments };
        assert(arguments_view(r.arguments@) =~= seq![empty_argument()]);
        r
    }

    /// Appends an empty argument.
    pub fn add_argument(&mut self)
        ensures
            final(self)@ == (MethodV {
                arguments: old(self)@.arguments.push(empty_argument()),
                ..old(self)@
            }),
    {
        let ghost before = self.arguments@;
        self.arguments.push(Argument { name: String::new(), argument_type: String::new() });
        assert(arguments_view(self.arguments@) =~= arguments_view(before).push(empty_argument()));
    }
}

/// The preview of a trait starts with the doc line `/// <description>`
/// (both parts grey) when the description is not empty, then the line
/// `trait <name> {` (the keyword magenta, the rest plain), and ends with
/// the closing lines.
pub proof fn lemma_trait_preview_frame(x: TraitV)
    ensures
        ({
            let p = trait_preview(x);
            let opening = LineV::Styled(
                seq![("trait "@, Tone::Magenta), (x.name, Tone::Plain), (" {"@, Tone::Plain)],
            );
            let doc = LineV::Styled(
                seq![("/// "@, Tone::DarkGray), (x.description, Tone::DarkGray)],
            );
            &&& x.description.len() > 0 ==> p.len() >= 5 && p[0] == doc && p[1] == opening
            &&& x.description.len() == 0 ==> p.len() >= 4 && p[0] == opening
            &&& p[p.len() - 3] == LineV::Raw("}"@)
            &&& p[p.len() - 2] == LineV::Raw(""@)
            &&& p[p.len() - 1] == LineV::Raw(""@)
        }),
{
    let p = trait_preview(x);
    let head = doc_lines(x.description) + seq![opening_line("trait "@, x.name)];
    assert(p == head + methods_preview(x.methods) + seq![LineV::Raw("}"@), LineV::Raw(""@), LineV::Raw(""@)]);
}

/// A method's preview: `    fn <name> (` with the name in cyan, then one
/// line per argument in order (eight spaces, the name in yellow, `: `, and
/// the type or a grey `unknown...`), then `    );` or `    ) -> <type>;`,
/// then an empty line.
pub proof fn lemma_method_preview_lines(m: MethodV)
    ensures
        method_preview(m).len() == m.arguments.len() + 3,
        method_preview(m)[0] == LineV::Styled(
            seq![("    fn "@, Tone::Plain), (m.name, Tone::Cyan), (" ("@, Tone::Plain)],
        ),
        forall|k: int|
            0 <= k < m.arguments.len() ==> #[trigger] method_preview(m)[k + 1] == LineV::Styled(
                seq![
                    ("        "@, Tone::Plain),
                    (m.arguments[k].name, Tone::Yellow),
                    (": "@, Tone::Plain),
                    if m.arguments[k].argument_type.len() == 0 {
                        ("unknown..."@, Tone::DarkGray)
                    } else {
                        (m.arguments[k].argument_type, Tone::Plain)
                    },
                ],
            ),
        m.return_type.len() == 0 ==> method_preview(m)[m.arguments.len() + 1int] == LineV::Styled(
            seq![("    );"@, Tone::Plain)],
        ),
        m.return_type.len() > 0 ==> method_preview(m)[m.arguments.len() + 1int] == LineV::Styled(
            seq![("    ) -> "@, Tone::Plain), (m.return_type, Tone::Plain), (";"@, Tone::Plain)],
        ),
        method_preview(m)[m.arguments.len() + 2int] == LineV::Styled(seq![]),
{
    let head = seq![LineV::Styled(seq![("    fn "@, Tone::Plain), (m.name, Tone::Cyan), (" ("@, Tone::Plain)])];
    let args = arguments_preview(m.arguments);
    let tail = seq![return_line(m.return_type), LineV::Styled(seq![])];
    assert(method_preview(m) == head + args + tail);
    assert forall|k: int| 0 <= k < m.arguments.len() implies #[trigger] method_preview(m)[k + 1]
        == argument_preview(m.arguments[k]) by {
        assert(method_preview(m)[k + 1] == args[k]);
    }
}

} // verus!
