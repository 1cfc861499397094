//! The pages of the tool: what each one shows in its text inputs, and how
//! each one answers a key press.
pub mod commands_page;
pub mod description_page;
pub mod home_page;
pub mod structs_page;
pub mod traits_page;

use vstd::prelude::*;
use crate::data_types::enum_data::{empty_enum, empty_variant, variants_view, Enum, EnumV, Variant};
use crate::data_types::struct_data::{
    empty_field, empty_struct, fields_view, Field, Struct, StructV,
};
use crate::data_types::traits_data::{
    arguments_view, empty_trait, methods_view, new_method, Argument, Method, Trait, TraitV,
};
use crate::data_types::AppData;
use crate::state::{index_or_first, AppState, AppStateV};
use crate::text::{split_lines, split_spec, strings_view, str_eq};

verus! {

/// Row of the description in the home list.
pub const DESCRIPTION_INDEX: usize = 0;

/// Row of the structs in the home list.
pub const STRUCTS_INDEX: usize = 1;

/// Row of the enums in the home list.
pub const ENUMS_INDEX: usize = 2;

/// Row of the traits in the home list.
pub const TRAITS_INDEX: usize = 3;

/// The lines the description editor starts with: the description split at
/// its line breaks.
pub fn description_form(data: &AppData) -> (r: Vec<String>)
    ensures
        strings_view(r@) == split_spec(data.description@),
{
    split_lines(data.description.as_str())
}

/// A copy of the field.
pub fn copy_field(f: &Field) -> (r: Field)
    ensures
        r@ == f@,
{
    Field { name: f.name.clone(), field_type: f.field_type.clone(), note: f.note.clone() }
}

/// A copy of the fields.
pub fn copy_fields(fields: &Vec<Field>) -> (r: Vec<Field>)
    ensures
        fields_view(r@) == fields_view(fields@),
{
    let mut out: Vec<Field> = Vec::new();
    let mut i: usize = 0;
    while i < fields.len()
        invariant
            i <= fields.len(),
            fields_view(out@) == fields_view(fields@.take(i as int)),
        decreases fields.len() - i,
    {
        let ghost before = out@;
        out.push(copy_field(&fields[i]));
        assert(fields_view(out@) =~= fields_view(before).push(fields@[i as int]@));
        assert(fields_view(fields@.take(i + 1)) =~= fields_view(fields@.take(i as int)).push(
            fields@[i as int]@,
        ));
        i = i + 1;
    }
    assert(fields@.take(fields.len() as int) =~= fields@);
    out
}

/// A copy of the variants.
pub fn copy_variants(variants: &Vec<Variant>) -> (r: Vec<Variant>)
    ensures
        variants_view(r@) == variants_view(variants@),
{
    let mut out: Vec<Variant> = Vec::new();
    let mut i: usize = 0;
    while i < variants.len()
        invariant
            i <= variants.len(),
            variants_view(out@) == variants_view(variants@.take(i as int)),
        decreases variants.len() - i,
    {
        let ghost before = out@;
        out.push(Variant { name: variants[i].name.clone(), note: variants[i].note.clone() });
        assert(variants_view(out@) =~= variants_view(before).push(variants@[i as int]@));
        assert(variants_view(variants@.take(i + 1)) =~= variants_view(variants@.take(i as int)).push(
            variants@[i as int]@,
        ));
        i = i + 1;
    }
    assert(variants@.take(variants.len() as int) =~= variants@);
    out
}

/// A copy of the arguments.
pub fn copy_arguments(arguments: &Vec<Argument>) -> (r: Vec<Argument>)
    ensures
        arguments_view(r@) == arguments_view(arguments@),
{
    let mut out: Vec<Argument> = Vec::new();
    let mut i: usize = 0;
    while i < arguments.len()
        invariant
            i <= arguments.len(),
            arguments_view(out@) == arguments_view(arguments@.take(i as int)),
        decreases arguments.len() - i,
    {
        let ghost before = out@;
        out.push(
            Argument {
                name: arguments[i].name.clone(),
                argument_type: arguments[i].argument_type.clone(),
            },
        );
        assert(arguments_view(out@) =~= arguments_view(before).push(arguments@[i as int]@));
        assert(arguments_view(arguments@.take(i + 1)) =~= arguments_view(
            arguments@.take(i as int),
        ).push(arguments@[i as int]@));
        i = i + 1;
    }
    assert(arguments@.take(arguments.len() as int) =~= arguments@);
    out
}

/// A copy of the method.
pub fn copy_method(m: &Method) -> (r: Method)
    ensures
        r@ == m@,
{
    Method {
        name: m.name.clone(),
        return_type: m.return_type.clone(),
        arguments: copy_arguments(&m.arguments),
    }
}

/// A copy of the methods.
pub fn copy_methods(methods: &Vec<Method>) -> (r: Vec<Method>)
    ensures
        methods_view(r@) == methods_view(methods@),
{
    let mut out: Vec<Method> = Vec::new();
    let mut i: usize = 0;
    while i < methods.len()
        invariant
            i <= methods.len(),
            methods_view(out@) == methods_view(methods@.take(i as int)),
        decreases methods.len() - i,
    {
        let ghost before = out@;
        out.push(copy_method(&methods[i]));
        assert(methods_view(out@) =~= methods_view(before).push(methods@[i as int]@));
        assert(methods_view(methods@.take(i + 1)) =~= methods_view(methods@.take(i as int)).push(
            methods@[i as int]@,
        ));
        i = i + 1;
    }
    assert(methods@.take(methods.len() as int) =~= methods@);
    out
}

/// The struct the structs page works on: the selected one, or an empty
/// struct when the selection lies past the last struct.
pub open spec fn current_struct(s: AppStateV) -> StructV {
    let i = index_or_first(s.structs);
    if i < s.data.structs.len() {
        s.data.structs[i as int]
    } else {
        empty_struct()
    }
}

/// What the struct editor shows for `cur`: the placeholder name `New Struct`
/// shows as empty, and a struct without fields shows one empty field.
pub open spec fn struct_form_of(cur: StructV) -> StructV {
    StructV {
        description: cur.description,
        name: if cur.name == "New Struct"@ { seq![] } else { cur.name },
        fields: if cur.fields.len() == 0 { seq![empty_field()] } else { cur.fields },
    }
}

/// The texts the struct editor starts with.
pub fn struct_form(state: &AppState) -> (r: Struct)
    ensures
        r@ == struct_form_of(current_struct(state@)),
{
    let i = state.structs_list_state.index_or_first();
    let empty = Struct::empty();
    let current = if i < state.data.structs.len() { &state.data.structs[i] } else { &empty };
    let fields = if current.fields.len() == 0 {
        let mut v: Vec<Field> = Vec::new();
        v.push(Field { name: String::new(), field_type: String::new(), note: String::new() });
        assert(fields_view(v@) =~= seq![empty_field()]);
        v
    } else {
        copy_fields(&current.fields)
    };
    let name = if str_eq(current.name.as_str(), "New Struct") {
        String::new()
    } else {
        current.name.clone()
    };
    Struct { description: current.description.clone(), name, fields }
}

/// The enum the enums page works on: the selected one, or an empty enum
/// when the selection lies past the last enum.
pub open spec fn current_enum(s: AppStateV) -> EnumV {
    let i = index_or_first(s.enums);
    if i < s.data.enums.len() {
        s.data.enums[i as int]
    } else {
        empty_enum()
    }
}

/// What the enum editor shows for `cur`: the placeholder name `New Enum`
/// shows as empty, and an enum without variants shows one empty variant.
pub open spec fn enum_form_of(cur: EnumV) -> EnumV {
    EnumV {
        description: cur.description,
        name: if cur.name == "New Enum"@ { seq![] } else { cur.name },
        variants: if cur.variants.len() == 0 { seq![empty_variant()] } else { cur.variants },
    }
}

/// The texts the enum editor starts with.
pub fn enum_form(state: &AppState) -> (r: Enum)
    ensures
        r@ == enum_form_of(current_enum(state@)),
{
    let i = state.enums_list_state.index_or_first();
    let empty = Enum::empty();
    let current = if i < state.data.enums.len() { &state.data.enums[i] } else { &empty };
    let variants = if current.variants.len() == 0 {
        let mut v: Vec<Variant> = Vec::new();
        v.push(Variant { name: String::new(), note: String::new() });
        assert(variants_view(v@) =~= seq![empty_variant()]);
        v
    } else {
        copy_variants(&current.variants)
    };
    let name = if str_eq(current.name.as_str(), "New Enum") {
        String::new()
    } else {
        current.name.clone()
    };
    Enum { description: current.description.clone(), name, variants }
}

/// The trait the traits page works on: the selected one, or an empty trait
/// when the selection lies past the last trait.
pub open spec fn current_trait(s: AppStateV) -> TraitV {
    let i = index_or_first(s.traits);
    if i < s.data.traits.len() {
        s.data.traits[i as int]
    } else {
        empty_trait()
    }
}

/// What the trait editor shows for `cur`: the placeholder name `New Trait`
/// shows as empty, and a trait without methods shows one empty method with
/// one empty argument.
pub open spec fn trait_form_of(cur: TraitV) -> TraitV {
    TraitV {
        description: cur.description,
        name: if cur.name == "New Trait"@ { seq![] } else { cur.name },
        methods: if cur.methods.len() == 0 { seq![new_method()] } else { cur.methods },
    }
}

/// The texts the trait editor starts with.
pub fn trait_form(state: &AppState) -> (r: Trait)
    ensures
        r@ == trait_form_of(current_trait(state@)),
{
    let i = state.traits_list_state.index_or_first();
    let empty = Trait::default();
    let current = if i < state.data.traits.len() { &state.data.traits[i] } else { &empty };
    let methods = if current.methods.len() == 0 {
        let mut v: Vec<Method> = Vec::new();
        v.push(Method::new());
        assert(methods_view(v@) =~= seq![new_method()]);
        v
    } else {
        copy_methods(&current.methods)
    };
    let name = if str_eq(current.name.as_str(), "New Trait") {
        String::new()
    } else {
        current.name.clone()
    };
    Trait { description: current.description.clone(), name, methods }
}

/// The enum editor opened on an existing enum shows that enum's own
/// description, its name (empty for the placeholder `New Enum`), and its
/// variants when it has any, else one empty variant.
pub proof fn lemma_enum_form_shows_selected_enum(s: AppStateV)
    requires
        index_or_first(s.enums) < s.data.enums.len(),
    ensures
        ({
            let e = s.data.enums[index_or_first(s.enums) as int];
            let f = enum_form_of(current_enum(s));
            &&& f.description == e.description
            &&& e.name != "New Enum"@ ==> f.name == e.name
            &&& e.name == "New Enum"@ ==> f.name.len() == 0
            &&& e.variants.len() > 0 ==> f.variants == e.variants
            &&& e.variants.len() == 0 ==> f.variants.len() == 1 && f.variants[0].name.len() == 0
                && f.variants[0].note.len() == 0
        }),
{
}

/// The trait editor opened on an existing trait shows that trait's own
/// description, its name (empty for the placeholder `New Trait`), and its
/// methods when it has any, else one empty method with one empty argument.
pub proof fn lemma_trait_form_shows_selected_trait(s: AppStateV)
    requires
        index_or_first(s.traits) < s.data.traits.len(),
    ensures
        ({
            let t = s.data.traits[index_or_first(s.traits) as int];
            let f = trait_form_of(current_trait(s));
            &&& f.description == t.description
            &&& t.name != "New Trait"@ ==> f.name == t.name
            &&& t.name == "New Trait"@ ==> f.name.len() == 0
            &&& t.methods.len() > 0 ==> f.methods == t.methods
            &&& t.methods.len() == 0 ==> f.methods.len() == 1 && f.methods[0].name.len() == 0
                && f.methods[0].return_type.len() == 0 && f.methods[0].arguments.len() == 1
                && f.methods[0].arguments[0].name.len() == 0
                && f.methods[0].arguments[0].argument_type.len() == 0
        }),
{
}

/// An editor opened while the selection lies past the last item shows
/// nothing: empty description and name, and one empty member.
pub proof fn lemma_forms_past_the_end_are_empty(s: AppStateV)
    ensures
        index_or_first(s.structs) >= s.data.structs.len() ==> ({
            let f = struct_form_of(current_struct(s));
            f.description.len() == 0 && f.name.len() == 0 && f.fields.len() == 1
        }),
        index_or_first(s.enums) >= s.data.enums.len() ==> ({
            let f = enum_form_of(current_enum(s));
            f.description.len() == 0 && f.name.len() == 0 && f.variants.len() == 1
        }),
        index_or_first(s.traits) >= s.data.traits.len() ==> ({
            let f = trait_form_of(current_trait(s));
            f.description.len() == 0 && f.name.len() == 0 && f.methods.len() == 1
        }),
{
    reveal_strlit("New Struct");
    reveal_strlit("New Enum");
    reveal_strlit("New Trait");
}

} // verus!
