//! The structs page: a list of the structs, and an editor for the selected
//! one with a description, a name and rows of (name, type, note) fields.
use vstd::prelude::*;
use crate::data_types::struct_data::{
    empty_field, fields_view, is_blank_field, new_struct, structs_view, Field, FieldV, Struct,
    StructV,
};
use crate::data_types::AppDataV;
use crate::pages::{copy_field, copy_fields};
use crate::state::{
    index_or_first, next_index, previous_index, Action, ActiveInput, AppState, AppStateV, Key,
    KeyPress, KeyResponse, Mode, PageKind,
};
use crate::text::str_eq;

verus! {

/// The response with the given action, sending the key on to the active
/// input or not.
pub open spec fn respond(action: Action, forward: bool) -> KeyResponse {
    KeyResponse { action, forward_to_input: forward }
}

/// The fields that are not blank, in order.
pub open spec fn nonblank_fields(fields: Seq<FieldV>) -> Seq<FieldV>
    decreases fields.len(),
{
    if fields.len() == 0 {
        seq![]
    } else {
        let rest = nonblank_fields(fields.drop_last());
        if is_blank_field(fields.last()) {
            rest
        } else {
            rest.push(fields.last())
        }
    }
}

/// A struct stays when one leaves the page if it has a name, and the name
/// is not the placeholder `New Struct`.
pub open spec fn struct_is_kept(s: StructV) -> bool {
    s.name.len() > 0 && s.name != "New Struct"@
}

/// The structs that stay when one leaves the page, each without its blank
/// fields.
pub open spec fn cleaned_structs(structs: Seq<StructV>) -> Seq<StructV>
    decreases structs.len(),
{
    if structs.len() == 0 {
        seq![]
    } else {
        let rest = cleaned_structs(structs.drop_last());
        let s = structs.last();
        if struct_is_kept(s) {
            rest.push(StructV { fields: nonblank_fields(s.fields), ..s })
        } else {
            rest
        }
    }
}

/// The fields that the editor writes back: all of them while editing,
/// only the non-blank ones otherwise.
pub open spec fn kept_fields(mode: Mode, fields: Seq<FieldV>) -> Seq<FieldV> {
    if mode == Mode::Display {
        nonblank_fields(fields)
    } else {
        fields
    }
}

/// The state with the struct at the selected index replaced by `st`.
pub open spec fn with_current_struct(s: AppStateV, st: StructV) -> AppStateV {
    AppStateV {
        data: AppDataV {
            structs: s.data.structs.update(index_or_first(s.structs) as int, st),
            ..s.data
        },
        ..s
    }
}

/// The state after the editor's texts are written to the selected struct.
pub open spec fn apply_struct_form(s: AppStateV, form: StructV) -> AppStateV {
    with_current_struct(
        s,
        StructV {
            description: form.description,
            name: form.name,
            fields: kept_fields(s.mode, form.fields),
        },
    )
}

/// The input that Tab moves to: description, name, then the fields row by
/// row, each row from its name to its type to its note.
pub open spec fn struct_next_input(a: ActiveInput) -> ActiveInput {
    match a {
        ActiveInput::Description => ActiveInput::Name,
        ActiveInput::Name => ActiveInput::Field(0, 0),
        ActiveInput::Field(row, col) => if col == 2 {
            ActiveInput::Field((row + 1) as usize, 0)
        } else {
            ActiveInput::Field(row, (col + 1) as usize)
        },
        _ => ActiveInput::Nothing,
    }
}

/// Whether Tab gives the struct a new empty field: when it enters the
/// fields of a struct that has none, or leaves the note of the last field.
pub open spec fn struct_next_adds_field(a: ActiveInput, fields_len: int) -> bool {
    match a {
        ActiveInput::Name => fields_len == 0,
        ActiveInput::Field(row, col) => col == 2 && row == fields_len - 1,
        _ => false,
    }
}

/// The input that Shift+Tab moves to.
pub open spec fn struct_previous_input(a: ActiveInput) -> ActiveInput {
    match a {
        ActiveInput::Description => ActiveInput::Description,
        ActiveInput::Name => ActiveInput::Description,
        ActiveInput::Field(row, col) => if row == 0 && col == 0 {
            ActiveInput::Name
        } else if col == 0 {
            ActiveInput::Field((row - 1) as usize, 2)
        } else {
            ActiveInput::Field(row, (col - 1) as usize)
        },
        _ => ActiveInput::Nothing,
    }
}

/// The state after Tab's move grows the selected struct (the active input
/// is not changed yet).
pub open spec fn struct_tab_data(s: AppStateV) -> AppStateV {
    let cur = s.data.structs[index_or_first(s.structs) as int];
    if struct_next_adds_field(s.active_input, cur.fields.len() as int) {
        with_current_struct(s, StructV { fields: cur.fields.push(empty_field()), ..cur })
    } else {
        s
    }
}

/// Whether Tab's move is defined: the selected struct exists where Tab
/// works on it, the last field exists when Tab leaves a note, and no
/// index runs past the largest `usize`.
pub open spec fn struct_next_defined(s: AppStateV) -> bool {
    let i = index_or_first(s.structs);
    match s.active_input {
        ActiveInput::Name => i < s.data.structs.len(),
        ActiveInput::Field(row, col) => i < s.data.structs.len() && if col == 2 {
            s.data.structs[i as int].fields.len() > 0 && row < usize::MAX
        } else {
            col < usize::MAX
        },
        _ => true,
    }
}

/// How the structs page answers a key: the next state and the response.
pub open spec fn struct_key_step(s: AppStateV, key: KeyPress, form: StructV) -> (
    AppStateV,
    KeyResponse,
) {
    let editing = s.mode == Mode::Edit;
    match key.code {
        Key::Esc => if !editing {
            (
                AppStateV {
                    data: AppDataV { structs: cleaned_structs(s.data.structs), ..s.data },
                    ..s
                },
                respond(Action::GoToPage(PageKind::Home), false),
            )
        } else {
            (AppStateV { mode: s.mode.toggled(), ..s }, respond(Action::UpdatePreview, false))
        },
        Key::Char('j') | Key::Down => if !editing {
            (
                AppStateV { structs: Some(next_index(s.structs)), ..s },
                respond(Action::UpdatePreview, false),
            )
        } else {
            (s, respond(Action::Nothing, true))
        },
        Key::Char('k') | Key::Up => if !editing {
            (
                AppStateV { structs: Some(previous_index(s.structs)), ..s },
                respond(Action::UpdatePreview, false),
            )
        } else {
            (s, respond(Action::Nothing, true))
        },
        Key::Tab => if !editing {
            (s, respond(Action::Nothing, false))
        } else {
            let u = apply_struct_form(s, form);
            (
                AppStateV { active_input: struct_next_input(u.active_input), ..struct_tab_data(u) },
                respond(Action::UpdatePreview, false),
            )
        },
        Key::BackTab => if !editing {
            (s, respond(Action::Nothing, false))
        } else {
            let u = apply_struct_form(s, form);
            (
                AppStateV { active_input: struct_previous_input(u.active_input), ..u },
                respond(Action::UpdatePreview, false),
            )
        },
        Key::Enter => if index_or_first(s.structs) == s.data.structs.len() {
            (
                AppStateV {
                    mode: s.mode.toggled(),
                    active_input: ActiveInput::Description,
                    data: AppDataV { structs: s.data.structs.push(new_struct()), ..s.data },
                    ..s
                },
                respond(Action::UpdatePreview, false),
            )
        } else {
            let t = AppStateV { mode: s.mode.toggled(), ..s };
            let u = apply_struct_form(t, form);
            (
                AppStateV {
                    active_input: if t.mode == Mode::Display {
                        ActiveInput::Nothing
                    } else {
                        ActiveInput::Description
                    },
                    ..u
                },
                respond(Action::UpdatePreview, false),
            )
        },
        _ => (s, respond(Action::Nothing, editing)),
    }
}

/// Whether the structs page answers the key without failing: the selected
/// struct exists where the key writes the editor's texts to it, and Tab's
/// move is defined.
pub open spec fn struct_key_allowed(s: AppStateV, key: KeyPress, form: StructV) -> bool {
    let i = index_or_first(s.structs);
    match key.code {
        Key::Tab => s.mode == Mode::Display || (i < s.data.structs.len() && struct_next_defined(
            apply_struct_form(s, form),
        )),
        Key::BackTab => s.mode == Mode::Display || i < s.data.structs.len(),
        Key::Enter => i <= s.data.structs.len(),
        _ => true,
    }
}

/// The fields that are not blank, copied.
pub fn keep_nonblank_fields(fields: &Vec<Field>) -> (r: Vec<Field>)
    ensures
        fields_view(r@) == nonblank_fields(fields_view(fields@)),
{
    let mut out: Vec<Field> = Vec::new();
    let mut i: usize = 0;
    while i < fields.len()
        invariant
            i <= fields.len(),
            fields_view(out@) == nonblank_fields(fields_view(fields@.take(i as int))),
        decreases fields.len() - i,
    {
        let f = &fields[i];
        proof {
            let t = fields_view(fields@.take(i + 1));
            assert(t.drop_last() =~= fields_view(fields@.take(i as int)));
            assert(t.last() == f@);
        }
        if !f.name.as_str().is_empty() || !f.field_type.as_str().is_empty()
            || !f.note.as_str().is_empty() {
            let ghost before = out@;
            out.push(copy_field(f));
            assert(fields_view(out@) =~= fields_view(before).push(f@));
        }
        i = i + 1;
    }
    assert(fields@.take(fields.len() as int) =~= fields@);
    out
}

/// Drops the structs that have no name or the placeholder name, and the
/// blank fields of the others.
pub fn clean_structs(structs: &mut Vec<Struct>)
    ensures
        structs_view(final(structs)@) == cleaned_structs(structs_view(old(structs)@)),
{
    let mut out: Vec<Struct> = Vec::new();
    let mut i: usize = 0;
    while i < structs.len()
        invariant
            i <= structs.len(),
            structs_view(out@) == cleaned_structs(structs_view(structs@.take(i as int))),
        decreases structs.len() - i,
    {
        let s = &structs[i];
        proof {
            let t = structs_view(structs@.take(i + 1));
            assert(t.drop_last() =~= structs_view(structs@.take(i as int)));
            assert(t.last() == s@);
        }
        if !s.name.as_str().is_empty() && !str_eq(s.name.as_str(), "New Struct") {
            let kept = Struct {
                description: s.description.clone(),
                name: s.name.clone(),
                fields: keep_nonblank_fields(&s.fields),
            };
            let ghost before = out@;
            out.push(kept);
            assert(structs_view(out@) =~= structs_view(before).push(
                StructV { fields: nonblank_fields(s@.fields), ..s@ },
            ));
        }
        i = i + 1;
    }
    assert(structs@.take(structs.len() as int) =~= structs@);
    *structs = out;
}

/// Writes the editor's texts to the selected struct; outside editing,
/// blank fields are left out.
pub fn update_struct(state: &mut AppState, form: &Struct)
    requires
        index_or_first(old(state)@.structs) < old(state)@.data.structs.len(),
    ensures
        final(state)@ == apply_struct_form(old(state)@, form@),
{
    let i = state.structs_list_state.index_or_first();
    let fields = if state.mode == Mode::Display {
        keep_nonblank_fields(&form.fields)
    } else {
        copy_fields(&form.fields)
    };
    let updated = Struct { description: form.description.clone(), name: form.name.clone(), fields };
    let ghost before = state.data.structs@;
    let ghost updated_view = updated@;
    state.data.structs.set(i, updated);
    assert(structs_view(state.data.structs@) =~= structs_view(before).update(
        i as int,
        updated_view,
    ));
}

/// Tab's move: the next input; the selected struct gets an empty field as
/// `struct_next_adds_field` says.
fn next_active_input(state: &mut AppState) -> (r: ActiveInput)
    requires
        struct_next_defined(old(state)@),
    ensures
        r == struct_next_input(old(state)@.active_input),
        final(state)@ == struct_tab_data(old(state)@),
{
    match state.active_input {
        ActiveInput::Description => ActiveInput::Name,
        ActiveInput::Name => {
            let i = state.structs_list_state.index_or_first();
            if state.data.structs[i].fields.len() == 0 {
                let ghost before = state.data.structs@;
                state.data.structs[i].add_field();
                assert(structs_view(state.data.structs@) =~= structs_view(before).update(
                    i as int,
                    state.data.structs@[i as int]@,
                ));
            }
            ActiveInput::Field(0, 0)
        },
        ActiveInput::Field(row, col) => {
            let at_last_col = col == 2;
            let i = state.structs_list_state.index_or_first();
            if at_last_col {
                if row == state.data.structs[i].fields.len() - 1 {
                    let ghost before = state.data.structs@;
                    state.data.structs[i].add_field();
                    assert(structs_view(state.data.structs@) =~= structs_view(before).update(
                        i as int,
                        state.data.structs@[i as int]@,
                    ));
                }
                ActiveInput::Field(row + 1, 0)
            } else {
                ActiveInput::Field(row, col + 1)
            }
        },
        _ => ActiveInput::Nothing,
    }
}

/// Shift+Tab's move.
fn previous_active_input(state: &AppState) -> (r: ActiveInput)
    ensures
        r == struct_previous_input(state@.active_input),
{
    match state.active_input {
        ActiveInput::Description => ActiveInput::Description,
        ActiveInput::Name => ActiveInput::Description,
        ActiveInput::Field(row, col) => {
            let at_first_row = row == 0;
            let at_first_col = col == 0;
            if at_first_row && at_first_col {
                return ActiveInput::Name;
            }
            if at_first_col {
                return ActiveInput::Field(row - 1, 2);
            }
            ActiveInput::Field(row, col - 1)
        },
        _ => ActiveInput::Nothing,
    }
}

/// Whether `handle_key_event` answers the key without failing.
pub fn can_handle_key(key: KeyPress, state: &AppState, form: &Struct) -> (r: bool)
    ensures
        r == struct_key_allowed(state@, key, form@),
{
    let i = state.structs_list_state.index_or_first();
    let n = state.data.structs.len();
    match key.code {
        Key::Tab => {
            if state.mode == Mode::Display {
                return true;
            }
            if i >= n {
                return false;
            }
            match state.active_input {
                ActiveInput::Field(row, col) => if col == 2 {
                    form.fields.len() > 0 && row < usize::MAX
                } else {
                    col < usize::MAX
                },
                _ => true,
            }
        },
        Key::BackTab => state.mode == Mode::Display || i < n,
        Key::Enter => i <= n,
        _ => true,
    }
}

/// Answers a key on the structs page. `form` holds the first line of each
/// of the editor's text inputs.
pub fn handle_key_event(key: KeyPress, state: &mut AppState, form: &Struct) -> (r: KeyResponse)
    requires
        struct_key_allowed(old(state)@, key, form@),
    ensures
        (final(state)@, r) == struct_key_step(old(state)@, key, form@),
{
    match key.code {
        Key::Esc => match state.mode {
            Mode::Display => {
                clean_structs(&mut state.data.structs);
                KeyResponse { action: Action::GoToPage(PageKind::Home), forward_to_input: false }
            },
            Mode::Edit => {
                state.mode.toggle();
                KeyResponse { action: Action::UpdatePreview, forward_to_input: false }
            },
        },
        Key::Char('j') | Key::Down => match state.mode {
            Mode::Display => {
                state.structs_list_state.select_next();
                KeyResponse { action: Action::UpdatePreview, forward_to_input: false }
            },
            Mode::Edit => KeyResponse { action: Action::Nothing, forward_to_input: true },
        },
        Key::Char('k') | Key::Up => match state.mode {
            Mode::Display => {
                state.structs_list_state.select_previous();
                KeyResponse { action: Action::UpdatePreview, forward_to_input: false }
            },
            Mode::Edit => KeyResponse { action: Action::Nothing, forward_to_input: true },
        },
        Key::Tab => match state.mode {
            Mode::Display => KeyResponse { action: Action::Nothing, forward_to_input: false },
            Mode::Edit => {
                update_struct(state, form);
                let next = next_active_input(state);
                state.active_input = next;
                KeyResponse { action: Action::UpdatePreview, forward_to_input: false }
            },
        },
        Key::BackTab => match state.mode {
            Mode::Display => KeyResponse { action: Action::Nothing, forward_to_input: false },
            Mode::Edit => {
                update_struct(state, form);
                state.active_input = previous_active_input(state);
                KeyResponse { action: Action::UpdatePreview, forward_to_input: false }
            },
        },
        Key::Enter => {
            let should_add_new_struct = state.structs_list_state.index_or_first()
                == state.data.structs.len();
            if should_add_new_struct {
                state.mode.toggle();
                state.set_active_input(ActiveInput::Description);
                state.data.add_struct();
                return KeyResponse { action: Action::UpdatePreview, forward_to_input: false };
            }
            state.mode.toggle();
            update_struct(state, form);
            let new_input = match state.mode {
                Mode::Display => ActiveInput::Nothing,
                Mode::Edit => ActiveInput::Description,
            };
            state.set_active_input(new_input);
            KeyResponse { action: Action::UpdatePreview, forward_to_input: false }
        },
        _ => KeyResponse { action: Action::Nothing, forward_to_input: state.mode == Mode::Edit },
    }
}

/// Shift+Tab undoes Tab: from the description, the name or any field box,
/// moving forward and then back returns to the same input.
pub proof fn lemma_struct_previous_undoes_next(a: ActiveInput)
    requires
        a == ActiveInput::Description || a == ActiveInput::Name || (a matches ActiveInput::Field(
            row,
            col,
        ) && row < usize::MAX && col < usize::MAX),
    ensures
        struct_previous_input(struct_next_input(a)) == a,
{
}

proof fn lemma_nonblank_fields_all_nonblank(fields: Seq<FieldV>)
    ensures
        forall|i: int|
            0 <= i < nonblank_fields(fields).len() ==> !is_blank_field(
                #[trigger] nonblank_fields(fields)[i],
            ),
    decreases fields.len(),
{
    if fields.len() > 0 {
        let rest = nonblank_fields(fields.drop_last());
        lemma_nonblank_fields_all_nonblank(fields.drop_last());
        if !is_blank_field(fields.last()) {
            let r = rest.push(fields.last());
            assert forall|i: int| 0 <= i < r.len() implies !is_blank_field(#[trigger] r[i]) by {
                if i < rest.len() {
                    assert(r[i] == rest[i]);
                }
            }
        }
    }
}

proof fn lemma_nonblank_fields_idempotent(fields: Seq<FieldV>)
    ensures
        nonblank_fields(nonblank_fields(fields)) == nonblank_fields(fields),
    decreases fields.len(),
{
    if fields.len() > 0 {
        let rest = nonblank_fields(fields.drop_last());
        lemma_nonblank_fields_idempotent(fields.drop_last());
        if !is_blank_field(fields.last()) {
            let r = rest.push(fields.last());
            assert(r.drop_last() =~= rest);
        }
    }
}

/// Leaving the structs page keeps only named structs without blank fields,
/// and leaving it again changes nothing more.
pub proof fn lemma_cleaned_structs(structs: Seq<StructV>)
    ensures
        forall|i: int|
            0 <= i < cleaned_structs(structs).len() ==> struct_is_kept(
                #[trigger] cleaned_structs(structs)[i],
            ) && forall|j: int|
                0 <= j < cleaned_structs(structs)[i].fields.len() ==> !is_blank_field(
                    #[trigger] cleaned_structs(structs)[i].fields[j],
                ),
        cleaned_structs(cleaned_structs(structs)) == cleaned_structs(structs),
    decreases structs.len(),
{
    if structs.len() > 0 {
        let rest = cleaned_structs(structs.drop_last());
        lemma_cleaned_structs(structs.drop_last());
        let s = structs.last();
        if struct_is_kept(s) {
            let k = StructV { fields: nonblank_fields(s.fields), ..s };
            lemma_nonblank_fields_all_nonblank(s.fields);
            lemma_nonblank_fields_idempotent(s.fields);
            let r = rest.push(k);
            assert(r.drop_last() =~= rest);
            assert(cleaned_structs(r) =~= r);
        }
    }
}

/// What the editor writes is what it reads back: after the editor's texts
/// are written to the selected struct while editing, the editor built from
/// that struct shows the same texts, unless the name written was the
/// placeholder `New Struct` or no field row was written.
pub proof fn lemma_struct_form_round_trip(s: AppStateV, form: StructV)
    requires
        s.mode == Mode::Edit,
        index_or_first(s.structs) < s.data.structs.len(),
        form.name != "New Struct"@,
        form.fields.len() > 0,
    ensures
        crate::pages::struct_form_of(crate::pages::current_struct(apply_struct_form(s, form))) == form,
{
    let u = apply_struct_form(s, form);
    assert(crate::pages::current_struct(u) == StructV {
        description: form.description,
        name: form.name,
        fields: form.fields,
    });
}

/// Leaving the structs page (Esc while not editing) keeps, in order,
/// exactly the structs whose name is neither empty nor `New Struct`; each
/// keeps its own description and name, and loses only its blank fields.
/// It goes back to the home page.
pub proof fn lemma_leaving_structs_keeps_named_structs(s: AppStateV, key: KeyPress, form: StructV)
    requires
        s.mode == Mode::Display,
        key.code == Key::Esc,
    ensures
        struct_key_step(s, key, form).0.data.structs == s.data.structs.filter_map(
            |st: StructV|
                if st.name.len() > 0 && st.name != "New Struct"@ {
                    Some(
                        StructV {
                            description: st.description,
                            name: st.name,
                            fields: nonblank_fields(st.fields),
                        },
                    )
                } else {
                    None
                },
        ),
        struct_key_step(s, key, form).1 == respond(Action::GoToPage(PageKind::Home), false),
{
    lemma_cleaned_structs_filter_map(s.data.structs);
}

proof fn lemma_cleaned_structs_filter_map(ss: Seq<StructV>)
    ensures
        cleaned_structs(ss) == ss.filter_map(
            |st: StructV|
                if st.name.len() > 0 && st.name != "New Struct"@ {
                    Some(
                        StructV {
                            description: st.description,
                            name: st.name,
                            fields: nonblank_fields(st.fields),
                        },
                    )
                } else {
                    None
                },
        ),
    decreases ss.len(),
{
    if ss.len() > 0 {
        lemma_cleaned_structs_filter_map(ss.drop_last());
        let f = |st: StructV|
            if st.name.len() > 0 && st.name != "New Struct"@ {
                Some(
                    StructV {
                        description: st.description,
                        name: st.name,
                        fields: nonblank_fields(st.fields),
                    },
                )
            } else {
                None
            };
        let r = ss.drop_last().filter_map(f);
        if struct_is_kept(ss.last()) {
            assert(ss.filter_map(f) == r + seq![f(ss.last())->0]);
            assert(cleaned_structs(ss) =~= r + seq![f(ss.last())->0]);
        } else {
            assert(ss.filter_map(f) == r);
        }
    }
}

/// The editor opened on an existing struct shows that struct's own
/// description, its name (empty for the placeholder `New Struct`), and its
/// fields when it has any.
pub proof fn lemma_struct_form_shows_selected_struct(s: AppStateV)
    requires
        index_or_first(s.structs) < s.data.structs.len(),
    ensures
        ({
            let st = s.data.structs[index_or_first(s.structs) as int];
            let f = crate::pages::struct_form_of(crate::pages::current_struct(s));
            &&& f.description == st.description
            &&& st.name != "New Struct"@ ==> f.name == st.name
            &&& st.name == "New Struct"@ ==> f.name.len() == 0
            &&& st.fields.len() > 0 ==> f.fields == st.fields
            &&& st.fields.len() == 0 ==> f.fields.len() == 1 && f.fields[0].name.len() == 0
                && f.fields[0].field_type.len() == 0 && f.fields[0].note.len() == 0
        }),
{
}

proof fn lemma_nonblank_fields_filter_map(fs: Seq<FieldV>)
    ensures
        nonblank_fields(fs) == fs.filter_map(
            |f: FieldV|
                if f.name.len() == 0 && f.field_type.len() == 0 && f.note.len() == 0 {
                    None
                } else {
                    Some(f)
                },
        ),
    decreases fs.len(),
{
    if fs.len() > 0 {
        lemma_nonblank_fields_filter_map(fs.drop_last());
        let g = |f: FieldV|
            if f.name.len() == 0 && f.field_type.len() == 0 && f.note.len() == 0 {
                None
            } else {
                Some(f)
            };
        let r = fs.drop_last().filter_map(g);
        if is_blank_field(fs.last()) {
            assert(fs.filter_map(g) == r);
        } else {
            assert(fs.filter_map(g) == r + seq![fs.last()]);
            assert(nonblank_fields(fs) =~= r + seq![fs.last()]);
        }
    }
}

/// Writing the struct editor back replaces only the selected struct: it
/// takes the editor's description and name, and its field rows, all of
/// them while editing and only those with some text otherwise.
pub proof fn lemma_struct_write_back(s: AppStateV, form: StructV)
    requires
        index_or_first(s.structs) < s.data.structs.len(),
    ensures
        ({
            let i = index_or_first(s.structs) as int;
            let next = apply_struct_form(s, form);
            let after = next.data.structs;
            &&& after.len() == s.data.structs.len()
            &&& forall|j: int| 0 <= j < after.len() && j != i ==> after[j] == s.data.structs[j]
            &&& after[i].description == form.description
            &&& after[i].name == form.name
            &&& s.mode == Mode::Edit ==> after[i].fields == form.fields
            &&& s.mode == Mode::Display ==> after[i].fields == form.fields.filter_map(
                |f: FieldV|
                    if f.name.len() == 0 && f.field_type.len() == 0 && f.note.len() == 0 {
                        None
                    } else {
                        Some(f)
                    },
            )
            &&& next.mode == s.mode && next.active_input == s.active_input
            &&& next.data.description == s.data.description && next.data.enums == s.data.enums
                && next.data.traits == s.data.traits
        }),
{
    lemma_nonblank_fields_filter_map(form.fields);
}

/// Enter on the row past the last struct (`+ New Struct`) appends a struct
/// named `New Struct` with no description and no fields, switches the mode
/// and makes the description the active input.
pub proof fn lemma_enter_on_new_row_adds_struct(s: AppStateV, key: KeyPress, form: StructV)
    requires
        key.code == Key::Enter,
        index_or_first(s.structs) == s.data.structs.len(),
    ensures
        ({
            let next = struct_key_step(s, key, form).0;
            &&& next.data.structs == s.data.structs.push(
                StructV { description: seq![], name: "New Struct"@, fields: seq![] },
            )
            &&& next.mode != s.mode
            &&& next.active_input == ActiveInput::Description
        }),
        struct_key_step(s, key, form).1 == respond(Action::UpdatePreview, false),
{
}

} // verus!
