//! The traits page: a list of the traits, and an editor for the selected
//! one with a description, a name, and for each method a name, a return
//! type and rows of (name, type) arguments.
use vstd::prelude::*;
use crate::data_types::traits_data::{
    empty_argument, ArgumentV, methods_view, new_method, new_trait, traits_view, Method, MethodV, Trait,
    TraitV,
};
use crate::data_types::AppDataV;
use crate::pages::copy_method;
use crate::pages::copy_methods;
use crate::pages::structs_page::respond;
use crate::state::{
    index_or_first, next_index, previous_index, Action, ActiveInput, AppState, AppStateV, Key,
    KeyPress, KeyResponse, Mode, PageKind,
};
use crate::text::str_eq;

verus! {

/// A method is kept when it has a name or a return type.
pub open spec fn method_has_signature(m: MethodV) -> bool {
    m.name.len() > 0 || m.return_type.len() > 0
}

/// The methods that have a name or a return type, in order.
pub open spec fn signed_methods(methods: Seq<MethodV>) -> Seq<MethodV>
    decreases methods.len(),
{
    if methods.len() == 0 {
        seq![]
    } else {
        let rest = signed_methods(methods.drop_last());
        if method_has_signature(methods.last()) {
            rest.push(methods.last())
        } else {
            rest
        }
    }
}

/// A trait stays when one leaves the page if it has a name, and the name
/// is not `New trait` (written with a small `t`).
pub open spec fn trait_is_kept(t: TraitV) -> bool {
    t.name.len() > 0 && t.name != "New trait"@
}

/// The traits that stay when one leaves the page, each without its
/// methods that have neither name nor return type.
pub open spec fn cleaned_traits(traits: Seq<TraitV>) -> Seq<TraitV>
    decreases traits.len(),
{
    if traits.len() == 0 {
        seq![]
    } else {
        let rest = cleaned_traits(traits.drop_last());
        let t = traits.last();
        if trait_is_kept(t) {
            rest.push(TraitV { methods: signed_methods(t.methods), ..t })
        } else {
            rest
        }
    }
}

/// The methods that the editor writes back: all of them while editing,
/// only those with a name or a return type otherwise.
pub open spec fn kept_methods(mode: Mode, methods: Seq<MethodV>) -> Seq<MethodV> {
    if mode == Mode::Display {
        signed_methods(methods)
    } else {
        methods
    }
}

/// The state with the trait at the selected index replaced by `t`.
pub open spec fn with_current_trait(s: AppStateV, t: TraitV) -> AppStateV {
    AppStateV {
        data: AppDataV { traits: s.data.traits.update(index_or_first(s.traits) as int, t), ..s.data },
        ..s
    }
}

/// The selected trait; meaningful when the selection lies within the traits.
pub open spec fn selected_trait(s: AppStateV) -> TraitV {
    s.data.traits[index_or_first(s.traits) as int]
}

/// The state after the editor's texts are written to the selected trait.
pub open spec fn apply_trait_form(s: AppStateV, form: TraitV) -> AppStateV {
    with_current_trait(
        s,
        TraitV {
            description: form.description,
            name: form.name,
            methods: kept_methods(s.mode, form.methods),
        },
    )
}

/// The last box index of a method: its name is box 0, its return type box
/// 1, and the name and the type of its `k`-th argument are boxes `2k + 2`
/// and `2k + 3`.
pub open spec fn last_box(m: MethodV) -> int {
    (m.arguments.len() * 2 + 1) as int
}

/// The input that Tab moves to; within the methods it goes box by box and
/// from the last box of a method to the first box of the next one, and it
/// stays on the last box of the last method.
pub open spec fn trait_next_input(a: ActiveInput, methods: Seq<MethodV>) -> ActiveInput {
    match a {
        ActiveInput::Description => ActiveInput::Name,
        ActiveInput::Name => ActiveInput::Method(0, 0),
        ActiveInput::Method(m, i) => if i == last_box(methods[m as int]) && m == methods.len()
            - 1 {
            ActiveInput::Method(m, i)
        } else if i == last_box(methods[m as int]) {
            ActiveInput::Method((m + 1) as usize, 0)
        } else {
            ActiveInput::Method(m, (i + 1) as usize)
        },
        _ => ActiveInput::Nothing,
    }
}

/// The input that Shift+Tab moves to; from the first box of a method it
/// goes to the first box of the method before.
pub open spec fn trait_previous_input(a: ActiveInput) -> ActiveInput {
    match a {
        ActiveInput::Description => ActiveInput::Description,
        ActiveInput::Name => ActiveInput::Description,
        ActiveInput::Method(m, i) => if m == 0 && i == 0 {
            ActiveInput::Name
        } else if i == 0 {
            ActiveInput::Method((m - 1) as usize, 0)
        } else {
            ActiveInput::Method(m, (i - 1) as usize)
        },
        _ => ActiveInput::Nothing,
    }
}

/// The state after Tab's move gives a trait without methods a new method
/// (the active input is not changed yet).
pub open spec fn trait_tab_data(s: AppStateV) -> AppStateV {
    let cur = selected_trait(s);
    if s.active_input == ActiveInput::Name && cur.methods.len() == 0 {
        with_current_trait(s, TraitV { methods: cur.methods.push(new_method()), ..cur })
    } else {
        s
    }
}

/// Whether Tab's move is defined: the selected trait exists where Tab works
/// on it, the active method exists, and no index runs past the largest
/// `usize`.
pub open spec fn trait_next_defined(s: AppStateV) -> bool {
    let i = index_or_first(s.traits);
    match s.active_input {
        ActiveInput::Name => i < s.data.traits.len(),
        ActiveInput::Method(m, b) => {
            &&& i < s.data.traits.len()
            &&& m < selected_trait(s).methods.len()
            &&& last_box(selected_trait(s).methods[m as int]) <= usize::MAX
            &&& b < usize::MAX
        },
        _ => true,
    }
}

/// The method that Ctrl+B gives a new argument: the active one, or the
/// first one.
pub open spec fn selected_method(a: ActiveInput) -> usize {
    match a {
        ActiveInput::Method(m, _) => m,
        _ => 0,
    }
}

/// How the traits page answers a key: the next state and the response.
pub open spec fn trait_key_step(s: AppStateV, key: KeyPress, form: TraitV) -> (
    AppStateV,
    KeyResponse,
) {
    let i = index_or_first(s.traits);
    if s.mode == Mode::Display {
        match key.code {
            Key::Esc => (
                AppStateV {
                    data: AppDataV { traits: cleaned_traits(s.data.traits), ..s.data },
                    ..s
                },
                respond(Action::GoToPage(PageKind::Home), false),
            ),
            Key::Char('j') | Key::Down => if i < s.data.traits.len() - 1 {
                (
                    AppStateV { traits: Some(next_index(s.traits)), ..s },
                    respond(Action::UpdatePreview, false),
                )
            } else {
                (s, respond(Action::UpdatePreview, false))
            },
            Key::Char('k') | Key::Up => (
                AppStateV { traits: Some(previous_index(s.traits)), ..s },
                respond(Action::UpdatePreview, false),
            ),
            Key::Char('n') => (
                AppStateV {
                    mode: s.mode.toggled(),
                    active_input: ActiveInput::Description,
                    data: AppDataV { traits: s.data.traits.push(new_trait()), ..s.data },
                    traits: Some(usize::MAX),
                    ..s
                },
                respond(Action::UpdatePreview, false),
            ),
            Key::Enter => if s.data.traits.len() == 0 {
                (s, respond(Action::Nothing, false))
            } else {
                (
                    AppStateV {
                        mode: s.mode.toggled(),
                        active_input: ActiveInput::Description,
                        ..s
                    },
                    respond(Action::UpdatePreview, false),
                )
            },
            _ => (s, respond(Action::Nothing, false)),
        }
    } else {
        match key.code {
            Key::Esc => (AppStateV { mode: s.mode.toggled(), ..s }, respond(Action::UpdatePreview, false)),
            Key::Char('n') => if !key.ctrl {
                (s, respond(Action::Nothing, true))
            } else {
                let cur = selected_trait(s);
                (
                    with_current_trait(s, TraitV { methods: cur.methods.push(new_method()), ..cur }),
                    respond(Action::UpdatePreview, false),
                )
            },
            Key::Char('b') => if !key.ctrl {
                (s, respond(Action::Nothing, true))
            } else {
                let cur = selected_trait(s);
                let m = selected_method(s.active_input) as int;
                let method = cur.methods[m];
                (
                    with_current_trait(
                        s,
                        TraitV {
                            methods: cur.methods.update(
                                m,
                                MethodV { arguments: method.arguments.push(empty_argument()), ..method },
                            ),
                            ..cur
                        },
                    ),
                    respond(Action::UpdatePreview, false),
                )
            },
            Key::Tab => {
                let u = apply_trait_form(s, form);
                let g = trait_tab_data(u);
                (
                    AppStateV {
                        active_input: trait_next_input(u.active_input, selected_trait(g).methods),
                        ..g
                    },
                    respond(Action::UpdatePreview, false),
                )
            },
            Key::BackTab => {
                let u = apply_trait_form(s, form);
                (
                    AppStateV { active_input: trait_previous_input(u.active_input), ..u },
                    respond(Action::UpdatePreview, false),
                )
            },
            Key::Enter => {
                let u = apply_trait_form(AppStateV { mode: s.mode.toggled(), ..s }, form);
                (
                    AppStateV { active_input: ActiveInput::Nothing, ..u },
                    respond(Action::UpdatePreview, false),
                )
            },
            _ => (s, respond(Action::Nothing, true)),
        }
    }
}

/// Whether the traits page answers the key without failing: Down needs a
/// trait, and every key that works on the selected trait, or on the
/// active method, needs it to exist.
pub open spec fn trait_key_allowed(s: AppStateV, key: KeyPress, form: TraitV) -> bool {
    let i = index_or_first(s.traits);
    if s.mode == Mode::Display {
        match key.code {
            Key::Char('j') | Key::Down => s.data.traits.len() > 0,
            _ => true,
        }
    } else {
        match key.code {
            Key::Char('n') => !key.ctrl || i < s.data.traits.len(),
            Key::Char('b') => !key.ctrl || (i < s.data.traits.len() && selected_method(
                s.active_input,
            ) < selected_trait(s).methods.len()),
            Key::Tab => i < s.data.traits.len() && trait_next_defined(apply_trait_form(s, form)),
            Key::BackTab | Key::Enter => i < s.data.traits.len(),
            _ => true,
        }
    }
}

/// The methods that have a name or a return type, copied.
pub fn keep_signed_methods(methods: &Vec<Method>) -> (r: Vec<Method>)
    ensures
        methods_view(r@) == signed_methods(methods_view(methods@)),
{
    let mut out: Vec<Method> = Vec::new();
    let mut i: usize = 0;
    while i < methods.len()
        invariant
            i <= methods.len(),
            methods_view(out@) == signed_methods(methods_view(methods@.take(i as int))),
        decreases methods.len() - i,
    {
        let m = &methods[i];
        proof {
            let t = methods_view(methods@.take(i + 1));
            assert(t.drop_last() =~= methods_view(methods@.take(i as int)));
            assert(t.last() == m@);
        }
        if !m.name.as_str().is_empty() || !m.return_type.as_str().is_empty() {
            let ghost before = out@;
            out.push(copy_method(m));
            assert(methods_view(out@) =~= methods_view(before).push(m@));
        }
        i = i + 1;
    }
    assert(methods@.take(methods.len() as int) =~= methods@);
    out
}

/// Drops the traits that have no name or the name `New trait`, and the
/// methods of the others that have neither name nor return type.
pub fn clean_traits(traits: &mut Vec<Trait>)
    ensures
        traits_view(final(traits)@) == cleaned_traits(traits_view(old(traits)@)),
{
    let mut out: Vec<Trait> = Vec::new();
    let mut i: usize = 0;
    while i < traits.len()
        invariant
            i <= traits.len(),
            traits_view(out@) == cleaned_traits(traits_view(traits@.take(i as int))),
        decreases traits.len() - i,
    {
        let t = &traits[i];
        proof {
            let v = traits_view(traits@.take(i + 1));
            assert(v.drop_last() =~= traits_view(traits@.take(i as int)));
            assert(v.last() == t@);
        }
        if !t.name.as_str().is_empty() && !str_eq(t.name.as_str(), "New trait") {
            let kept = Trait {
                description: t.description.clone(),
                name: t.name.clone(),
                methods: keep_signed_methods(&t.methods),
            };
            let ghost before = out@;
            out.push(kept);
            assert(traits_view(out@) =~= traits_view(before).push(
                TraitV { methods: signed_methods(t@.methods), ..t@ },
            ));
        }
        i = i + 1;
    }
    assert(traits@.take(traits.len() as int) =~= traits@);
    *traits = out;
}

/// Writes the editor's texts to the selected trait; outside editing,
/// methods with neither name nor return type are left out.
pub fn update_trait(state: &mut AppState, form: &Trait)
    requires
        index_or_first(old(state)@.traits) < old(state)@.data.traits.len(),
    ensures
        final(state)@ == apply_trait_form(old(state)@, form@),
{
    let i = state.traits_list_state.index_or_first();
    let methods = if state.mode == Mode::Display {
        keep_signed_methods(&form.methods)
    } else {
        copy_methods(&form.methods)
    };
    let updated = Trait { description: form.description.clone(), name: form.name.clone(), methods };
    let ghost before = state.data.traits@;
    let ghost updated_view = updated@;
    state.data.traits.set(i, updated);
    assert(traits_view(state.data.traits@) =~= traits_view(before).update(i as int, updated_view));
}

/// Tab's move: the next input; a trait without methods gets a new method
/// when Tab leaves its name.
fn next_active_input(state: &mut AppState) -> (r: ActiveInput)
    requires
        trait_next_defined(old(state)@),
    ensures
        final(state)@ == trait_tab_data(old(state)@),
        r == trait_next_input(old(state)@.active_input, selected_trait(final(state)@).methods),
{
    match state.active_input {
        ActiveInput::Description => ActiveInput::Name,
        ActiveInput::Name => {
            let i = state.traits_list_state.index_or_first();
            if state.data.traits[i].methods.is_empty() {
                let ghost before = state.data.traits@;
                state.data.traits[i].add_method();
                assert(traits_view(state.data.traits@) =~= traits_view(before).update(
                    i as int,
                    state.data.traits@[i as int]@,
                ));
            }
            ActiveInput::Method(0, 0)
        },
        ActiveInput::Method(method, index) => {
            let i = state.traits_list_state.index_or_first();
            let current_trait = &state.data.traits[i];
            let highest_method = current_trait.methods.len() - 1;
            let highest_index = current_trait.methods[method].arguments.len() * 2 + 1;
            let at_highest_method = method == highest_method;
            let at_highest_index = index == highest_index;
            if at_highest_index && at_highest_method {
                return ActiveInput::Method(method, index);
            }
            if at_highest_index {
                return ActiveInput::Method(method + 1, 0);
            }
            ActiveInput::Method(method, index + 1)
        },
        _ => ActiveInput::Nothing,
    }
}

/// Shift+Tab's move.
fn previous_active_input(state: &AppState) -> (r: ActiveInput)
    ensures
        r == trait_previous_input(state@.active_input),
{
    match state.active_input {
        ActiveInput::Description => ActiveInput::Description,
        ActiveInput::Name => ActiveInput::Description,
        ActiveInput::Method(method, index) => {
            if method == 0 && index == 0 {
                return ActiveInput::Name;
            }
            if index == 0 {
                return ActiveInput::Method(method - 1, 0);
            }
            ActiveInput::Method(method, index - 1)
        },
        _ => ActiveInput::Nothing,
    }
}

/// Whether `handle_key_event` answers the key without failing.
pub fn can_handle_key(key: KeyPress, state: &AppState, form: &Trait) -> (r: bool)
    ensures
        r == trait_key_allowed(state@, key, form@),
{
    let i = state.traits_list_state.index_or_first();
    let n = state.data.traits.len();
    match state.mode {
        Mode::Display => match key.code {
            Key::Char('j') | Key::Down => n > 0,
            _ => true,
        },
        Mode::Edit => match key.code {
            Key::Char('n') => !key.ctrl || i < n,
            Key::Char('b') => {
                if !key.ctrl {
                    return true;
                }
                if i >= n {
                    return false;
                }
                let m = match state.active_input {
                    ActiveInput::Method(m, _) => m,
                    _ => 0,
                };
                m < state.data.traits[i].methods.len()
            },
            Key::Tab => {
                if i >= n {
                    return false;
                }
                match state.active_input {
                    ActiveInput::Method(m, b) => {
                        m < form.methods.len() && form.methods[m].arguments.len() <= usize::MAX / 2
                            && b < usize::MAX
                    },
                    _ => true,
                }
            },
            Key::BackTab | Key::Enter => i < n,
            _ => true,
        },
    }
}

/// Answers a key on the traits page. `form` holds the first line of each
/// of the editor's text inputs.
pub fn handle_key_event(key: KeyPress, state: &mut AppState, form: &Trait) -> (r: KeyResponse)
    requires
        trait_key_allowed(old(state)@, key, form@),
    ensures
        (final(state)@, r) == trait_key_step(old(state)@, key, form@),
{
    match state.mode {
        Mode::Display => match key.code {
            Key::Esc => {
                clean_traits(&mut state.data.traits);
                KeyResponse { action: Action::GoToPage(PageKind::Home), forward_to_input: false }
            },
            Key::Char('j') | Key::Down => {
                if state.traits_list_state.index_or_first() < state.data.traits.len() - 1 {
                    state.traits_list_state.select_next();
                }
                KeyResponse { action: Action::UpdatePreview, forward_to_input: false }
            },
            Key::Char('k') | Key::Up => {
                state.traits_list_state.select_previous();
                KeyResponse { action: Action::UpdatePreview, forward_to_input: false }
            },
            Key::Char('n') => {
                state.mode.toggle();
                state.set_active_input(ActiveInput::Description);
                state.data.add_trait();
                state.traits_list_state.select_last();
                KeyResponse { action: Action::UpdatePreview, forward_to_input: false }
            },
            Key::Enter => {
                if state.data.traits.is_empty() {
                    return KeyResponse { action: Action::Nothing, forward_to_input: false };
                }
                state.mode.toggle();
                state.set_active_input(ActiveInput::Description);
                KeyResponse { action: Action::UpdatePreview, forward_to_input: false }
            },
            _ => KeyResponse { action: Action::Nothing, forward_to_input: false },
        },
        Mode::Edit => match key.code {
            Key::Esc => {
                state.mode.toggle();
                KeyResponse { action: Action::UpdatePreview, forward_to_input: false }
            },
            Key::Char('n') => {
                if !key.ctrl {
                    return KeyResponse { action: Action::Nothing, forward_to_input: true };
                }
                let i = state.traits_list_state.index_or_first();
                let ghost before = state.data.traits@;
                state.data.traits[i].add_method();
                assert(traits_view(state.data.traits@) =~= traits_view(before).update(
                    i as int,
                    state.data.traits@[i as int]@,
                ));
                KeyResponse { action: Action::UpdatePreview, forward_to_input: false }
            },
            Key::Char('b') => {
                if !key.ctrl {
                    return KeyResponse { action: Action::Nothing, forward_to_input: true };
                }
                let selected = match state.active_input {
                    ActiveInput::Method(method, _) => method,
                    _ => 0,
                };
                let i = state.traits_list_state.index_or_first();
                let ghost before = state.data.traits@;
                let ghost before_methods = state.data.traits@[i as int].methods@;
                state.data.traits[i].methods[selected].add_argument();
                assert(methods_view(state.data.traits@[i as int].methods@) =~= methods_view(
                    before_methods,
                ).update(selected as int, state.data.traits@[i as int].methods@[selected as int]@));
                assert(traits_view(state.data.traits@) =~= traits_view(before).update(
                    i as int,
                    state.data.traits@[i as int]@,
                ));
                KeyResponse { action: Action::UpdatePreview, forward_to_input: false }
            },
            Key::Tab => {
                update_trait(state, form);
                let next = next_active_input(state);
                state.active_input = next;
                KeyResponse { action: Action::UpdatePreview, forward_to_input: false }
            },
            Key::BackTab => {
                update_trait(state, form);
                state.active_input = previous_active_input(state);
                KeyResponse { action: Action::UpdatePreview, forward_to_input: false }
            },
            Key::Enter => {
                state.mode.toggle();
                update_trait(state, form);
                state.set_active_input(ActiveInput::Nothing);
                KeyResponse { action: Action::UpdatePreview, forward_to_input: false }
            },
            _ => KeyResponse { action: Action::Nothing, forward_to_input: true },
        },
    }
}

/// Which box of an argument receives typed keys.
#[derive(PartialEq, Eq, Structural, Clone, Copy, Debug)]
pub enum DesiredArgumentBox {
    Name,
    Type,
}

/// Which text input of the trait editor's methods receives typed keys.
#[derive(PartialEq, Eq, Structural, Clone, Copy, Debug)]
pub enum DesiredBox {
    Nothing,
    ReturnType { method_index: usize },
    Name { method_index: usize },
    Argument { method_index: usize, argument_index: usize, argument_box: DesiredArgumentBox },
}

/// The method box that box index `index` of method `method` names, if the
/// method is in `form`: box 0 is the name, box 1 the return type, and boxes
/// `2k + 2` and `2k + 3` the name and the type of argument `k`.
pub open spec fn desired_box_of(a: ActiveInput, form: TraitV) -> DesiredBox {
    match a {
        ActiveInput::Method(method, index) => if method < form.methods.len() {
            if index == 0 {
                DesiredBox::Name { method_index: method }
            } else if index == 1 {
                DesiredBox::ReturnType { method_index: method }
            } else if (index - 2) / 2 < form.methods[method as int].arguments.len() {
                DesiredBox::Argument {
                    method_index: method,
                    argument_index: ((index - 2) / 2) as usize,
                    argument_box: if index % 2 == 0 {
                        DesiredArgumentBox::Name
                    } else {
                        DesiredArgumentBox::Type
                    },
                }
            } else {
                DesiredBox::Nothing
            }
        } else {
            DesiredBox::Nothing
        },
        _ => DesiredBox::Nothing,
    }
}

/// The method box that receives typed keys while `active` is active.
pub fn desired_box(active: ActiveInput, form: &Trait) -> (r: DesiredBox)
    ensures
        r == desired_box_of(active, form@),
        r matches DesiredBox::Name { method_index } ==> method_index < form@.methods.len(),
        r matches DesiredBox::ReturnType { method_index } ==> method_index < form@.methods.len(),
        r matches DesiredBox::Argument { method_index, argument_index, .. } ==> method_index
            < form@.methods.len() && argument_index < form@.methods[method_index as int].arguments.len(),
{
    match active {
        ActiveInput::Method(method, index) => {
            if method >= form.methods.len() {
                return DesiredBox::Nothing;
            }
            if index == 0 {
                return DesiredBox::Name { method_index: method };
            }
            if index == 1 {
                return DesiredBox::ReturnType { method_index: method };
            }
            let argument_index = (index - 2) / 2;
            if argument_index < form.methods[method].arguments.len() {
                let argument_box = if index % 2 == 0 {
                    DesiredArgumentBox::Name
                } else {
                    DesiredArgumentBox::Type
                };
                DesiredBox::Argument { method_index: method, argument_index, argument_box }
            } else {
                DesiredBox::Nothing
            }
        },
        _ => DesiredBox::Nothing,
    }
}

/// Shift+Tab undoes Tab on the description, the name, and every method box
/// but the last box of a method: moving forward and then back returns to
/// the same input.
pub proof fn lemma_trait_previous_undoes_next(a: ActiveInput, methods: Seq<MethodV>)
    requires
        a == ActiveInput::Description || a == ActiveInput::Name || (a matches ActiveInput::Method(
            m,
            i,
        ) && m < methods.len() && i < last_box(methods[m as int]) && i < usize::MAX),
    ensures
        trait_previous_input(trait_next_input(a, methods)) == a,
{
}

proof fn lemma_signed_methods_all_signed(methods: Seq<MethodV>)
    ensures
        forall|i: int|
            0 <= i < signed_methods(methods).len() ==> method_has_signature(
                #[trigger] signed_methods(methods)[i],
            ),
    decreases methods.len(),
{
    if methods.len() > 0 {
        let rest = signed_methods(methods.drop_last());
        lemma_signed_methods_all_signed(methods.drop_last());
        if method_has_signature(methods.last()) {
            let r = rest.push(methods.last());
            assert forall|i: int| 0 <= i < r.len() implies method_has_signature(#[trigger] r[i]) by {
                if i < rest.len() {
                    assert(r[i] == rest[i]);
                }
            }
        }
    }
}

proof fn lemma_signed_methods_idempotent(methods: Seq<MethodV>)
    ensures
        signed_methods(signed_methods(methods)) == signed_methods(methods),
    decreases methods.len(),
{
    if methods.len() > 0 {
        let rest = signed_methods(methods.drop_last());
        lemma_signed_methods_idempotent(methods.drop_last());
        if method_has_signature(methods.last()) {
            let r = rest.push(methods.last());
            assert(r.drop_last() =~= rest);
        }
    }
}

/// Leaving the traits page keeps only traits with a name other than
/// `New trait`, whose methods all have a name or a return type, and leaving
/// it again changes nothing more.
pub proof fn lemma_cleaned_traits(traits: Seq<TraitV>)
    ensures
        forall|i: int|
            0 <= i < cleaned_traits(traits).len() ==> trait_is_kept(
                #[trigger] cleaned_traits(traits)[i],
            ) && forall|j: int|
                0 <= j < cleaned_traits(traits)[i].methods.len() ==> method_has_signature(
                    #[trigger] cleaned_traits(traits)[i].methods[j],
                ),
        cleaned_traits(cleaned_traits(traits)) == cleaned_traits(traits),
    decreases traits.len(),
{
    if traits.len() > 0 {
        let rest = cleaned_traits(traits.drop_last());
        lemma_cleaned_traits(traits.drop_last());
        let t = traits.last();
        if trait_is_kept(t) {
            let k = TraitV { methods: signed_methods(t.methods), ..t };
            lemma_signed_methods_all_signed(t.methods);
            lemma_signed_methods_idempotent(t.methods);
            let r = rest.push(k);
            assert(r.drop_last() =~= rest);
            assert(cleaned_traits(r) =~= r);
        }
    }
}

/// What the editor writes is what it reads back: after the editor's texts
/// are written to the selected trait while editing, the editor built from
/// that trait shows the same texts, unless the name written was the
/// placeholder `New Trait` or no method was written.
pub proof fn lemma_trait_form_round_trip(s: AppStateV, form: TraitV)
    requires
        s.mode == Mode::Edit,
        index_or_first(s.traits) < s.data.traits.len(),
        form.name != "New Trait"@,
        form.methods.len() > 0,
    ensures
        crate::pages::trait_form_of(crate::pages::current_trait(apply_trait_form(s, form))) == form,
{
    let u = apply_trait_form(s, form);
    assert(crate::pages::current_trait(u) == TraitV {
        description: form.description,
        name: form.name,
        methods: form.methods,
    });
}

/// Leaving the traits page (Esc while not editing) keeps, in order,
/// exactly the traits whose name is neither empty nor `New trait`; each
/// keeps its own description and name, and loses only its methods that
/// have neither a name nor a return type. It goes back to the home page.
pub proof fn lemma_leaving_traits_keeps_named_traits(s: AppStateV, key: KeyPress, form: TraitV)
    requires
        s.mode == Mode::Display,
        key.code == Key::Esc,
    ensures
        trait_key_step(s, key, form).0.data.traits == s.data.traits.filter_map(
            |t: TraitV|
                if t.name.len() > 0 && t.name != "New trait"@ {
                    Some(
                        TraitV {
                            description: t.description,
                            name: t.name,
                            methods: t.methods.filter_map(
                                |m: MethodV|
                                    if m.name.len() > 0 || m.return_type.len() > 0 {
                                        Some(m)
                                    } else {
                                        None
                                    },
                            ),
                        },
                    )
                } else {
                    None
                },
        ),
        trait_key_step(s, key, form).1 == respond(Action::GoToPage(PageKind::Home), false),
{
    lemma_cleaned_traits_filter_map(s.data.traits);
}

proof fn lemma_signed_methods_filter_map(ms: Seq<MethodV>)
    ensures
        signed_methods(ms) == ms.filter_map(
            |m: MethodV|
                if m.name.len() > 0 || m.return_type.len() > 0 {
                    Some(m)
                } else {
                    None
                },
        ),
    decreases ms.len(),
{
    if ms.len() > 0 {
        lemma_signed_methods_filter_map(ms.drop_last());
        let f = |m: MethodV|
            if m.name.len() > 0 || m.return_type.len() > 0 {
                Some(m)
            } else {
                None
            };
        let r = ms.drop_last().filter_map(f);
        if method_has_signature(ms.last()) {
            assert(ms.filter_map(f) == r + seq![ms.last()]);
            assert(signed_methods(ms) =~= r + seq![ms.last()]);
        } else {
            assert(ms.filter_map(f) == r);
        }
    }
}

proof fn lemma_cleaned_traits_filter_map(ts: Seq<TraitV>)
    ensures
        cleaned_traits(ts) == ts.filter_map(
            |t: TraitV|
                if t.name.len() > 0 && t.name != "New trait"@ {
                    Some(
                        TraitV {
                            description: t.description,
                            name: t.name,
                            methods: t.methods.filter_map(
                                |m: MethodV|
                                    if m.name.len() > 0 || m.return_type.len() > 0 {
                                        Some(m)
                                    } else {
                                        None
                                    },
                            ),
                        },
                    )
                } else {
                    None
                },
        ),
    decreases ts.len(),
{
    if ts.len() > 0 {
        lemma_cleaned_traits_filter_map(ts.drop_last());
        let f = |t: TraitV|
            if t.name.len() > 0 && t.name != "New trait"@ {
                Some(
                    TraitV {
                        description: t.description,
                        name: t.name,
                        methods: t.methods.filter_map(
                            |m: MethodV|
                                if m.name.len() > 0 || m.return_type.len() > 0 {
                                    Some(m)
                                } else {
                                    None
                                },
                        ),
                    },
                )
            } else {
                None
            };
        let r = ts.drop_last().filter_map(f);
        let last = ts.last();
        if trait_is_kept(last) {
            lemma_signed_methods_filter_map(last.methods);
            assert(ts.filter_map(f) == r + seq![f(last)->0]);
            assert(cleaned_traits(ts) =~= r + seq![f(last)->0]);
        } else {
            assert(ts.filter_map(f) == r);
        }
    }
}

/// Ctrl+B while editing gives the active method of the selected trait one
/// more argument, an empty one at the end; every other method, the
/// trait's name and description, and every other trait stay as they were.
pub proof fn lemma_ctrl_b_adds_argument_to_active_method(
    s: AppStateV,
    key: KeyPress,
    form: TraitV,
    m: usize,
    b: usize,
)
    requires
        s.mode == Mode::Edit,
        key.code == Key::Char('b'),
        key.ctrl,
        s.active_input == ActiveInput::Method(m, b),
        index_or_first(s.traits) < s.data.traits.len(),
        m < s.data.traits[index_or_first(s.traits) as int].methods.len(),
    ensures
        ({
            let i = index_or_first(s.traits) as int;
            let before = s.data.traits[i];
            let next = trait_key_step(s, key, form).0;
            let after = next.data.traits[i];
            &&& next.data.traits.len() == s.data.traits.len()
            &&& forall|j: int| 0 <= j < s.data.traits.len() && j != i ==> next.data.traits[j] == s.data.traits[j]
            &&& after.name == before.name
            &&& after.description == before.description
            &&& after.methods.len() == before.methods.len()
            &&& after.methods[m as int].name == before.methods[m as int].name
            &&& after.methods[m as int].return_type == before.methods[m as int].return_type
            &&& after.methods[m as int].arguments == before.methods[m as int].arguments.push(
                ArgumentV { name: seq![], argument_type: seq![] },
            )
            &&& forall|k: int| 0 <= k < before.methods.len() && k != m ==> after.methods[k] == before.methods[k]
            &&& next.active_input == s.active_input
            &&& next.mode == s.mode
        }),
        trait_key_step(s, key, form).1 == respond(Action::UpdatePreview, false),
{
}

/// Ctrl+N while editing gives the selected trait a new method at the end,
/// with an empty name and return type and one empty argument; its other
/// methods, name and description stay as they were.
pub proof fn lemma_ctrl_n_adds_method(s: AppStateV, key: KeyPress, form: TraitV)
    requires
        s.mode == Mode::Edit,
        key.code == Key::Char('n'),
        key.ctrl,
        index_or_first(s.traits) < s.data.traits.len(),
    ensures
        ({
            let i = index_or_first(s.traits) as int;
            let before = s.data.traits[i];
            let next = trait_key_step(s, key, form).0;
            let after = next.data.traits[i];
            &&& next.data.traits.len() == s.data.traits.len()
            &&& forall|j: int| 0 <= j < s.data.traits.len() && j != i ==> next.data.traits[j] == s.data.traits[j]
            &&& after.name == before.name
            &&& after.description == before.description
            &&& after.methods == before.methods.push(
                MethodV {
                    name: seq![],
                    return_type: seq![],
                    arguments: seq![ArgumentV { name: seq![], argument_type: seq![] }],
                },
            )
        }),
        trait_key_step(s, key, form).1 == respond(Action::UpdatePreview, false),
{
}

/// Writing the trait editor back replaces only the selected trait: it
/// takes the editor's description and name, and its methods with all
/// their arguments, all of them while editing and only those with a name
/// or a return type otherwise.
pub proof fn lemma_trait_write_back(s: AppStateV, form: TraitV)
    requires
        index_or_first(s.traits) < s.data.traits.len(),
    ensures
        ({
            let i = index_or_first(s.traits) as int;
            let next = apply_trait_form(s, form);
            let after = next.data.traits;
            &&& after.len() == s.data.traits.len()
            &&& forall|j: int| 0 <= j < after.len() && j != i ==> after[j] == s.data.traits[j]
            &&& after[i].description == form.description
            &&& after[i].name == form.name
            &&& s.mode == Mode::Edit ==> after[i].methods == form.methods
            &&& s.mode == Mode::Display ==> after[i].methods == form.methods.filter_map(
                |m: MethodV|
                    if m.name.len() > 0 || m.return_type.len() > 0 {
                        Some(m)
                    } else {
                        None
                    },
            )
            &&& next.mode == s.mode && next.active_input == s.active_input
            &&& next.data.description == s.data.description && next.data.structs
                == s.data.structs
        }),
{
    lemma_signed_methods_filter_map(form.methods);
}

} // verus!
