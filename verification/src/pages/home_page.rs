//! The home page: the list of the blueprint's sections.
use vstd::prelude::*;
use crate::data_types::struct_data::{struct_preview, structs_view, StructV};
use crate::pages::{DESCRIPTION_INDEX, STRUCTS_INDEX};
use crate::text::{lines_view, split_lines, split_spec, strings_view, LineV, TextLine};
use crate::state::{next_index, previous_index, Action, AppState, AppStateV, Key, KeyPress, PageKind};

verus! {

/// How the home page answers a key: `q` quits, `j`/Down and `k`/Up move
/// through the list, Enter opens the description or the structs page when
/// that row is selected, and Ctrl+S writes the blueprint.
pub open spec fn home_key_step(s: AppStateV, key: KeyPress) -> (AppStateV, Action) {
    match key.code {
        Key::Char('q') => (s, Action::Exit),
        Key::Char('j') | Key::Down => (AppStateV { home: Some(next_index(s.home)), ..s }, Action::Nothing),
        Key::Char('k') | Key::Up => (
            AppStateV { home: Some(previous_index(s.home)), ..s },
            Action::Nothing,
        ),
        Key::Enter => if s.home == Some(0usize) {
            (s, Action::GoToPage(PageKind::Description))
        } else if s.home == Some(1usize) {
            (s, Action::GoToPage(PageKind::Structs))
        } else {
            (s, Action::Nothing)
        },
        Key::Char('s') => if key.ctrl {
            (s, Action::GenerateBlueprint)
        } else {
            (s, Action::Nothing)
        },
        _ => (s, Action::Nothing),
    }
}

/// Answers a key on the home page.
pub fn handle_key_event(key: KeyPress, state: &mut AppState) -> (r: Action)
    ensures
        (final(state)@, r) == home_key_step(old(state)@, key),
{
    match key.code {
        Key::Char('q') => return Action::Exit,
        Key::Char('j') | Key::Down => state.home_list_state.select_next(),
        Key::Char('k') | Key::Up => state.home_list_state.select_previous(),
        Key::Enter => {
            if state.home_list_state.selected() == Some(DESCRIPTION_INDEX) {
                return Action::GoToPage(PageKind::Description);
            } else if state.home_list_state.selected() == Some(STRUCTS_INDEX) {
                return Action::GoToPage(PageKind::Structs);
            }
        },
        Key::Char('s') => {
            if key.ctrl {
                return Action::GenerateBlueprint;
            }
        },
        _ => {},
    }
    Action::Nothing
}

/// On the home page, `q` quits, Ctrl+S writes the blueprint, and Enter
/// opens the description from the first row and the structs from the
/// second; none of these changes the state.
pub proof fn lemma_home_keys(s: AppStateV, key: KeyPress)
    ensures
        key.code == Key::Char('q') ==> home_key_step(s, key) == (s, Action::Exit),
        key.code == Key::Char('s') && key.ctrl ==> home_key_step(s, key) == (
            s,
            Action::GenerateBlueprint,
        ),
        key.code == Key::Enter && s.home == Some(0usize) ==> home_key_step(s, key) == (
            s,
            Action::GoToPage(PageKind::Description),
        ),
        key.code == Key::Enter && s.home == Some(1usize) ==> home_key_step(s, key) == (
            s,
            Action::GoToPage(PageKind::Structs),
        ),
{
}

/// What the home page's preview pane shows.
pub enum HomePreview {
    /// The description's lines, one list entry each.
    Description(Vec<String>),
    /// The preview of each struct, one list entry each.
    Structs(Vec<Vec<TextLine>>),
    /// Nothing.
    Empty,
}

/// The preview of each struct, in order.
pub open spec fn structs_preview(structs: Seq<StructV>) -> Seq<Seq<LineV>> {
    structs.map_values(|s: StructV| struct_preview(s))
}

/// The preview pane shows the description's lines while the description
/// row is selected, the structs while the structs row is selected, and
/// nothing otherwise.
pub fn preview(state: &AppState) -> (r: HomePreview)
    ensures
        state@.home == Some(DESCRIPTION_INDEX) ==> (r matches HomePreview::Description(lines)
            && strings_view(lines@) == split_spec(state@.data.description)),
        state@.home == Some(STRUCTS_INDEX) ==> (r matches HomePreview::Structs(items)
            && items@.map_values(|item: Vec<TextLine>| lines_view(item@)) == structs_preview(
            state@.data.structs,
        )),
        state@.home != Some(DESCRIPTION_INDEX) && state@.home != Some(STRUCTS_INDEX) ==> r is Empty,
{
    if state.home_list_state.selected() == Some(DESCRIPTION_INDEX) {
        HomePreview::Description(split_lines(state.data.description.as_str()))
    } else if state.home_list_state.selected() == Some(STRUCTS_INDEX) {
        let structs = &state.data.structs;
        let mut items: Vec<Vec<TextLine>> = Vec::new();
        let mut i: usize = 0;
        while i < structs.len()
            invariant
                i <= structs.len(),
                items@.map_values(|item: Vec<TextLine>| lines_view(item@)) == structs_preview(
                    structs_view(structs@.take(i as int)),
                ),
            decreases structs.len() - i,
        {
            let item = structs[i].to_list_item();
            let ghost before = items@;
            items.push(item);
            proof {
                assert(items@.map_values(|item: Vec<TextLine>| lines_view(item@)) =~= before.map_values(
                    |item: Vec<TextLine>| lines_view(item@),
                ).push(struct_preview(structs@[i as int]@)));
                assert(structs_preview(structs_view(structs@.take(i + 1))) =~= structs_preview(
                    structs_view(structs@.take(i as int)),
                ).push(struct_preview(structs@[i as int]@)));
            }
            i = i + 1;
        }
        assert(structs@.take(structs.len() as int) =~= structs@);
        HomePreview::Structs(items)
    } else {
        HomePreview::Empty
    }
}

} // verus!
