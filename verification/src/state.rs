//! The tool's state between two key presses, and the values that pass
//! between the pages and the terminal front end.
use vstd::prelude::*;
use crate::data_types::{empty_data, AppData, AppDataV};

verus! {

/// Whether the page shows its list (`Display`) or edits the selected item (`Edit`).
#[derive(PartialEq, Eq, Structural, Clone, Copy, Debug)]
pub enum Mode {
    Display,
    Edit,
}

impl Mode {
    /// The other mode.
    pub open spec fn toggled(self) -> Mode {
        match self {
            Mode::Display => Mode::Edit,
            Mode::Edit => Mode::Display,
        }
    }

    /// Switches between `Display` and `Edit`.
    pub fn toggle(&mut self)
        ensures
            *final(self) == old(self).toggled(),
    {
        *self = match *self {
            Mode::Display => Mode::Edit,
            Mode::Edit => Mode::Display,
        }
    }
}

impl Default for Mode {
    fn default() -> (r: Self)
        ensures
            r == Mode::Display,
    {
        Mode::Display
    }
}

/// Toggling the mode twice gives the mode back.
pub proof fn lemma_toggle_twice(m: Mode)
    ensures
        m.toggled().toggled() == m,
{
}

/// The text input that receives typed keys: none, the description, the
/// name, or a box of a member given by its row and its column.
#[derive(PartialEq, Eq, Structural, Clone, Copy, Debug)]
pub enum ActiveInput {
    Nothing,
    Description,
    Name,
    Field(usize, usize),
    Variant(usize, usize),
    Method(usize, usize),
    Command(usize, usize),
}

impl Default for ActiveInput {
    fn default() -> (r: Self)
        ensures
            r == ActiveInput::Nothing,
    {
        ActiveInput::Nothing
    }
}

/// The pages one can go to.
#[derive(PartialEq, Eq, Structural, Clone, Copy, Debug)]
pub enum PageKind {
    Home,
    Description,
    Structs,
    Enums,
    Traits,
}

/// What the front end does after a key press.
#[derive(PartialEq, Eq, Structural, Clone, Copy, Debug)]
pub enum Action {
    Nothing,
    GoToPage(PageKind),
    UpdatePreview,
    Exit,
    GenerateBlueprint,
}

/// A key as the pages tell keys apart.
#[derive(PartialEq, Eq, Structural, Clone, Copy, Debug)]
pub enum Key {
    Char(char),
    Esc,
    Up,
    Down,
    Tab,
    BackTab,
    Enter,
    Other,
}

/// A pressed key, and whether Control was held.
#[derive(PartialEq, Eq, Structural, Clone, Copy, Debug)]
pub struct KeyPress {
    pub code: Key,
    pub ctrl: bool,
}

/// What a page answers to a key: the action, and whether the key goes on
/// to the active text input.
#[derive(PartialEq, Eq, Structural, Clone, Copy, Debug)]
pub struct KeyResponse {
    pub action: Action,
    pub forward_to_input: bool,
}

/// The selected row of a list, if any. Before the list is drawn the index
/// may lie past its end; drawing brings it back to the last row.
#[derive(PartialEq, Eq, Structural, Clone, Copy, Debug)]
pub struct ListSelection {
    pub selected: Option<usize>,
}

/// The row that `select_next` selects.
pub open spec fn next_index(selected: Option<usize>) -> usize {
    match selected {
        None => 0,
        Some(i) => if i == usize::MAX { i } else { (i + 1) as usize },
    }
}

/// The row that `select_previous` selects.
pub open spec fn previous_index(selected: Option<usize>) -> usize {
    match selected {
        None => usize::MAX,
        Some(i) => if i == 0 { 0 } else { (i - 1) as usize },
    }
}

/// The index a page works on: the selected row, or the first one.
pub open spec fn index_or_first(selected: Option<usize>) -> usize {
    match selected {
        None => 0,
        Some(i) => i,
    }
}

impl ListSelection {
    /// The selected row, if any.
    pub fn selected(&self) -> (r: Option<usize>)
        ensures
            r == self.selected,
    {
        self.selected
    }

    /// The selected row, or the first one when none is selected.
    pub fn index_or_first(&self) -> (r: usize)
        ensures
            r == index_or_first(self.selected),
    {
        match self.selected {
            Some(i) => i,
            None => 0,
        }
    }

    /// Selects `index`.
    pub fn select(&mut self, index: Option<usize>)
        ensures
            final(self).selected == index,
    {
        self.selected = index;
    }

    /// Selects the next row, or the first one when none is selected.
    pub fn select_next(&mut self)
        ensures
            final(self).selected == Some(next_index(old(self).selected)),
    {
        let next = match self.selected {
            None => 0,
            Some(i) => if i == usize::MAX { i } else { i + 1 },
        };
        self.selected = Some(next);
    }

    /// Selects the previous row, or the last one when none is selected.
    pub fn select_previous(&mut self)
        ensures
            final(self).selected == Some(previous_index(old(self).selected)),
    {
        let previous = match self.selected {
            None => usize::MAX,
            Some(i) => if i == 0 { 0 } else { i - 1 },
        };
        self.selected = Some(previous);
    }

    /// Selects the last row.
    pub fn select_last(&mut self)
        ensures
            final(self).selected == Some(usize::MAX),
    {
        self.selected = Some(usize::MAX);
    }
}

impl Default for ListSelection {
    fn default() -> (r: Self)
        ensures
            r.selected == None::<usize>,
    {
        ListSelection { selected: None }
    }
}

/// Moving down a row and then up a row comes back to the row one started
/// on; from no selection it comes to the first row.
pub proof fn lemma_next_then_previous(selected: Option<usize>)
    requires
        selected != Some(usize::MAX),
    ensures
        previous_index(Some(next_index(selected))) == index_or_first(selected),
{
}

/// The whole state of the tool between two key presses.
pub struct AppState {
    pub should_exit: bool,
    pub data: AppData,
    pub mode: Mode,
    pub active_input: ActiveInput,
    pub home_list_state: ListSelection,
    pub structs_list_state: ListSelection,
    pub enums_list_state: ListSelection,
    pub traits_list_state: ListSelection,
    pub workflow_list_state: ListSelection,
}

/// The state as a mathematical value; each list is given by its selected row.
#[verifier::ext_equal]
pub struct AppStateV {
    pub should_exit: bool,
    pub data: AppDataV,
    pub mode: Mode,
    pub active_input: ActiveInput,
    pub home: Option<usize>,
    pub structs: Option<usize>,
    pub enums: Option<usize>,
    pub traits: Option<usize>,
    pub workflow: Option<usize>,
}

impl View for AppState {
    type V = AppStateV;

    open spec fn view(&self) -> AppStateV {
        AppStateV {
            should_exit: self.should_exit,
            data: self.data@,
            mode: self.mode,
            active_input: self.active_input,
            home: self.home_list_state.selected,
            structs: self.structs_list_state.selected,
            enums: self.enums_list_state.selected,
            traits: self.traits_list_state.selected,
            workflow: self.workflow_list_state.selected,
        }
    }
}

impl Default for AppState {
    fn default() -> (r: Self)
        ensures
            r@ == (AppStateV {
                should_exit: false,
                data: empty_data(r.data.workflow),
                mode: Mode::Display,
                active_input: ActiveInput::Nothing,
                home: None,
                structs: None,
                enums: None,
                traits: None,
                workflow: None,
            }),
            r.data.workflow.lists@.len() == 0,
    {
        AppState {
            should_exit: false,
            data: AppData::default(),
            mode: Mode::default(),
            active_input: ActiveInput::default(),
            home_list_state: ListSelection::default(),
            structs_list_state: ListSelection::default(),
            enums_list_state: ListSelection::default(),
            traits_list_state: ListSelection::default(),
            workflow_list_state: ListSelection::default(),
        }
    }
}

impl AppState {
    /// The starting state: an empty blueprint on the home page, with the
    /// first row of the home, structs, enums and workflow lists selected
    /// (the traits list has no selection).
    pub fn new() -> (r: Self)
        ensures
            r@ == (AppStateV {
                should_exit: false,
                data: empty_data(r.data.workflow),
                mode: Mode::Display,
                active_input: ActiveInput::Nothing,
                home: Some(0),
                structs: Some(0),
                enums: Some(0),
                traits: None,
                workflow: Some(0),
            }),
            r.data.workflow.lists@.len() == 0,
    {
        let mut state = Self::default();
        state.home_list_state.select(Some(0));
        state.structs_list_state.select(Some(0));
        state.enums_list_state.select(Some(0));
        state.workflow_list_state.select(Some(0));
        state
    }

    /// Makes `new_input` the active text input.
    pub fn set_active_input(&mut self, new_input: ActiveInput)
        ensures
            final(self)@ == (AppStateV { active_input: new_input, ..old(self)@ }),
    {
        self.active_input = new_input;
    }

    /// Asks the tool to stop.
    pub fn exit(&mut self)
        ensures
            final(self)@ == (AppStateV { should_exit: true, ..old(self)@ }),
    {
        self.should_exit = true;
    }
}

/// The Markdown text of the blueprint: its description.
pub fn generate_md_string(data: &AppData) -> (r: String)
    ensures
        r@ == data.description@,
{
    data.description.clone()
}

} // verus!
