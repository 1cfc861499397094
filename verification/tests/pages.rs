use blueprint::data_types::{AppData, Command, Field, Method, Struct, Trait};
use blueprint::pages::commands_page;
use blueprint::pages::description_page;
use blueprint::pages::home_page::{self, HomePreview};
use blueprint::pages::structs_page;
use blueprint::pages::traits_page::{self, DesiredArgumentBox, DesiredBox};
use blueprint::pages::{description_form, enum_form, struct_form, trait_form};
use blueprint::state::{Action, ActiveInput, AppState, Key, KeyPress, KeyResponse, Mode, PageKind};

fn key(code: Key) -> KeyPress {
    KeyPress { code, ctrl: false }
}

fn ctrl(c: char) -> KeyPress {
    KeyPress { code: Key::Char(c), ctrl: true }
}

fn field(name: &str, ty: &str, note: &str) -> Field {
    Field { name: name.to_string(), field_type: ty.to_string(), note: note.to_string() }
}

fn response(action: Action, forward: bool) -> KeyResponse {
    KeyResponse { action, forward_to_input: forward }
}

#[test]
fn new_state_selects_first_rows() {
    let s = AppState::new();
    assert_eq!(s.home_list_state.selected(), Some(0));
    assert_eq!(s.structs_list_state.selected(), Some(0));
    assert_eq!(s.enums_list_state.selected(), Some(0));
    assert_eq!(s.workflow_list_state.selected(), Some(0));
    assert_eq!(s.traits_list_state.selected(), None);
    assert_eq!(s.mode, Mode::Display);
    assert_eq!(s.active_input, ActiveInput::Nothing);
    assert!(!s.should_exit);
}

#[test]
fn set_active_input_and_exit() {
    let mut s = AppState::new();
    s.set_active_input(ActiveInput::Name);
    assert_eq!(s.active_input, ActiveInput::Name);
    s.exit();
    assert!(s.should_exit);
}

#[test]
fn home_keys() {
    let mut s = AppState::new();
    assert_eq!(home_page::handle_key_event(key(Key::Char('q')), &mut s), Action::Exit);
    assert_eq!(home_page::handle_key_event(key(Key::Enter), &mut s), Action::GoToPage(PageKind::Description));
    assert_eq!(home_page::handle_key_event(key(Key::Down), &mut s), Action::Nothing);
    assert_eq!(s.home_list_state.selected(), Some(1));
    assert_eq!(home_page::handle_key_event(key(Key::Enter), &mut s), Action::GoToPage(PageKind::Structs));
    home_page::handle_key_event(key(Key::Char('j')), &mut s);
    assert_eq!(home_page::handle_key_event(key(Key::Enter), &mut s), Action::Nothing);
    home_page::handle_key_event(key(Key::Char('k')), &mut s);
    assert_eq!(s.home_list_state.selected(), Some(1));
    assert_eq!(home_page::handle_key_event(ctrl('s'), &mut s), Action::GenerateBlueprint);
    assert_eq!(home_page::handle_key_event(key(Key::Char('s')), &mut s), Action::Nothing);
}

#[test]
fn home_preview_follows_selection() {
    let mut s = AppState::new();
    s.data.description = "a\nb".to_string();
    s.data.add_struct();
    match home_page::preview(&s) {
        HomePreview::Description(lines) => assert_eq!(lines, vec!["a".to_string(), "b".to_string()]),
        _ => panic!("expected the description"),
    }
    s.home_list_state.select(Some(1));
    match home_page::preview(&s) {
        HomePreview::Structs(items) => {
            assert_eq!(items.len(), 1);
            assert_eq!(items[0].len(), 3);
        }
        _ => panic!("expected the structs"),
    }
    s.home_list_state.select(Some(2));
    assert!(matches!(home_page::preview(&s), HomePreview::Empty));
}

#[test]
fn description_keys() {
    let mut s = AppState::new();
    s.data.description = "old".to_string();
    let lines = vec!["new".to_string(), "text".to_string()];
    assert_eq!(
        description_page::handle_key_event(key(Key::Char('s')), &mut s, &lines),
        response(Action::Nothing, true)
    );
    assert_eq!(s.data.description, "old");
    assert_eq!(
        description_page::handle_key_event(key(Key::Esc), &mut s, &lines),
        response(Action::GoToPage(PageKind::Home), false)
    );
    assert_eq!(s.data.description, "old");
    assert_eq!(
        description_page::handle_key_event(ctrl('s'), &mut s, &lines),
        response(Action::GoToPage(PageKind::Home), false)
    );
    assert_eq!(s.data.description, "new\ntext");
    assert_eq!(description_form(&s.data), lines);
}

#[test]
fn saving_unchanged_description_keeps_it() {
    let mut s = AppState::new();
    s.data.description = "line one\n\nline three\n".to_string();
    let lines = description_form(&s.data);
    description_page::handle_key_event(ctrl('s'), &mut s, &lines);
    assert_eq!(s.data.description, "line one\n\nline three\n");
}

#[test]
fn struct_form_shows_placeholders_empty() {
    let mut s = AppState::new();
    let f = struct_form(&s);
    assert_eq!(f.name, "");
    assert_eq!(f.fields.len(), 1);
    s.data.add_struct();
    let f = struct_form(&s);
    assert_eq!(f.name, "");
    assert_eq!(f.fields.len(), 1);
    s.data.structs[0].name = "Point".to_string();
    s.data.structs[0].fields = vec![field("x", "i32", ""), field("y", "i32", "")];
    let f = struct_form(&s);
    assert_eq!(f.name, "Point");
    assert_eq!(f.fields.len(), 2);
    assert_eq!(f.fields[1].name, "y");
}

#[test]
fn enum_and_trait_forms() {
    let mut s = AppState::new();
    s.data.add_enum();
    let e = enum_form(&s);
    assert_eq!(e.name, "");
    assert_eq!(e.variants.len(), 1);
    s.data.add_trait();
    s.traits_list_state.select(Some(0));
    let t = trait_form(&s);
    assert_eq!(t.name, "");
    assert_eq!(t.methods.len(), 1);
    assert!(t.methods[0].arguments.is_empty());
    s.data.traits[0].methods.clear();
    let t = trait_form(&s);
    assert_eq!(t.methods.len(), 1);
    assert_eq!(t.methods[0].arguments.len(), 1);
}

#[test]
fn struct_page_creates_and_edits_a_struct() {
    let mut s = AppState::new();
    s.home_list_state.select(Some(1));
    let form = struct_form(&s);
    // Enter on "+ New Struct" creates one and starts editing it.
    assert!(structs_page::can_handle_key(key(Key::Enter), &s, &form));
    let r = structs_page::handle_key_event(key(Key::Enter), &mut s, &form);
    assert_eq!(r, response(Action::UpdatePreview, false));
    assert_eq!(s.data.structs.len(), 1);
    assert_eq!(s.mode, Mode::Edit);
    assert_eq!(s.active_input, ActiveInput::Description);
    // Typing goes to the input.
    let form = Struct { description: "A point".to_string(), name: "Point".to_string(), fields: vec![field("", "", "")] };
    assert_eq!(structs_page::handle_key_event(key(Key::Char('p')), &mut s, &form), response(Action::Nothing, true));
    // Tab writes the form and moves to the name.
    structs_page::handle_key_event(key(Key::Tab), &mut s, &form);
    assert_eq!(s.active_input, ActiveInput::Name);
    assert_eq!(s.data.structs[0].name, "Point");
    assert_eq!(s.data.structs[0].description, "A point");
    structs_page::handle_key_event(key(Key::Tab), &mut s, &form);
    assert_eq!(s.active_input, ActiveInput::Field(0, 0));
    assert_eq!(s.data.structs[0].fields.len(), 1);
    structs_page::handle_key_event(key(Key::Tab), &mut s, &form);
    structs_page::handle_key_event(key(Key::Tab), &mut s, &form);
    assert_eq!(s.active_input, ActiveInput::Field(0, 2));
    // Leaving the note of the last field adds a field.
    structs_page::handle_key_event(key(Key::Tab), &mut s, &form);
    assert_eq!(s.active_input, ActiveInput::Field(1, 0));
    assert_eq!(s.data.structs[0].fields.len(), 2);
    // Shift+Tab goes back.
    let form2 = Struct { description: "A point".to_string(), name: "Point".to_string(), fields: vec![field("x", "i32", ""), field("", "", "")] };
    structs_page::handle_key_event(key(Key::BackTab), &mut s, &form2);
    assert_eq!(s.active_input, ActiveInput::Field(0, 2));
    // Enter finishes editing: blank fields are dropped.
    let r = structs_page::handle_key_event(key(Key::Enter), &mut s, &form2);
    assert_eq!(r, response(Action::UpdatePreview, false));
    assert_eq!(s.mode, Mode::Display);
    assert_eq!(s.active_input, ActiveInput::Nothing);
    assert_eq!(s.data.structs[0].fields.len(), 1);
    assert_eq!(s.data.structs[0].fields[0].field_type, "i32");
}

#[test]
fn struct_page_navigation_and_leaving() {
    let mut s = AppState::new();
    s.data.add_struct();
    s.data.add_struct();
    s.data.structs[1].name = "Kept".to_string();
    s.data.structs[1].fields = vec![field("", "", ""), field("a", "", "")];
    let form = struct_form(&s);
    assert_eq!(structs_page::handle_key_event(key(Key::Down), &mut s, &form), response(Action::UpdatePreview, false));
    assert_eq!(s.structs_list_state.selected(), Some(1));
    structs_page::handle_key_event(key(Key::Char('k')), &mut s, &form);
    assert_eq!(s.structs_list_state.selected(), Some(0));
    assert_eq!(structs_page::handle_key_event(key(Key::Tab), &mut s, &form), response(Action::Nothing, false));
    assert_eq!(structs_page::handle_key_event(key(Key::Char('x')), &mut s, &form), response(Action::Nothing, false));
    let r = structs_page::handle_key_event(key(Key::Esc), &mut s, &form);
    assert_eq!(r, response(Action::GoToPage(PageKind::Home), false));
    assert_eq!(s.data.structs.len(), 1);
    assert_eq!(s.data.structs[0].name, "Kept");
    assert_eq!(s.data.structs[0].fields.len(), 1);
}

#[test]
fn struct_page_refuses_tab_past_the_structs() {
    let mut s = AppState::new();
    s.mode = Mode::Edit;
    let form = struct_form(&s);
    assert!(!structs_page::can_handle_key(key(Key::Tab), &s, &form));
    assert!(!structs_page::can_handle_key(key(Key::BackTab), &s, &form));
    assert!(structs_page::can_handle_key(key(Key::Enter), &s, &form));
    s.structs_list_state.select(Some(3));
    assert!(!structs_page::can_handle_key(key(Key::Enter), &s, &form));
}

#[test]
fn struct_page_escape_while_editing_toggles() {
    let mut s = AppState::new();
    s.data.add_struct();
    s.mode = Mode::Edit;
    let form = struct_form(&s);
    assert_eq!(structs_page::handle_key_event(key(Key::Esc), &mut s, &form), response(Action::UpdatePreview, false));
    assert_eq!(s.mode, Mode::Display);
    assert_eq!(s.data.structs.len(), 1);
}

#[test]
fn trait_page_creates_and_edits_a_trait() {
    let mut s = AppState::new();
    let empty = trait_form(&s);
    assert_eq!(traits_page::handle_key_event(key(Key::Enter), &mut s, &empty), response(Action::Nothing, false));
    let r = traits_page::handle_key_event(key(Key::Char('n')), &mut s, &empty);
    assert_eq!(r, response(Action::UpdatePreview, false));
    assert_eq!(s.data.traits.len(), 1);
    assert_eq!(s.mode, Mode::Edit);
    assert_eq!(s.traits_list_state.selected(), Some(usize::MAX));
    // Drawing the list brings the selection back to the last row.
    s.traits_list_state.select(Some(0));
    let mut form = trait_form(&s);
    form.name = "Shape".to_string();
    traits_page::handle_key_event(key(Key::Tab), &mut s, &form);
    assert_eq!(s.active_input, ActiveInput::Name);
    assert_eq!(s.data.traits[0].name, "Shape");
    traits_page::handle_key_event(key(Key::Tab), &mut s, &form);
    assert_eq!(s.active_input, ActiveInput::Method(0, 0));
    // Ctrl+B gives the active method an argument; Ctrl+N a new method.
    traits_page::handle_key_event(ctrl('b'), &mut s, &form);
    assert_eq!(s.data.traits[0].methods[0].arguments.len(), 1);
    traits_page::handle_key_event(ctrl('n'), &mut s, &form);
    assert_eq!(s.data.traits[0].methods.len(), 2);
    assert_eq!(traits_page::handle_key_event(key(Key::Char('n')), &mut s, &form), response(Action::Nothing, true));
    // Tab runs through the boxes of a method with one argument: 0, 1, 2, 3.
    let form = Trait {
        description: String::new(),
        name: "Shape".to_string(),
        methods: vec![
            Method { name: "area".to_string(), return_type: "f64".to_string(), arguments: vec![] },
            Method { name: String::new(), return_type: String::new(), arguments: vec![] },
        ],
    };
    traits_page::handle_key_event(key(Key::Tab), &mut s, &form);
    assert_eq!(s.active_input, ActiveInput::Method(0, 1));
    traits_page::handle_key_event(key(Key::Tab), &mut s, &form);
    assert_eq!(s.active_input, ActiveInput::Method(1, 0));
    traits_page::handle_key_event(key(Key::Tab), &mut s, &form);
    traits_page::handle_key_event(key(Key::Tab), &mut s, &form);
    assert_eq!(s.active_input, ActiveInput::Method(1, 1));
    traits_page::handle_key_event(key(Key::BackTab), &mut s, &form);
    assert_eq!(s.active_input, ActiveInput::Method(1, 0));
    traits_page::handle_key_event(key(Key::BackTab), &mut s, &form);
    assert_eq!(s.active_input, ActiveInput::Method(0, 0));
    // Enter finishes editing; the method without name or return type goes.
    traits_page::handle_key_event(key(Key::Enter), &mut s, &form);
    assert_eq!(s.mode, Mode::Display);
    assert_eq!(s.active_input, ActiveInput::Nothing);
    assert_eq!(s.data.traits[0].methods.len(), 1);
    assert_eq!(s.data.traits[0].methods[0].name, "area");
}

#[test]
fn trait_page_leaving_drops_unnamed_traits() {
    let mut s = AppState::new();
    s.data.add_trait();
    s.data.add_trait();
    s.data.traits[0].name = "New trait".to_string();
    s.data.traits[1].methods[0].name = "kept".to_string();
    s.traits_list_state.select(Some(0));
    let form = trait_form(&s);
    traits_page::handle_key_event(key(Key::Down), &mut s, &form);
    assert_eq!(s.traits_list_state.selected(), Some(1));
    traits_page::handle_key_event(key(Key::Down), &mut s, &form);
    assert_eq!(s.traits_list_state.selected(), Some(1));
    traits_page::handle_key_event(key(Key::Up), &mut s, &form);
    assert_eq!(s.traits_list_state.selected(), Some(0));
    let r = traits_page::handle_key_event(key(Key::Esc), &mut s, &form);
    assert_eq!(r, response(Action::GoToPage(PageKind::Home), false));
    // "New Trait" (capital T) stays; "New trait" goes.
    assert_eq!(s.data.traits.len(), 1);
    assert_eq!(s.data.traits[0].name, "New Trait");
    assert_eq!(s.data.traits[0].methods.len(), 1);
}

#[test]
fn trait_page_refuses_down_without_traits() {
    let s = AppState::new();
    let form = trait_form(&s);
    assert!(!traits_page::can_handle_key(key(Key::Down), &s, &form));
    assert!(traits_page::can_handle_key(key(Key::Up), &s, &form));
}

#[test]
fn desired_box_names_method_boxes() {
    let form = Trait {
        description: String::new(),
        name: String::new(),
        methods: vec![Method { name: String::new(), return_type: String::new(), arguments: vec![Default::default(), Default::default()] }],
    };
    assert_eq!(traits_page::desired_box(ActiveInput::Method(0, 0), &form), DesiredBox::Name { method_index: 0 });
    assert_eq!(traits_page::desired_box(ActiveInput::Method(0, 1), &form), DesiredBox::ReturnType { method_index: 0 });
    assert_eq!(
        traits_page::desired_box(ActiveInput::Method(0, 4), &form),
        DesiredBox::Argument { method_index: 0, argument_index: 1, argument_box: DesiredArgumentBox::Name }
    );
    assert_eq!(
        traits_page::desired_box(ActiveInput::Method(0, 3), &form),
        DesiredBox::Argument { method_index: 0, argument_index: 0, argument_box: DesiredArgumentBox::Type }
    );
    assert_eq!(traits_page::desired_box(ActiveInput::Method(0, 6), &form), DesiredBox::Nothing);
    assert_eq!(traits_page::desired_box(ActiveInput::Method(1, 0), &form), DesiredBox::Nothing);
    assert_eq!(traits_page::desired_box(ActiveInput::Name, &form), DesiredBox::Nothing);
}

#[test]
fn commands_page_edits_commands() {
    let mut s = AppState::new();
    commands_page::ensure_command_input(&mut s);
    assert_eq!(s.active_input, ActiveInput::Command(0, 0));
    let boxes = vec![Command { name: "build".to_string(), description: String::new() }];
    assert_eq!(commands_page::handle_key_event(ctrl('n'), &mut s, &boxes), response(Action::UpdatePreview, false));
    assert_eq!(s.data.cli_commands.len(), 2);
    let boxes = vec![
        Command { name: "build".to_string(), description: "compile".to_string() },
        Command { name: String::new(), description: String::new() },
    ];
    commands_page::handle_key_event(key(Key::Tab), &mut s, &boxes);
    assert_eq!(s.active_input, ActiveInput::Command(0, 1));
    commands_page::handle_key_event(key(Key::Tab), &mut s, &boxes);
    assert_eq!(s.active_input, ActiveInput::Command(1, 0));
    commands_page::handle_key_event(key(Key::BackTab), &mut s, &boxes);
    assert_eq!(s.active_input, ActiveInput::Command(0, 1));
    assert_eq!(commands_page::handle_key_event(key(Key::Char('x')), &mut s, &boxes), response(Action::Nothing, true));
    assert_eq!(commands_page::handle_key_event(key(Key::Enter), &mut s, &boxes), response(Action::Nothing, false));
    let r = commands_page::handle_key_event(key(Key::Esc), &mut s, &boxes);
    assert_eq!(r, response(Action::GoToPage(PageKind::Home), false));
    assert_eq!(s.data.cli_commands.len(), 1);
    assert_eq!(s.data.cli_commands[0].description, "compile");
    assert_eq!(s.active_input, ActiveInput::Nothing);
    assert!(!commands_page::can_handle_key(key(Key::Tab), &s));
}

#[test]
fn app_data_default_is_empty() {
    let d = AppData::default();
    assert!(d.structs.is_empty() && d.enums.is_empty() && d.traits.is_empty() && d.cli_commands.is_empty());
    assert!(d.workflow.lists.is_empty());
}

#[test]
fn leaving_struct_page_twice_changes_nothing_more() {
    let mut s = AppState::new();
    s.data.add_struct();
    s.data.add_struct();
    s.data.structs[0].name = "A".to_string();
    s.data.structs[0].fields = vec![field("", "", ""), field("x", "", ""), field("", "", "n")];
    let form = struct_form(&s);
    structs_page::handle_key_event(key(Key::Esc), &mut s, &form);
    assert_eq!(s.data.structs.len(), 1);
    assert_eq!(s.data.structs[0].fields.len(), 2);
    structs_page::handle_key_event(key(Key::Esc), &mut s, &form);
    assert_eq!(s.data.structs.len(), 1);
    assert_eq!(s.data.structs[0].fields.len(), 2);
    assert_eq!(s.data.structs[0].fields[1].note, "n");
}

#[test]
fn struct_editor_reads_back_what_it_wrote() {
    let mut s = AppState::new();
    s.data.add_struct();
    s.mode = Mode::Edit;
    s.active_input = ActiveInput::Description;
    let written = Struct { description: "d".to_string(), name: "S".to_string(), fields: vec![field("a", "u8", ""), field("", "", "")] };
    structs_page::handle_key_event(key(Key::Tab), &mut s, &written);
    let read = struct_form(&s);
    assert_eq!(read.description, "d");
    assert_eq!(read.name, "S");
    assert_eq!(read.fields.len(), 2);
    assert_eq!(read.fields[0].field_type, "u8");
    assert_eq!(read.fields[1].name, "");
}
