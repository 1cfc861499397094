//! The commands page: an editor with a (name, description) pair of text
//! inputs for each planned command-line command.
use vstd::prelude::*;
use crate::data_types::commands_data::{commands_view, empty_command, Command, CommandV};
use crate::data_types::AppDataV;
use crate::pages::structs_page::respond;
use crate::state::{Action, ActiveInput, AppState, AppStateV, Key, KeyPress, KeyResponse, PageKind};

verus! {

/// The input that Tab moves to: from a command's name to its description,
/// and from a description to the next command's name; it stays on the
/// last command's description.
pub open spec fn command_next_input(a: ActiveInput, count: int) -> ActiveInput {
    match a {
        ActiveInput::Command(c, sub) => if sub == 0 {
            ActiveInput::Command(c, 1)
        } else if c + 1 < count {
            ActiveInput::Command((c + 1) as usize, 0)
        } else {
            ActiveInput::Command(c, sub)
        },
        _ => a,
    }
}

/// The input that Shift+Tab moves to; it stays on the first command's name.
pub open spec fn command_previous_input(a: ActiveInput) -> ActiveInput {
    match a {
        ActiveInput::Command(c, sub) => if sub == 1 {
            ActiveInput::Command(c, 0)
        } else if c == 0 {
            ActiveInput::Command(c, sub)
        } else {
            ActiveInput::Command((c - 1) as usize, 1)
        },
        _ => a,
    }
}

/// The commands that have a name, in order.
pub open spec fn named_commands(commands: Seq<CommandV>) -> Seq<CommandV>
    decreases commands.len(),
{
    if commands.len() == 0 {
        seq![]
    } else {
        let rest = named_commands(commands.drop_last());
        if commands.last().name.len() > 0 {
            rest.push(commands.last())
        } else {
            rest
        }
    }
}

/// The state with the commands replaced by `commands`.
pub open spec fn with_commands(s: AppStateV, commands: Seq<CommandV>) -> AppStateV {
    AppStateV { data: AppDataV { cli_commands: commands, ..s.data }, ..s }
}

/// How the commands page answers a key, given the editor's texts.
pub open spec fn command_key_step(s: AppStateV, key: KeyPress, boxes: Seq<CommandV>) -> (
    AppStateV,
    KeyResponse,
) {
    match key.code {
        Key::Esc => (
            AppStateV {
                active_input: ActiveInput::Nothing,
                ..with_commands(s, named_commands(boxes))
            },
            respond(Action::GoToPage(PageKind::Home), false),
        ),
        Key::Tab => (
            AppStateV {
                active_input: command_next_input(s.active_input, boxes.len() as int),
                ..with_commands(s, boxes)
            },
            respond(Action::Nothing, false),
        ),
        Key::BackTab => (
            AppStateV {
                active_input: command_previous_input(s.active_input),
                ..with_commands(s, boxes)
            },
            respond(Action::Nothing, false),
        ),
        Key::Enter => (s, respond(Action::Nothing, false)),
        Key::Char('n') => if key.ctrl {
            (with_commands(s, boxes.push(empty_command())), respond(Action::UpdatePreview, false))
        } else {
            (s, respond(Action::Nothing, true))
        },
        _ => (s, respond(Action::Nothing, true)),
    }
}

/// Whether the commands page answers the key without failing: Tab and
/// Shift+Tab need a command input to be active, and Tab from a description
/// needs a command index below the largest `usize`.
pub open spec fn command_key_allowed(s: AppStateV, key: KeyPress) -> bool {
    match key.code {
        Key::Tab => s.active_input matches ActiveInput::Command(c, sub) && (sub == 0 || c
            < usize::MAX),
        Key::BackTab => s.active_input is Command,
        _ => true,
    }
}

/// Makes the first command's name the active input unless a command input
/// is active already.
pub fn ensure_command_input(state: &mut AppState)
    ensures
        final(state)@ == (AppStateV {
            active_input: if old(state)@.active_input is Command {
                old(state)@.active_input
            } else {
                ActiveInput::Command(0, 0)
            },
            ..old(state)@
        }),
{
    if !matches!(state.active_input, ActiveInput::Command(_, _)) {
        state.set_active_input(ActiveInput::Command(0, 0));
    }
}

/// Copies of the commands.
fn copy_commands(commands: &Vec<Command>, only_named: bool) -> (r: Vec<Command>)
    ensures
        commands_view(r@) == if only_named {
            named_commands(commands_view(commands@))
        } else {
            commands_view(commands@)
        },
{
    let mut out: Vec<Command> = Vec::new();
    let mut i: usize = 0;
    while i < commands.len()
        invariant
            i <= commands.len(),
            commands_view(out@) == if only_named {
                named_commands(commands_view(commands@.take(i as int)))
            } else {
                commands_view(commands@.take(i as int))
            },
        decreases commands.len() - i,
    {
        let c = &commands[i];
        proof {
            let t = commands_view(commands@.take(i + 1));
            assert(t.drop_last() =~= commands_view(commands@.take(i as int)));
            assert(t.last() == c@);
        }
        if !only_named || !c.name.as_str().is_empty() {
            let ghost before = out@;
            out.push(Command { name: c.name.clone(), description: c.description.clone() });
            assert(commands_view(out@) =~= commands_view(before).push(c@));
        }
        i = i + 1;
    }
    assert(commands@.take(commands.len() as int) =~= commands@);
    out
}

/// Writes the editor's texts to the commands.
pub fn update_commands(state: &mut AppState, boxes: &Vec<Command>)
    ensures
        final(state)@ == with_commands(old(state)@, commands_view(boxes@)),
{
    state.data.cli_commands = copy_commands(boxes, false);
}

/// Tab's move.
fn next_active_input(state: &AppState) -> (r: ActiveInput)
    requires
        state@.active_input matches ActiveInput::Command(c, sub) && (sub == 0 || c < usize::MAX),
    ensures
        r == command_next_input(state@.active_input, state@.data.cli_commands.len() as int),
{
    match state.active_input {
        ActiveInput::Command(command_index, sub_index) => {
            if sub_index == 0 {
                ActiveInput::Command(command_index, 1)
            } else {
                if command_index + 1 < state.data.cli_commands.len() {
                    ActiveInput::Command(command_index + 1, 0)
                } else {
                    ActiveInput::Command(command_index, sub_index)
                }
            }
        },
        _ => state.active_input,
    }
}

/// Shift+Tab's move.
fn previous_active_input(state: &AppState) -> (r: ActiveInput)
    requires
        state@.active_input is Command,
    ensures
        r == command_previous_input(state@.active_input),
{
    match state.active_input {
        ActiveInput::Command(command_index, sub_index) => {
            if sub_index == 1 {
                ActiveInput::Command(command_index, 0)
            } else {
                if command_index == 0 {
                    ActiveInput::Command(command_index, sub_index)
                } else {
                    ActiveInput::Command(command_index - 1, 1)
                }
            }
        },
        _ => state.active_input,
    }
}

/// Whether `handle_key_event` answers the key without failing.
pub fn can_handle_key(key: KeyPress, state: &AppState) -> (r: bool)
    ensures
        r == command_key_allowed(state@, key),
{
    match key.code {
        Key::Tab => match state.active_input {
            ActiveInput::Command(c, sub) => sub == 0 || c < usize::MAX,
            _ => false,
        },
        Key::BackTab => matches!(state.active_input, ActiveInput::Command(_, _)),
        _ => true,
    }
}

/// Answers a key on the commands page. `boxes` holds the first line of the
/// name and of the description input of each command.
pub fn handle_key_event(key: KeyPress, state: &mut AppState, boxes: &Vec<Command>) -> (r:
    KeyResponse)
    requires
        command_key_allowed(old(state)@, key),
    ensures
        (final(state)@, r) == command_key_step(old(state)@, key, commands_view(boxes@)),
{
    match key.code {
        Key::Esc => {
            state.data.cli_commands = copy_commands(boxes, true);
            state.set_active_input(ActiveInput::Nothing);
            KeyResponse { action: Action::GoToPage(PageKind::Home), forward_to_input: false }
        },
        Key::Tab => {
            update_commands(state, boxes);
            state.active_input = next_active_input(state);
            KeyResponse { action: Action::Nothing, forward_to_input: false }
        },
        Key::BackTab => {
            update_commands(state, boxes);
            state.active_input = previous_active_input(state);
            KeyResponse { action: Action::Nothing, forward_to_input: false }
        },
        Key::Enter => KeyResponse { action: Action::Nothing, forward_to_input: false },
        Key::Char('n') => {
            if key.ctrl {
                update_commands(state, boxes);
                state.data.add_command();
                KeyResponse { action: Action::UpdatePreview, forward_to_input: false }
            } else {
                KeyResponse { action: Action::Nothing, forward_to_input: true }
            }
        },
        _ => KeyResponse { action: Action::Nothing, forward_to_input: true },
    }
}

/// Shift+Tab undoes Tab on every command input but the last command's
/// description: moving forward and then back returns to the same input.
pub proof fn lemma_command_previous_undoes_next(c: usize, sub: usize, count: int)
    requires
        sub == 0 || sub == 1,
        sub == 1 ==> c + 1 < count,
        count <= usize::MAX,
    ensures
        command_previous_input(command_next_input(ActiveInput::Command(c, sub), count))
            == ActiveInput::Command(c, sub),
{
}

/// Leaving the commands page keeps, in order, exactly the edited commands
/// that have a name, each with its description (empty or not); no input
/// stays active, and it goes back to the home page.
pub proof fn lemma_leaving_commands_keeps_named_commands(
    s: AppStateV,
    key: KeyPress,
    boxes: Seq<CommandV>,
)
    requires
        key.code == Key::Esc,
    ensures
        command_key_step(s, key, boxes).0.data.cli_commands == boxes.filter_map(
            |c: CommandV|
                if c.name.len() > 0 {
                    Some(c)
                } else {
                    None
                },
        ),
        command_key_step(s, key, boxes).0.active_input == ActiveInput::Nothing,
        command_key_step(s, key, boxes).1 == respond(Action::GoToPage(PageKind::Home), false),
    decreases boxes.len(),
{
    if boxes.len() > 0 {
        lemma_leaving_commands_keeps_named_commands(s, key, boxes.drop_last());
        let f = |c: CommandV|
            if c.name.len() > 0 {
                Some(c)
            } else {
                None
            };
        let r = boxes.drop_last().filter_map(f);
        if boxes.last().name.len() > 0 {
            assert(boxes.filter_map(f) == r + seq![boxes.last()]);
            assert(named_commands(boxes) =~= r + seq![boxes.last()]);
        } else {
            assert(boxes.filter_map(f) == r);
        }
    }
}

/// Tab and Shift+Tab write every edited command back, named or not, in
/// order; Ctrl+N does too and appends a command with an empty name and
/// description.
pub proof fn lemma_commands_write_back(s: AppStateV, key: KeyPress, boxes: Seq<CommandV>)
    ensures
        key.code == Key::Tab || key.code == Key::BackTab ==> command_key_step(
            s,
            key,
            boxes,
        ).0.data.cli_commands == boxes,
        key.code == Key::Char('n') && key.ctrl ==> command_key_step(s, key, boxes).0.data.cli_commands
            == boxes.push(CommandV { name: seq![], description: seq![] }),
{
}

} // verus!
