//! The description page: a multi-line editor for the project's description.
use vstd::prelude::*;
use crate::data_types::AppDataV;
use crate::pages::structs_page::respond;
use crate::state::{Action, AppState, AppStateV, Key, KeyPress, KeyResponse, PageKind};
use crate::text::{join_lines, join_spec, lemma_join_split, split_spec, strings_view};

verus! {

/// How the description page answers a key, given the editor's lines: Esc
/// goes home without saving, Ctrl+S saves the lines joined by line breaks
/// and goes home, and every other key goes to the editor.
pub open spec fn description_key_step(s: AppStateV, key: KeyPress, lines: Seq<Seq<char>>) -> (
    AppStateV,
    KeyResponse,
) {
    match key.code {
        Key::Esc => (s, respond(Action::GoToPage(PageKind::Home), false)),
        Key::Char('s') => if key.ctrl {
            (
                AppStateV { data: AppDataV { description: join_spec(lines), ..s.data }, ..s },
                respond(Action::GoToPage(PageKind::Home), false),
            )
        } else {
            (s, respond(Action::Nothing, true))
        },
        _ => (s, respond(Action::Nothing, true)),
    }
}

/// Answers a key on the description page; `lines` are the editor's lines.
pub fn handle_key_event(key: KeyPress, state: &mut AppState, lines: &Vec<String>) -> (r:
    KeyResponse)
    ensures
        (final(state)@, r) == description_key_step(old(state)@, key, strings_view(lines@)),
{
    match key.code {
        Key::Esc => KeyResponse { action: Action::GoToPage(PageKind::Home), forward_to_input: false },
        Key::Char('s') => {
            if key.ctrl {
                state.data.description = join_lines(lines);
                return KeyResponse {
                    action: Action::GoToPage(PageKind::Home),
                    forward_to_input: false,
                };
            }
            KeyResponse { action: Action::Nothing, forward_to_input: true }
        },
        _ => KeyResponse { action: Action::Nothing, forward_to_input: true },
    }
}

/// Saving an editor that still holds the lines it was loaded with leaves
/// the description as it was.
pub proof fn lemma_save_unchanged_description(s: AppStateV)
    ensures
        description_key_step(
            s,
            KeyPress { code: Key::Char('s'), ctrl: true },
            split_spec(s.data.description),
        ).0 == s,
{
    lemma_join_split(s.data.description);
    assert(description_key_step(
        s,
        KeyPress { code: Key::Char('s'), ctrl: true },
        split_spec(s.data.description),
    ).0 =~= s);
}

} // verus!
