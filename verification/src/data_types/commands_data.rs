//! The command-line commands that the planned program offers.
use vstd::prelude::*;
use crate::text::{lines_view, push_raw, LineV, TextLine};

verus! {

/// A planned command-line command: its name and its description or usage.
pub struct Command {
    pub name: String,
    pub description: String,
}

/// A command as a mathematical value.
#[verifier::ext_equal]
pub struct CommandV {
    pub name: Seq<char>,
    pub description: Seq<char>,
}

impl View for Command {
    type V = CommandV;

    open spec fn view(&self) -> CommandV {
        CommandV { name: self.name@, description: self.description@ }
    }
}

pub open spec fn commands_view(commands: Seq<Command>) -> Seq<CommandV> {
    commands.map_values(|c: Command| c@)
}

/// The command with an empty name and an empty description.
pub open spec fn empty_command() -> CommandV {
    CommandV { name: seq![], description: seq![] }
}

/// The preview of a command: its name, its description when there is one,
/// and a closing line.
pub open spec fn command_preview(c: CommandV) -> Seq<LineV> {
    seq![LineV::Raw(c.name)] + (if c.description.len() == 0 {
        Seq::<LineV>::empty()
    } else {
        seq![LineV::Raw(c.description)]
    }) + seq![LineV::Raw("\n"@)]
}

impl Default for Command {
    fn default() -> (r: Self)
        ensures
            r@ == empty_command(),
    {
        Command { name: String::new(), description: String::new() }
    }
}

impl Command {
    /// The command as preview lines.
    pub fn to_list_item(&self) -> (r: Vec<TextLine>)
        ensures
            lines_view(r@) == command_preview(self@),
    {
        let mut lines: Vec<TextLine> = Vec::new();
        lines.push(TextLine::Raw(self.name.clone()));
        if !self.description.as_str().is_empty() {
            lines.push(TextLine::Raw(self.description.clone()));
        }
        push_raw(&mut lines, "\n");
        assert(lines_view(lines@) =~= command_preview(self@));
        lines
    }
}

} // verus!
