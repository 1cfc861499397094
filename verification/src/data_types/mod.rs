//! The blueprint's data: what the user plans, item by item.
pub mod commands_data;
pub mod enum_data;
pub mod struct_data;

pub use commands_data::{Command, CommandV};
pub use enum_data::{Enum, EnumV, Variant, VariantV};
pub use struct_data::{Field, FieldV, Struct, StructV};
pub mod traits_data;

pub use traits_data::{Argument, ArgumentV, Method, MethodV, Trait, TraitV};

use vstd::prelude::*;
use commands_data::{commands_view, empty_command, CommandV as CommandView};
use enum_data::{enums_view, new_enum};
use struct_data::{new_struct, structs_view};
use traits_data::{new_trait, traits_view};

verus! {

/// Everything the user plans for the project.
pub struct AppData {
    pub description: String,
    pub structs: Vec<Struct>,
    pub enums: Vec<Enum>,
    pub traits: Vec<Trait>,
    pub cli_commands: Vec<Command>,
    pub workflow: Workflow,
}

/// The planned work, as lists of tasks.
pub struct Workflow {
    pub lists: Vec<List>,
}

/// A titled list of tasks.
pub struct List {
    pub header: String,
    pub tasks: Vec<Task>,
}

/// A task, done or not, with its subtasks.
pub struct Task {
    pub title: String,
    pub completed: bool,
    pub subtasks: Vec<Task>,
}

/// The blueprint's data as a mathematical value.
#[verifier::ext_equal]
pub struct AppDataV {
    pub description: Seq<char>,
    pub structs: Seq<StructV>,
    pub enums: Seq<EnumV>,
    pub traits: Seq<TraitV>,
    pub cli_commands: Seq<CommandView>,
    pub workflow: Workflow,
}

impl View for AppData {
    type V = AppDataV;

    open spec fn view(&self) -> AppDataV {
        AppDataV {
            description: self.description@,
            structs: structs_view(self.structs@),
            enums: enums_view(self.enums@),
            traits: traits_view(self.traits@),
            cli_commands: commands_view(self.cli_commands@),
            workflow: self.workflow,
        }
    }
}

/// The empty blueprint.
pub open spec fn empty_data(workflow: Workflow) -> AppDataV {
    AppDataV {
        description: seq![],
        structs: seq![],
        enums: seq![],
        traits: seq![],
        cli_commands: seq![],
        workflow,
    }
}

impl Default for Workflow {
    fn default() -> (r: Self)
        ensures
            r.lists@.len() == 0,
    {
        Workflow { lists: Vec::new() }
    }
}

impl Default for AppData {
    fn default() -> (r: Self)
        ensures
            r@ == empty_data(r.workflow),
            r.workflow.lists@.len() == 0,
    {
        AppData {
            description: String::new(),
            structs: Vec::new(),
            enums: Vec::new(),
            traits: Vec::new(),
            cli_commands: Vec::new(),
            workflow: Workflow::default(),
        }
    }
}

impl AppData {
    /// Appends a new struct (`Struct::new`).
    pub fn add_struct(&mut self)
        ensures
            final(self)@ == (AppDataV { structs: old(self)@.structs.push(new_struct()), ..old(self)@ }),
    {
        let ghost before = self.structs@;
        self.structs.push(Struct::new());
        assert(structs_view(self.structs@) =~= structs_view(before).push(new_struct()));
    }

    /// Appends a new enum (`Enum::new`).
    pub fn add_enum(&mut self)
        ensures
            final(self)@ == (AppDataV { enums: old(self)@.enums.push(new_enum()), ..old(self)@ }),
    {
        let ghost before = self.enums@;
        self.enums.push(Enum::new());
        assert(enums_view(self.enums@) =~= enums_view(before).push(new_enum()));
    }

    /// Appends a new trait (`Trait::new`).
    pub fn add_trait(&mut self)
        ensures
            final(self)@ == (AppDataV { traits: old(self)@.traits.push(new_trait()), ..old(self)@ }),
    {
        let ghost before = self.traits@;
        self.traits.push(Trait::new());
        assert(traits_view(self.traits@) =~= traits_view(before).push(new_trait()));
    }

    /// Appends a command with an empty name and an empty description.
    pub fn add_command(&mut self)
        ensures
            final(self)@ == (AppDataV {
                cli_commands: old(self)@.cli_commands.push(empty_command()),
                ..old(self)@
            }),
    {
        let ghost before = self.cli_commands@;
        self.cli_commands.push(Command::default());
        assert(commands_view(self.cli_commands@) =~= commands_view(before).push(empty_command()));
    }
}

} // verus!
