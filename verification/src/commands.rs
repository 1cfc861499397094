//! The command-line arguments the tool understands.
use vstd::prelude::*;
use crate::text::str_eq;

verus! {

/// A command given on the command line.
#[derive(Debug, PartialEq, Eq, Structural)]
pub enum Command {
    Help,
    Reset,
    Structs,
    Enums,
    Traits,
    Workflow,
}

/// The command that one argument asks for, if any.
pub open spec fn argument_command(arg: Seq<char>) -> Option<Command> {
    if arg == "--help"@ || arg == "-h"@ {
        Some(Command::Help)
    } else if arg == "--reset"@ {
        Some(Command::Reset)
    } else if arg == "structs"@ {
        Some(Command::Structs)
    } else if arg == "enums"@ {
        Some(Command::Enums)
    } else if arg == "traits"@ {
        Some(Command::Traits)
    } else if arg == "check"@ {
        Some(Command::Workflow)
    } else {
        None
    }
}

/// The commands that the arguments ask for, in order; arguments that ask
/// for none are skipped.
pub open spec fn arguments_commands(args: Seq<Seq<char>>) -> Seq<Command>
    decreases args.len(),
{
    if args.len() == 0 {
        seq![]
    } else {
        let rest = arguments_commands(args.drop_last());
        match argument_command(args.last()) {
            Some(c) => rest.push(c),
            None => rest,
        }
    }
}

/// The command that `arg` asks for, if any.
pub fn parse_argument(arg: &str) -> (r: Option<Command>)
    ensures
        r == argument_command(arg@),
{
    if str_eq(arg, "--help") || str_eq(arg, "-h") {
        Some(Command::Help)
    } else if str_eq(arg, "--reset") {
        Some(Command::Reset)
    } else if str_eq(arg, "structs") {
        Some(Command::Structs)
    } else if str_eq(arg, "enums") {
        Some(Command::Enums)
    } else if str_eq(arg, "traits") {
        Some(Command::Traits)
    } else if str_eq(arg, "check") {
        Some(Command::Workflow)
    } else {
        None
    }
}

/// The commands that the arguments ask for, in order (the program's own
/// name, if it is among them, asks for none).
pub fn parse_arguments(args: &Vec<String>) -> (r: Vec<Command>)
    ensures
        r@ == arguments_commands(args@.map_values(|a: String| a@)),
{
    let mut out: Vec<Command> = Vec::new();
    let mut i: usize = 0;
    while i < args.len()
        invariant
            i <= args.len(),
            out@ == arguments_commands(args@.take(i as int).map_values(|a: String| a@)),
        decreases args.len() - i,
    {
        proof {
            let t = args@.take(i + 1).map_values(|a: String| a@);
            assert(t.drop_last() =~= args@.take(i as int).map_values(|a: String| a@));
            assert(t.last() == args@[i as int]@);
        }
        match parse_argument(args[i].as_str()) {
            Some(c) => out.push(c),
            None => {},
        }
        i = i + 1;
    }
    proof {
        assert(args@.take(args.len() as int) =~= args@);
    }
    out
}

} // verus!
