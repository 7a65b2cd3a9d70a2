//! Lookup of the command that the command line names.
use vstd::prelude::*;

verus! {

/// A runnable entry of a command table.
#[derive(Clone, Debug)]
pub struct Command {
    pub name: String,
    pub description: String,
}

/// The two tables of commands: tutorials to run, and system information to show.
#[derive(Clone, Copy, Debug, PartialEq, Eq, Structural)]
pub enum CommandGroup {
    Run,
    Show,
}

/// The command line named no known command.
#[derive(Clone, Copy, Debug, PartialEq, Eq, Structural)]
pub enum CommandError {
    /// The group is neither `run` nor `show`.
    UnknownSubcommand,
    /// The group's table has no command of that name.
    UnknownExecutable,
}

/// The command to execute: its group and its position in that group's table.
#[derive(Clone, Copy, Debug, PartialEq, Eq, Structural)]
pub struct CommandChoice {
    pub group: CommandGroup,
    pub index: usize,
}

/// `r` is the position of the first command named `name`, or `None` when there is none.
pub open spec fn is_first_command(commands: Seq<Command>, name: Seq<char>, r: Option<usize>) -> bool {
    match r {
        Some(i) => {
            &&& i < commands.len()
            &&& commands[i as int].name@ == name
            &&& forall|j: int| 0 <= j < i ==> (#[trigger] commands[j]).name@ != name
        },
        None => forall|j: int| 0 <= j < commands.len() ==> (#[trigger] commands[j]).name@ != name,
    }
}

/// The group that a top-level subcommand names.
pub open spec fn group_spec(name: Seq<char>) -> Option<CommandGroup> {
    if name == "run"@ {
        Some(CommandGroup::Run)
    } else if name == "show"@ {
        Some(CommandGroup::Show)
    } else {
        None
    }
}

/// Position of the first command of the table named `name`.
pub fn find_command(commands: &Vec<Command>, name: &String) -> (r: Option<usize>)
    ensures
        is_first_command(commands@, name@, r),
{
    let mut i: usize = 0;
    while i < commands.len()
        invariant
            0 <= i <= commands.len(),
            forall|j: int| 0 <= j < i ==> (#[trigger] commands@[j]).name@ != name@,
        decreases commands.len() - i,
    {
        if commands[i].name == *name {
            return Some(i);
        }
        i = i + 1;
    }
    None
}

/// The group that a top-level subcommand names, if any.
pub fn command_group(name: &String) -> (r: Option<CommandGroup>)
    ensures
        r == group_spec(name@),
{
    proof {
        reveal_strlit("run");
        reveal_strlit("show");
    }
    if *name == "run".to_owned() {
        Some(CommandGroup::Run)
    } else if *name == "show".to_owned() {
        Some(CommandGroup::Show)
    } else {
        None
    }
}

/// Resolves `group` and `command` against the tutorial and utility tables.
pub fn resolve_command(
    group: &String,
    command: &String,
    tutorials: &Vec<Command>,
    utilities: &Vec<Command>,
) -> (r: Result<CommandChoice, CommandError>)
    ensures
        group_spec(group@) is None ==> r == Err::<CommandChoice, CommandError>(
            CommandError::UnknownSubcommand,
        ),
        group_spec(group@) matches Some(g) ==> {
            let table = if g == CommandGroup::Run {
                tutorials@
            } else {
                utilities@
            };
            match r {
                Ok(choice) => choice.group == g && is_first_command(table, command@, Some(choice.index)),
                Err(e) => e == CommandError::UnknownExecutable && is_first_command(table, command@, None),
            }
        },
{
    let g = match command_group(group) {
        Some(g) => g,
        None => {
            return Err(CommandError::UnknownSubcommand);
        },
    };
    let found = match g {
        CommandGroup::Run => find_command(tutorials, command),
        CommandGroup::Show => find_command(utilities, command),
    };
    match found {
        Some(index) => Ok(CommandChoice { group: g, index }),
        None => Err(CommandError::UnknownExecutable),
    }
}

} // verus!
