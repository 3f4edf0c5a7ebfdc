//! The todo tool's command surface: the parsed argument shapes for getting,
//! adding, completing and deleting todos, and the output format choice.

use vstd::prelude::*;

verus! {

/// The todo tool's arguments after parsing: one command and an optional
/// output format, text by default.
pub struct TodoCli {
    pub command: Commands,
    pub output: Option<OutputFormat>,
}

/// The command asked for.
pub enum Commands {
    Get { get_command: GetCommand },
    Add(AddCommandArgs),
    Complete(CompleteCommandArgs),
    Delete(DeleteCommandArgs),
}

/// Which todos to get: all of them, one by id, or those matching a name.
#[derive(Debug)]
pub enum GetCommand {
    All,
    Id(GetIdArgs),
    Name(GetNameArgs),
}

#[derive(Debug)]
pub struct GetIdArgs {
    pub todo_id: String,
}

#[derive(Debug)]
pub struct GetNameArgs {
    pub search_string: String,
}

/// Name and description of a todo to add.
#[derive(Debug)]
pub struct AddCommandArgs {
    pub name: String,
    pub description: String,
}

/// The id of a todo to mark complete.
pub struct CompleteCommandArgs {
    pub id: String,
}

/// The id of a todo to delete.
pub struct DeleteCommandArgs {
    pub id: String,
}

/// How results are printed.
#[derive(Clone, Debug)]
pub enum OutputFormat {
    Text,
    Json,
}

} // verus!
