//! The keys of the project list and what each one does.

use vstd::prelude::*;

verus! {

/// A key pressed on the project list.
#[derive(Clone, Copy, Debug, PartialEq, Eq, Structural)]
pub enum KeyPress {
    Esc,
    Char(char),
}

/// What a key on the project list does.
#[derive(Clone, Copy, Debug, PartialEq, Eq, Structural)]
pub enum ListCommand {
    /// Leave the program.
    Quit,
    /// Show the help dialog.
    Help,
    /// Show the files of the selected project.
    Preview,
    /// Move the cursor up one row.
    MoveUp,
    /// Move the cursor down one row.
    MoveDown,
    /// Read the projects again.
    Refresh,
    /// Delete the selected project.
    Delete,
    /// Open the dialog for a new project.
    NewProject,
}

pub open spec fn spec_command(key: KeyPress) -> Option<ListCommand> {
    match key {
        KeyPress::Esc => Some(ListCommand::Quit),
        KeyPress::Char(c) => if c == 'h' {
            Some(ListCommand::Help)
        } else if c == 'p' {
            Some(ListCommand::Preview)
        } else if c == 'k' {
            Some(ListCommand::MoveUp)
        } else if c == 'j' {
            Some(ListCommand::MoveDown)
        } else if c == 'r' {
            Some(ListCommand::Refresh)
        } else if c == 'D' {
            Some(ListCommand::Delete)
        } else if c == 'n' {
            Some(ListCommand::NewProject)
        } else {
            None
        },
    }
}

/// The command bound to a key, if any.
pub fn command_for_key(key: KeyPress) -> (r: Option<ListCommand>)
    ensures
        r == spec_command(key),
{
    match key {
        KeyPress::Esc => Some(ListCommand::Quit),
        KeyPress::Char(c) => if c == 'h' {
            Some(ListCommand::Help)
        } else if c == 'p' {
            Some(ListCommand::Preview)
        } else if c == 'k' {
            Some(ListCommand::MoveUp)
        } else if c == 'j' {
            Some(ListCommand::MoveDown)
        } else if c == 'r' {
            Some(ListCommand::Refresh)
        } else if c == 'D' {
            Some(ListCommand::Delete)
        } else if c == 'n' {
            Some(ListCommand::NewProject)
        } else {
            None
        },
    }
}

pub open spec fn spec_bound_keys() -> Seq<KeyPress> {
    seq![
        KeyPress::Esc,
        KeyPress::Char('h'),
        KeyPress::Char('p'),
        KeyPress::Char('k'),
        KeyPress::Char('j'),
        KeyPress::Char('r'),
        KeyPress::Char('D'),
        KeyPress::Char('n'),
    ]
}

/// Every key that has a command, each once, in the order they are set up.
pub fn bound_keys() -> (keys: Vec<KeyPress>)
    ensures
        keys@ == spec_bound_keys(),
{
    let mut keys: Vec<KeyPress> = Vec::new();
    keys.push(KeyPress::Esc);
    keys.push(KeyPress::Char('h'));
    keys.push(KeyPress::Char('p'));
    keys.push(KeyPress::Char('k'));
    keys.push(KeyPress::Char('j'));
    keys.push(KeyPress::Char('r'));
    keys.push(KeyPress::Char('D'));
    keys.push(KeyPress::Char('n'));
    assert(keys@ =~= spec_bound_keys());
    keys
}

/// The bound keys are exactly the keys with a command, no key is set up
/// twice, and no two keys share a command.
pub proof fn lemma_keymap_is_complete(key: KeyPress)
    ensures
        spec_command(key) is Some <==> spec_bound_keys().contains(key),
        spec_bound_keys().no_duplicates(),
        forall|i: int, j: int|
            0 <= i < spec_bound_keys().len() && 0 <= j < spec_bound_keys().len() && i != j
                ==> spec_command(spec_bound_keys()[i]) != spec_command(spec_bound_keys()[j]),
{
    let keys = spec_bound_keys();
    if spec_command(key) is Some {
        match key {
            KeyPress::Esc => assert(keys[0] == key),
            KeyPress::Char(c) => {
                if c == 'h' { assert(keys[1] == key); }
                else if c == 'p' { assert(keys[2] == key); }
                else if c == 'k' { assert(keys[3] == key); }
                else if c == 'j' { assert(keys[4] == key); }
                else if c == 'r' { assert(keys[5] == key); }
                else if c == 'D' { assert(keys[6] == key); }
                else { assert(keys[7] == key); }
            },
        }
    }
}

} // verus!
