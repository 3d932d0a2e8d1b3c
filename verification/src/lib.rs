//! Decisions and data handling of a small terminal project launcher: it keeps
//! a list of project directories, shows them in a selectable list and opens the
//! chosen one in tmux or VS Code.

pub mod launch;
pub mod listing;
pub mod project_view;
pub mod projects;
pub mod dialogs;
pub mod keymap;
