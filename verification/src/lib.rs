//! The terminal tab of an editor workspace: where a new terminal starts, what a
//! terminal's events do to its tab, and what the tab tells its host.

pub mod connected_view;
pub mod error_view;
pub mod event;
pub mod project;
pub mod terminal_view;
pub mod working_directory;

pub use connected_view::{ConnectedState, ConnectedView, Terminal};
pub use error_view::{ErrorView, TerminalError};
pub use event::{
    init, Action, ClipboardItem, Event, OpenRequest, Reaction, ScrollTerminal, TerminalCommand,
    ViewKind,
};
pub use terminal_view::{
    ContentState, EntryIds, ProjectPath, Rendering, TerminalContent, TerminalView, TerminalViewState,
};
pub use project::{Entry, Workspace, WorkspaceModel, Worktree, WorktreeModel};
pub use working_directory::{
    current_project_directory, first_project_directory, get_path_from_wt, get_working_directory,
    is_dollar_safe, policy_in_force, resolve, with_home, FixedProbe, PolicyModel, ProbeModel,
    WorkingDirectory,
};
