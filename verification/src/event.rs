//! What a terminal tells its view, what a view tells its host, and what a view
//! asks of its terminal.

use vstd::prelude::*;

verus! {

/// The closed set of events that a terminal publishes and a view passes on.
#[derive(Clone, Copy, Debug, PartialEq, Eq, Structural)]
pub enum Event {
    TitleChanged,
    CloseTerminal,
    Activate,
    Wakeup,
    Bell,
}

/// What a view does in answer to its terminal: draw itself again, or hand an
/// event to those who observe the view.
#[derive(Clone, Copy, Debug, PartialEq, Eq, Structural)]
pub enum Reaction {
    Notify,
    Emit(Event),
}

/// Which of the two views holds a tab's content.
#[derive(Clone, Copy, Debug, PartialEq, Eq, Structural)]
pub enum ViewKind {
    Connected,
    Error,
}

/// Scroll by this many lines, sent from the drawn element to the view.
#[derive(Clone, Copy, Debug, PartialEq, Eq, Structural)]
pub struct ScrollTerminal(pub i32);

/// The actions that a terminal answers.
#[derive(Clone, Copy, Debug, PartialEq, Eq, Structural)]
pub enum Action {
    Deploy,
    Up,
    Down,
    CtrlC,
    Escape,
    Enter,
    Clear,
    Copy,
    Paste,
    DeployModal,
}

/// A request to the terminal behind a connected view.
#[derive(Clone, Debug)]
pub enum TerminalCommand {
    Clear,
    Paste(String),
    Keystroke(String),
}

/// Text on its way to the clipboard.
#[derive(Clone, Debug)]
pub struct ClipboardItem {
    pub text: String,
}

/// A request to open a terminal tab.
#[derive(Clone, Debug)]
pub struct OpenRequest {
    pub working_directory: Option<String>,
    pub modal: bool,
}

/// The handlers in the order in which `init` registers them.
pub open spec fn registered_actions() -> Seq<Action> {
    seq![
        Action::CtrlC,
        Action::Up,
        Action::Down,
        Action::Escape,
        Action::Enter,
        Action::Deploy,
        Action::Copy,
        Action::Paste,
        Action::Clear,
        Action::DeployModal,
    ]
}

/// Registers every action that a terminal handles, behind those that `handlers`
/// holds already: first the keys that a terminal takes from the global
/// bindings, then its own actions.
pub fn init(handlers: &mut Vec<Action>)
    ensures
        final(handlers)@ == old(handlers)@ + registered_actions(),
{
    handlers.push(Action::CtrlC);
    handlers.push(Action::Up);
    handlers.push(Action::Down);
    handlers.push(Action::Escape);
    handlers.push(Action::Enter);
    handlers.push(Action::Deploy);
    handlers.push(Action::Copy);
    handlers.push(Action::Paste);
    handlers.push(Action::Clear);
    handlers.push(Action::DeployModal);
    assert(handlers@ =~= old(handlers)@ + registered_actions());
}

} // verus!
