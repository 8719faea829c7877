//! The view of a terminal that runs: it turns the terminal's events into what
//! the tab shows, and the user's actions into requests to the terminal.

use vstd::prelude::*;
use vstd::string::*;
use crate::event::{ClipboardItem, Event, OpenRequest, Reaction, TerminalCommand};
use crate::project::Workspace;
use crate::working_directory::{
    effective_policy, get_working_directory, path_view, project_directory, WorkingDirectory,
};

verus! {

/// What a view reads of the terminal behind it. The terminal itself, its
/// process and its screen belong to others.
#[derive(Clone, Debug)]
pub struct Terminal {
    pub title: String,
    pub associated_directory: Option<String>,
}

/// A connected view as contracts see it.
pub struct ConnectedState {
    pub title: Seq<char>,
    pub associated_directory: Option<Seq<char>>,
    pub has_new_content: bool,
    pub has_bell: bool,
    pub modal: bool,
}

/// A view of a running terminal. `has_new_content` says that output came
/// since the view last had focus; `has_bell` that the bell rang and nobody
/// has answered it yet.
#[derive(Clone, Debug)]
pub struct ConnectedView {
    terminal: Terminal,
    has_new_content: bool,
    has_bell: bool,
    modal: bool,
}

impl View for ConnectedView {
    type V = ConnectedState;

    closed spec fn view(&self) -> ConnectedState {
        ConnectedState {
            title: self.terminal.title@,
            associated_directory: path_view(self.terminal.associated_directory),
            has_new_content: self.has_new_content,
            has_bell: self.has_bell,
            modal: self.modal,
        }
    }
}

impl ConnectedState {
    /// The view after it got focus: nothing in it is new any more.
    pub open spec fn focused(self) -> ConnectedState {
        ConnectedState { has_new_content: false, ..self }
    }

    /// The view after its bell was answered.
    pub open spec fn bell_cleared(self) -> ConnectedState {
        ConnectedState { has_bell: false, ..self }
    }
}

/// The flags after an event of the terminal: output that comes while the view
/// is out of focus is new content, a bell rings in any case, and nothing else
/// touches the view.
pub open spec fn state_after(state: ConnectedState, event: Event, focused: bool) -> ConnectedState {
    match event {
        Event::Wakeup => if focused {
            state
        } else {
            ConnectedState { has_new_content: true, ..state }
        },
        Event::Bell => ConnectedState { has_bell: true, ..state },
        _ => state,
    }
}

/// The answer to an event of the terminal: output is drawn at once where the
/// view has focus and changes the tab's label where it has not, a bell changes
/// the label, and every other event goes up as it came.
pub open spec fn reaction_to(event: Event, focused: bool) -> Reaction {
    match event {
        Event::Wakeup => if focused {
            Reaction::Notify
        } else {
            Reaction::Emit(Event::TitleChanged)
        },
        Event::Bell => Reaction::Emit(Event::TitleChanged),
        _ => Reaction::Emit(event),
    }
}

impl ConnectedView {
    /// A view of `terminal`, which starts with content to show and no bell.
    pub fn from_terminal(terminal: Terminal, modal: bool) -> (view: ConnectedView)
        ensures
            view@ == (ConnectedState {
                title: terminal.title@,
                associated_directory: path_view(terminal.associated_directory),
                has_new_content: true,
                has_bell: false,
                modal,
            }),
    {
        ConnectedView { terminal, has_new_content: true, has_bell: false, modal }
    }

    pub fn ui_name() -> (name: &'static str)
        ensures
            name@ == "Connected Terminal View"@,
    {
        "Connected Terminal View"
    }

    /// The terminal changed in some way: the view is drawn again.
    pub fn on_terminal_changed(&self) -> (reaction: Reaction)
        ensures
            reaction == Reaction::Notify,
    {
        Reaction::Notify
    }

    /// Takes one event of the terminal. `focused` says whether this view has
    /// input focus now.
    pub fn on_terminal_event(&mut self, event: Event, focused: bool) -> (reaction: Reaction)
        ensures
            final(self)@ == state_after(old(self)@, event, focused),
            reaction == reaction_to(event, focused),
    {
        match event {
            Event::Wakeup => {
                if focused {
                    Reaction::Notify
                } else {
                    self.has_new_content = true;
                    Reaction::Emit(Event::TitleChanged)
                }
            },
            Event::Bell => {
                self.has_bell = true;
                Reaction::Emit(Event::TitleChanged)
            },
            _ => Reaction::Emit(event),
        }
    }

    /// Answers the bell: the flag goes, and the tab's label is drawn again.
    pub fn clear_bel(&mut self) -> (emitted: Event)
        ensures
            final(self)@ == old(self)@.bell_cleared(),
            emitted == Event::TitleChanged,
    {
        self.has_bell = false;
        Event::TitleChanged
    }

    /// The view got focus: its content is no longer new. A bell stays.
    pub fn on_focus(&mut self)
        ensures
            final(self)@ == old(self)@.focused(),
    {
        self.has_new_content = false;
    }

    /// A request for a new terminal tab in the directory that `setting` picks
    /// from `workspace`, or in the home directory.
    pub fn deploy(workspace: &Workspace, setting: Option<WorkingDirectory>) -> (request:
        OpenRequest)
        ensures
            !request.modal,
            project_directory(effective_policy(setting), workspace@) is Some ==> path_view(
                request.working_directory,
            ) == project_directory(effective_policy(setting), workspace@),
    {
        let working_directory = get_working_directory(workspace, setting);
        OpenRequest { working_directory, modal: false }
    }

    pub fn clear(&self) -> (command: TerminalCommand)
        ensures
            command is Clear,
    {
        TerminalCommand::Clear
    }

    /// What the terminal has selected, if anything, goes to the clipboard.
    pub fn copy(&self, selection: Option<String>) -> (item: Option<ClipboardItem>)
        ensures
            item is Some <==> selection is Some,
            item is Some ==> item->0.text@ == selection->0@,
    {
        match selection {
            Some(text) => Some(ClipboardItem { text }),
            None => None,
        }
    }

    /// What the clipboard holds, if anything, goes to the terminal. An empty
    /// clipboard asks nothing of it.
    pub fn paste(&self, clipboard: Option<ClipboardItem>) -> (command: Option<TerminalCommand>)
        ensures
            command is Some <==> clipboard is Some,
            command is Some ==> command->0 is Paste && command->0->Paste_0@ == clipboard->0.text@,
    {
        match clipboard {
            Some(item) => Some(TerminalCommand::Paste(item.text)),
            None => None,
        }
    }

    pub fn up(&self) -> (command: TerminalCommand)
        ensures
            command is Keystroke && command->Keystroke_0@ == "up"@,
    {
        TerminalCommand::Keystroke(String::from_str("up"))
    }

    pub fn down(&self) -> (command: TerminalCommand)
        ensures
            command is Keystroke && command->Keystroke_0@ == "down"@,
    {
        TerminalCommand::Keystroke(String::from_str("down"))
    }

    pub fn ctrl_c(&self) -> (command: TerminalCommand)
        ensures
            command is Keystroke && command->Keystroke_0@ == "ctrl-c"@,
    {
        TerminalCommand::Keystroke(String::from_str("ctrl-c"))
    }

    pub fn escape(&self) -> (command: TerminalCommand)
        ensures
            command is Keystroke && command->Keystroke_0@ == "escape"@,
    {
        TerminalCommand::Keystroke(String::from_str("escape"))
    }

    pub fn enter(&self) -> (command: TerminalCommand)
        ensures
            command is Keystroke && command->Keystroke_0@ == "enter"@,
    {
        TerminalCommand::Keystroke(String::from_str("enter"))
    }

    /// The terminal's title as it stands.
    pub fn title(&self) -> (title: String)
        ensures
            title@ == self@.title,
    {
        self.terminal.title.clone()
    }

    /// The directory that the terminal was started in.
    pub fn associated_directory(&self) -> (directory: Option<String>)
        ensures
            path_view(directory) == self@.associated_directory,
    {
        match &self.terminal.associated_directory {
            Some(dir) => Some(dir.clone()),
            None => None,
        }
    }

    pub fn has_new_content(&self) -> (flag: bool)
        ensures
            flag == self@.has_new_content,
    {
        self.has_new_content
    }

    pub fn has_bell(&self) -> (flag: bool)
        ensures
            flag == self@.has_bell,
    {
        self.has_bell
    }

    pub fn is_modal(&self) -> (flag: bool)
        ensures
            flag == self@.modal,
    {
        self.modal
    }
}

/// Focus takes the new content away and never the bell; answering the bell
/// takes the bell away and nothing else.
pub proof fn lemma_focus_keeps_bell(before: ConnectedState)
    ensures
        !before.focused().has_new_content,
        before.focused().has_bell == before.has_bell,
        !before.bell_cleared().has_bell,
        before.bell_cleared().has_new_content == before.has_new_content,
{
}

/// No event of the terminal takes a bell away, and none but output out of
/// focus and the bell changes the view at all.
pub proof fn lemma_events_keep_bell(before: ConnectedState, event: Event, focused: bool)
    ensures
        before.has_bell ==> state_after(before, event, focused).has_bell,
        before.has_new_content ==> state_after(before, event, focused).has_new_content,
        event != Event::Bell && !(event == Event::Wakeup && !focused) ==> state_after(
            before,
            event,
            focused,
        ) == before,
        state_after(before, event, focused).title == before.title,
        state_after(before, event, focused).associated_directory == before.associated_directory,
        state_after(before, event, focused).modal == before.modal,
{
}

} // verus!
