//! A terminal tab: one content view, chosen when the tab is made and kept for
//! its lifetime, and what the host's tab system can ask of it.

use vstd::prelude::*;
use vstd::string::*;
use crate::connected_view::{reaction_to, state_after, ConnectedState, ConnectedView, Terminal};
use crate::error_view::{ErrorView, TerminalError};
use crate::event::{Event, OpenRequest, Reaction, ViewKind};
use crate::working_directory::path_view;

verus! {

/// The project entries that a tab stands for, held in a `smallvec::SmallVec`
/// with room for three before it allocates.
#[verifier::external_body]
pub struct EntryIds {
    ids: smallvec::SmallVec<[u64; 3]>,
}

/// The entry ids that the vector holds, in order.
pub uninterp spec fn entry_ids(ids: EntryIds) -> Seq<u64>;

/// `smallvec::SmallVec::new`: a vector that holds nothing.
#[verifier::external_body]
fn no_entry_ids() -> (ids: EntryIds)
    ensures
        entry_ids(ids) == Seq::<u64>::empty(),
{
    EntryIds { ids: smallvec::SmallVec::new() }
}

/// `smallvec::SmallVec::len`: the number of items that the vector holds.
#[verifier::external_body]
fn count_entry_ids(ids: &EntryIds) -> (n: usize)
    ensures
        n == entry_ids(*ids).len(),
{
    ids.ids.len()
}

impl EntryIds {
    pub fn len(&self) -> (n: usize)
        ensures
            n == entry_ids(*self).len(),
    {
        count_entry_ids(self)
    }
}

/// A place in a project: a worktree and a path below its root.
#[derive(Clone, Debug)]
pub struct ProjectPath {
    pub worktree_id: u64,
    pub path: String,
}

/// The content of a tab: a running terminal, or the failure to start one.
#[derive(Clone, Debug)]
pub enum TerminalContent {
    Connected(ConnectedView),
    Error(ErrorView),
}

/// The content of a tab as contracts see it.
pub enum ContentState {
    Connected(ConnectedState),
    Error(Seq<char>),
}

/// A tab as contracts see it.
pub struct TerminalViewState {
    pub modal: bool,
    pub content: ContentState,
}

/// What a tab hands to be drawn: its content view, and whether that stands in
/// the container of a modal terminal.
#[derive(Clone, Copy, Debug, PartialEq, Eq, Structural)]
pub struct Rendering {
    pub child: ViewKind,
    pub modal_container: bool,
}

/// A terminal tab.
#[derive(Clone, Debug)]
pub struct TerminalView {
    modal: bool,
    content: TerminalContent,
}

impl View for TerminalContent {
    type V = ContentState;

    open spec fn view(&self) -> ContentState {
        match self {
            TerminalContent::Connected(connected) => ContentState::Connected(connected@),
            TerminalContent::Error(error) => ContentState::Error(error@),
        }
    }
}

impl TerminalContent {
    /// The view that takes focus for this content.
    pub fn handle(&self) -> (kind: ViewKind)
        ensures
            kind == self@.kind(),
    {
        match self {
            TerminalContent::Connected(_) => ViewKind::Connected,
            TerminalContent::Error(_) => ViewKind::Error,
        }
    }
}

impl ContentState {
    pub open spec fn kind(self) -> ViewKind {
        match self {
            ContentState::Connected(_) => ViewKind::Connected,
            ContentState::Error(_) => ViewKind::Error,
        }
    }

    /// Output came since the content last had focus.
    pub open spec fn dirty(self) -> bool {
        self is Connected && self->Connected_0.has_new_content
    }

    /// A bell rang and has not been answered.
    pub open spec fn conflict(self) -> bool {
        self is Connected && self->Connected_0.has_bell
    }

    /// The tab's label: the terminal's title, or a fixed word for a failure.
    pub open spec fn title(self) -> Seq<char> {
        match self {
            ContentState::Connected(connected) => connected.title,
            ContentState::Error(_) => "Terminal"@,
        }
    }

    /// The content after an event of its terminal. A failure has no terminal.
    pub open spec fn after_event(self, event: Event, focused: bool) -> ContentState {
        match self {
            ContentState::Connected(connected) => ContentState::Connected(
                state_after(connected, event, focused),
            ),
            ContentState::Error(_) => self,
        }
    }

    /// The content after it got focus.
    pub open spec fn after_focus(self) -> ContentState {
        match self {
            ContentState::Connected(connected) => ContentState::Connected(connected.focused()),
            ContentState::Error(_) => self,
        }
    }

    /// The content after its bell was answered.
    pub open spec fn after_clear_bel(self) -> ContentState {
        match self {
            ContentState::Connected(connected) => ContentState::Connected(
                connected.bell_cleared(),
            ),
            ContentState::Error(_) => self,
        }
    }
}

/// The content that the attempt to start a terminal leaves behind.
pub open spec fn content_of(
    construction: Result<Terminal, TerminalError>,
    modal: bool,
) -> ContentState {
    match construction {
        Ok(terminal) => ContentState::Connected(
            ConnectedState {
                title: terminal.title@,
                associated_directory: path_view(terminal.associated_directory),
                has_new_content: true,
                has_bell: false,
                modal,
            },
        ),
        Err(error) => ContentState::Error(error.message@),
    }
}

impl View for TerminalView {
    type V = TerminalViewState;

    closed spec fn view(&self) -> TerminalViewState {
        TerminalViewState { modal: self.modal, content: self.content@ }
    }
}

impl TerminalView {
    /// A tab for the outcome of starting a terminal: a connected view where it
    /// started, an error view with the failure where it did not. The second
    /// result is the view that is to get focus at once.
    pub fn new(construction: Result<Terminal, TerminalError>, modal: bool) -> (made: (
        TerminalView,
        ViewKind,
    ))
        ensures
            made.0@.modal == modal,
            made.0@.content == content_of(construction, modal),
            made.1 == made.0@.content.kind(),
    {
        let content = match construction {
            Ok(terminal) => TerminalContent::Connected(
                ConnectedView::from_terminal(terminal, modal),
            ),
            Err(error) => TerminalContent::Error(ErrorView::new(error)),
        };
        let focus = content.handle();
        (TerminalView { modal, content }, focus)
    }

    /// A tab on a terminal that runs already.
    pub fn from_terminal(terminal: Terminal, modal: bool) -> (view: TerminalView)
        ensures
            view@.modal == modal,
            view@.content == content_of(Ok(terminal), modal),
    {
        let connected_view = ConnectedView::from_terminal(terminal, modal);
        TerminalView { modal, content: TerminalContent::Connected(connected_view) }
    }

    pub fn ui_name() -> (name: &'static str)
        ensures
            name@ == "Terminal"@,
    {
        "Terminal"
    }

    /// The content view, inside the modal container where the tab is modal.
    pub fn render(&self) -> (rendering: Rendering)
        ensures
            rendering.child == self@.content.kind(),
            rendering.modal_container == self@.modal,
    {
        let child = match &self.content {
            TerminalContent::Connected(_) => ViewKind::Connected,
            TerminalContent::Error(_) => ViewKind::Error,
        };
        if self.modal {
            Rendering { child, modal_container: true }
        } else {
            Rendering { child, modal_container: false }
        }
    }

    /// The tab got focus: it says so to its host and hands focus on to its
    /// content view.
    pub fn on_focus(&self) -> (answer: (Event, ViewKind))
        ensures
            answer.0 == Event::Activate,
            answer.1 == self@.content.kind(),
    {
        (Event::Activate, self.content.handle())
    }

    /// The names under which key bindings find this tab.
    pub fn keymap_context(&self) -> (context: Vec<String>)
        ensures
            context@.len() == if self@.modal { 2nat } else { 1nat },
            context@[0]@ == "Terminal"@,
            self@.modal ==> context@[1]@ == "ModalTerminal"@,
    {
        let mut context: Vec<String> = Vec::new();
        context.push(String::from_str(Self::ui_name()));
        if self.modal {
            context.push(String::from_str("ModalTerminal"));
        }
        context
    }

    /// The content view got focus.
    pub fn focus_content(&mut self)
        ensures
            final(self)@.modal == old(self)@.modal,
            final(self)@.content == old(self)@.content.after_focus(),
    {
        match &mut self.content {
            TerminalContent::Connected(connected) => {
                connected.on_focus();
            },
            TerminalContent::Error(_) => {},
        }
    }

    /// Hands an event of the terminal to the connected view and passes its
    /// answer up unchanged. A tab that shows a failure has no terminal: it
    /// answers nothing and stays as it is.
    pub fn on_terminal_event(&mut self, event: Event, focused: bool) -> (reaction: Option<
        Reaction,
    >)
        ensures
            final(self)@.modal == old(self)@.modal,
            final(self)@.content == old(self)@.content.after_event(event, focused),
            reaction == if old(self)@.content is Connected {
                Some(reaction_to(event, focused))
            } else {
                None
            },
    {
        match &mut self.content {
            TerminalContent::Connected(connected) => Some(
                connected.on_terminal_event(event, focused),
            ),
            TerminalContent::Error(_) => None,
        }
    }

    /// Answers the bell of a connected tab, which then asks for its label to
    /// be drawn again.
    pub fn clear_bel(&mut self) -> (emitted: Option<Event>)
        ensures
            final(self)@.modal == old(self)@.modal,
            final(self)@.content == old(self)@.content.after_clear_bel(),
            emitted == if old(self)@.content is Connected {
                Some(Event::TitleChanged)
            } else {
                None
            },
    {
        match &mut self.content {
            TerminalContent::Connected(connected) => Some(connected.clear_bel()),
            TerminalContent::Error(_) => None,
        }
    }

    /// The tab's label.
    pub fn tab_content(&self) -> (title: String)
        ensures
            title@ == self@.content.title(),
    {
        match &self.content {
            TerminalContent::Connected(connected) => connected.title(),
            TerminalContent::Error(_) => String::from_str("Terminal"),
        }
    }

    /// A request for the tab that a split puts beside this one: a terminal of
    /// its own, started where this tab's terminal was started. A tab that
    /// shows a failure has nothing to split.
    pub fn clone_on_split(&self) -> (request: Option<OpenRequest>)
        ensures
            request is Some <==> self@.content is Connected,
            request is Some ==> !request->0.modal && path_view(request->0.working_directory)
                == self@.content->Connected_0.associated_directory,
    {
        match &self.content {
            TerminalContent::Connected(connected) => {
                let associated_directory = connected.associated_directory();
                Some(OpenRequest { working_directory: associated_directory, modal: false })
            },
            TerminalContent::Error(_) => None,
        }
    }

    /// A terminal stands for no place in the project.
    pub fn project_path(&self) -> (path: Option<ProjectPath>)
        ensures
            path is None,
    {
        None
    }

    /// A terminal stands for no entry of the project.
    pub fn project_entry_ids(&self) -> (ids: EntryIds)
        ensures
            entry_ids(ids) == Seq::<u64>::empty(),
    {
        no_entry_ids()
    }

    /// Any number of terminal tabs may be open.
    pub fn is_singleton(&self) -> (single: bool)
        ensures
            !single,
    {
        false
    }

    /// A terminal is never written to a file.
    pub fn can_save(&self) -> (savable: bool)
        ensures
            !savable,
    {
        false
    }

    /// There is nothing to load again: the tab stays as it is.
    pub fn reload(&mut self) -> (done: Result<(), TerminalError>)
        ensures
            done is Ok,
            *final(self) == *old(self),
    {
        Ok(())
    }

    pub fn is_dirty(&self) -> (dirty: bool)
        ensures
            dirty == self@.content.dirty(),
    {
        match &self.content {
            TerminalContent::Connected(connected) => connected.has_new_content(),
            TerminalContent::Error(_) => false,
        }
    }

    pub fn has_conflict(&self) -> (conflict: bool)
        ensures
            conflict == self@.content.conflict(),
    {
        match &self.content {
            TerminalContent::Connected(connected) => connected.has_bell(),
            TerminalContent::Error(_) => false,
        }
    }

    /// The connected view, where the tab holds one.
    pub fn connected(&self) -> (view: Option<&ConnectedView>)
        ensures
            match view {
                Some(connected) => self@.content == ContentState::Connected(connected@),
                None => self@.content is Error,
            },
    {
        match &self.content {
            TerminalContent::Connected(connected) => Some(connected),
            TerminalContent::Error(_) => None,
        }
    }

    /// Which of the two content views the tab holds.
    pub fn content_kind(&self) -> (kind: ViewKind)
        ensures
            kind == self@.content.kind(),
    {
        self.content.handle()
    }

    pub fn is_modal(&self) -> (modal: bool)
        ensures
            modal == self@.modal,
    {
        self.modal
    }

    /// An event that asks the host to draw the tab's label again.
    pub fn should_update_tab_on_event(event: &Event) -> (update: bool)
        ensures
            update == (*event == Event::TitleChanged),
    {
        matches!(event, Event::TitleChanged)
    }

    /// An event that asks the host to close the tab.
    pub fn should_close_item_on_event(event: &Event) -> (close: bool)
        ensures
            close == (*event == Event::CloseTerminal),
    {
        matches!(event, Event::CloseTerminal)
    }

    /// An event that asks the host to bring the tab to the front.
    pub fn should_activate_item_on_event(event: &Event) -> (activate: bool)
        ensures
            activate == (*event == Event::Activate),
    {
        matches!(event, Event::Activate)
    }
}

/// A tab holds one of the two content views, and no event, focus or answered
/// bell turns one into the other. A tab that shows a failure is changed by
/// none of them, and is neither dirty nor in conflict.
pub proof fn lemma_content_kind_is_fixed(content: ContentState, event: Event, focused: bool)
    ensures
        (content is Connected) != (content is Error),
        content.after_event(event, focused).kind() == content.kind(),
        content.after_focus().kind() == content.kind(),
        content.after_clear_bel().kind() == content.kind(),
        content is Error ==> content.after_event(event, focused) == content
            && content.after_focus() == content && content.after_clear_bel() == content,
        content is Error ==> !content.dirty() && !content.conflict(),
{
}

/// Focus takes the new content away and never the bell; answering the bell
/// takes the bell away and leaves the new content.
pub proof fn lemma_focus_and_bell(content: ContentState)
    ensures
        !content.after_focus().dirty(),
        content.after_focus().conflict() == content.conflict(),
        !content.after_clear_bel().conflict(),
        content.after_clear_bel().dirty() == content.dirty(),
{
}

/// Output that comes while the tab is out of focus makes it dirty and asks
/// for its label to be drawn again; focus then makes it clean and leaves a
/// bell that rang before.
pub proof fn lemma_output_then_focus(content: ContentState)
    requires
        content is Connected,
    ensures
        content.after_event(Event::Wakeup, false).dirty(),
        reaction_to(Event::Wakeup, false) == Reaction::Emit(Event::TitleChanged),
        !content.after_event(Event::Wakeup, false).after_focus().dirty(),
        content.after_event(Event::Wakeup, false).after_focus().conflict() == content.conflict(),
{
}

} // verus!
