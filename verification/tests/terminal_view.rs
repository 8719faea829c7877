use terminal::{
    init, Action, ClipboardItem, ConnectedView, Entry, ErrorView, Event, Reaction,
    ScrollTerminal, Terminal, TerminalCommand, TerminalError, TerminalView, ViewKind,
    WorkingDirectory, Workspace, Worktree,
};

fn running(title: &str, directory: Option<&str>) -> Terminal {
    Terminal { title: title.to_string(), associated_directory: directory.map(|d| d.to_string()) }
}

fn failure(message: &str) -> Result<Terminal, TerminalError> {
    Err(TerminalError { message: message.to_string() })
}

fn keystroke(command: TerminalCommand) -> String {
    match command {
        TerminalCommand::Keystroke(name) => name,
        other => panic!("no keystroke: {:?}", other),
    }
}

#[test]
fn construction_success_gives_connected_content() {
    let (view, focus) = TerminalView::new(Ok(running("zsh", Some("/root/"))), false);
    assert_eq!(focus, ViewKind::Connected);
    assert_eq!(view.content_kind(), ViewKind::Connected);
    assert_eq!(view.tab_content(), "zsh".to_string());
    assert!(view.is_dirty());
    assert!(!view.has_conflict());
    assert!(!view.is_modal());
}

#[test]
fn construction_failure_gives_error_content() {
    let (view, focus) = TerminalView::new(failure("no shell"), true);
    assert_eq!(focus, ViewKind::Error);
    assert_eq!(view.content_kind(), ViewKind::Error);
    assert_eq!(view.tab_content(), "Terminal".to_string());
    assert!(!view.is_dirty());
    assert!(!view.has_conflict());
    assert!(view.is_modal());
}

#[test]
fn error_content_never_changes() {
    let (mut view, _) = TerminalView::new(failure("no shell"), false);
    let events =
        [Event::Wakeup, Event::Bell, Event::Activate, Event::TitleChanged, Event::CloseTerminal];
    for event in events {
        for focused in [false, true] {
            assert_eq!(view.on_terminal_event(event, focused), None);
            assert_eq!(view.content_kind(), ViewKind::Error);
            assert!(!view.is_dirty());
            assert!(!view.has_conflict());
        }
    }
    view.focus_content();
    assert_eq!(view.clear_bel(), None);
    assert_eq!(view.content_kind(), ViewKind::Error);
    assert!(!view.is_dirty());
    assert!(!view.has_conflict());
    assert!(view.clone_on_split().is_none());
}

#[test]
fn connected_content_stays_connected() {
    let mut view = TerminalView::from_terminal(running("zsh", None), false);
    let events =
        [Event::Wakeup, Event::Bell, Event::Activate, Event::TitleChanged, Event::CloseTerminal];
    for event in events {
        assert!(view.on_terminal_event(event, false).is_some());
        assert_eq!(view.content_kind(), ViewKind::Connected);
    }
    view.focus_content();
    view.clear_bel();
    assert_eq!(view.content_kind(), ViewKind::Connected);
}

#[test]
fn wakeup_out_of_focus_marks_dirty_and_focus_clears_it() {
    let mut view = TerminalView::from_terminal(running("expr", None), false);
    view.focus_content();
    assert!(!view.is_dirty());

    assert_eq!(
        view.on_terminal_event(Event::Bell, false),
        Some(Reaction::Emit(Event::TitleChanged))
    );
    assert!(view.has_conflict());

    assert_eq!(
        view.on_terminal_event(Event::Wakeup, false),
        Some(Reaction::Emit(Event::TitleChanged))
    );
    assert!(view.is_dirty());

    view.focus_content();
    assert!(!view.is_dirty());
    assert!(view.has_conflict());
}

#[test]
fn wakeup_in_focus_only_redraws() {
    let mut view = ConnectedView::from_terminal(running("zsh", None), false);
    view.on_focus();
    assert_eq!(view.on_terminal_event(Event::Wakeup, true), Reaction::Notify);
    assert!(!view.has_new_content());
    assert!(!view.has_bell());
    assert_eq!(view.on_terminal_changed(), Reaction::Notify);
}

#[test]
fn bell_sets_the_flag_whatever_the_focus() {
    for focused in [false, true] {
        let mut view = ConnectedView::from_terminal(running("zsh", None), false);
        view.on_focus();
        assert_eq!(
            view.on_terminal_event(Event::Bell, focused),
            Reaction::Emit(Event::TitleChanged)
        );
        assert!(view.has_bell());
        assert!(!view.has_new_content());
    }
}

#[test]
fn other_events_pass_through_unchanged() {
    let mut view = ConnectedView::from_terminal(running("zsh", None), false);
    view.on_focus();
    for event in [Event::Activate, Event::TitleChanged, Event::CloseTerminal] {
        for focused in [false, true] {
            assert_eq!(view.on_terminal_event(event, focused), Reaction::Emit(event));
            assert!(!view.has_new_content());
            assert!(!view.has_bell());
        }
    }
}

#[test]
fn clear_bel_clears_the_bell_and_asks_for_the_title() {
    let mut view = ConnectedView::from_terminal(running("zsh", None), false);
    view.on_terminal_event(Event::Bell, true);
    assert!(view.has_bell());
    assert!(view.has_new_content());
    assert_eq!(view.clear_bel(), Event::TitleChanged);
    assert!(!view.has_bell());
    assert!(view.has_new_content());

    let mut tab = TerminalView::from_terminal(running("zsh", None), false);
    tab.on_terminal_event(Event::Bell, false);
    assert!(tab.has_conflict());
    assert_eq!(tab.clear_bel(), Some(Event::TitleChanged));
    assert!(!tab.has_conflict());
    assert!(tab.is_dirty());
}

#[test]
fn new_connected_view_has_content_and_no_bell() {
    let view = ConnectedView::from_terminal(running("zsh", Some("/work")), true);
    assert!(view.has_new_content());
    assert!(!view.has_bell());
    assert!(view.is_modal());
    assert_eq!(view.title(), "zsh".to_string());
    assert_eq!(view.associated_directory(), Some("/work".to_string()));
}

#[test]
fn tab_focus_activates_and_hands_focus_to_content() {
    let view = TerminalView::from_terminal(running("zsh", None), false);
    assert_eq!(view.on_focus(), (Event::Activate, ViewKind::Connected));
    let (view, _) = TerminalView::new(failure("no pty"), false);
    assert_eq!(view.on_focus(), (Event::Activate, ViewKind::Error));
}

#[test]
fn split_starts_where_the_terminal_was_started() {
    let view = TerminalView::from_terminal(running("zsh", Some("/root2/")), true);
    let request = view.clone_on_split().unwrap();
    assert_eq!(request.working_directory, Some("/root2/".to_string()));
    assert!(!request.modal);

    let view = TerminalView::from_terminal(running("zsh", None), false);
    let request = view.clone_on_split().unwrap();
    assert_eq!(request.working_directory, None);
    assert!(!request.modal);
}

#[test]
fn error_view_shows_the_failure_word_for_word() {
    let view = ErrorView::new(TerminalError { message: "Working directory: /x".to_string() });
    assert_eq!(
        view.render(),
        "Failed to open the terminal. Info: \nWorking directory: /x".to_string()
    );
    let view = ErrorView::new(TerminalError { message: String::new() });
    assert_eq!(view.render(), "Failed to open the terminal. Info: \n".to_string());
}

#[test]
fn view_names() {
    assert_eq!(TerminalView::ui_name(), "Terminal");
    assert_eq!(ConnectedView::ui_name(), "Connected Terminal View");
    assert_eq!(ErrorView::ui_name(), "Terminal Error");
}

#[test]
fn rendering_follows_content_and_modal() {
    let view = TerminalView::from_terminal(running("zsh", None), true);
    let rendering = view.render();
    assert_eq!(rendering.child, ViewKind::Connected);
    assert!(rendering.modal_container);

    let (view, _) = TerminalView::new(failure("no pty"), false);
    let rendering = view.render();
    assert_eq!(rendering.child, ViewKind::Error);
    assert!(!rendering.modal_container);
}

#[test]
fn keymap_context_names_modal_terminals() {
    let view = TerminalView::from_terminal(running("zsh", None), false);
    assert_eq!(view.keymap_context(), vec!["Terminal".to_string()]);
    let view = TerminalView::from_terminal(running("zsh", None), true);
    assert_eq!(
        view.keymap_context(),
        vec!["Terminal".to_string(), "ModalTerminal".to_string()]
    );
}

#[test]
fn tab_queries_that_never_vary() {
    let mut view = TerminalView::from_terminal(running("zsh", None), false);
    assert!(!view.is_singleton());
    assert!(!view.can_save());
    assert!(view.project_path().is_none());
    assert_eq!(view.project_entry_ids().len(), 0);
    view.on_terminal_event(Event::Bell, false);
    assert!(view.reload().is_ok());
    assert!(view.is_dirty());
    assert!(view.has_conflict());
    assert_eq!(view.tab_content(), "zsh".to_string());
}

#[test]
fn event_predicates_match_one_kind_each() {
    let events =
        [Event::Wakeup, Event::Bell, Event::Activate, Event::TitleChanged, Event::CloseTerminal];
    for event in events {
        assert_eq!(TerminalView::should_update_tab_on_event(&event), event == Event::TitleChanged);
        assert_eq!(TerminalView::should_close_item_on_event(&event), event == Event::CloseTerminal);
        assert_eq!(TerminalView::should_activate_item_on_event(&event), event == Event::Activate);
    }
}

#[test]
fn keys_are_sent_by_name() {
    let view = ConnectedView::from_terminal(running("zsh", None), false);
    assert_eq!(keystroke(view.up()), "up");
    assert_eq!(keystroke(view.down()), "down");
    assert_eq!(keystroke(view.ctrl_c()), "ctrl-c");
    assert_eq!(keystroke(view.escape()), "escape");
    assert_eq!(keystroke(view.enter()), "enter");
    assert!(matches!(view.clear(), TerminalCommand::Clear));
}

#[test]
fn copy_and_paste_absorb_emptiness() {
    let view = ConnectedView::from_terminal(running("zsh", None), false);
    assert!(view.copy(None).is_none());
    assert_eq!(view.copy(Some("7".to_string())).unwrap().text, "7".to_string());
    assert!(view.paste(None).is_none());
    match view.paste(Some(ClipboardItem { text: "expr 3 + 4".to_string() })) {
        Some(TerminalCommand::Paste(text)) => assert_eq!(text, "expr 3 + 4".to_string()),
        other => panic!("no paste: {:?}", other),
    }
}

#[test]
fn deploy_asks_for_a_plain_tab_in_the_project_directory() {
    let mut workspace = Workspace::new();
    workspace.add_worktree(Worktree::new("/root/".to_string(), Entry { id: 1, is_dir: true }));
    let request = ConnectedView::deploy(&workspace, None);
    assert_eq!(request.working_directory, Some("/root/".to_string()));
    assert!(!request.modal);
    let request =
        ConnectedView::deploy(&workspace, Some(WorkingDirectory::FirstProjectDirectory));
    assert_eq!(request.working_directory, Some("/root/".to_string()));
}

#[test]
fn init_registers_every_action_once_in_order() {
    let mut handlers = vec![Action::Deploy];
    init(&mut handlers);
    assert_eq!(
        handlers,
        vec![
            Action::Deploy,
            Action::CtrlC,
            Action::Up,
            Action::Down,
            Action::Escape,
            Action::Enter,
            Action::Deploy,
            Action::Copy,
            Action::Paste,
            Action::Clear,
            Action::DeployModal,
        ]
    );
}

#[test]
fn scroll_events_compare_by_their_lines() {
    assert_eq!(ScrollTerminal(3), ScrollTerminal(3));
    assert_ne!(ScrollTerminal(3), ScrollTerminal(-3));
    assert_eq!(ScrollTerminal(-1).0, -1);
}

#[test]
fn connected_view_is_reached_through_its_tab() {
    let mut tab = TerminalView::from_terminal(running("zsh", Some("/w")), false);
    tab.on_terminal_event(Event::Bell, true);
    let connected = tab.connected().unwrap();
    assert!(connected.has_bell());
    assert!(connected.has_new_content());
    assert_eq!(connected.title(), "zsh".to_string());
    assert_eq!(keystroke(connected.enter()), "enter");

    let (tab, _) = TerminalView::new(failure("no pty"), false);
    assert!(tab.connected().is_none());
}
