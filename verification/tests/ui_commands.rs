//! Tests of the command builders, the registry, input handling and the
//! layout arithmetic.

use helmux::{
    command_for_action, is_new_tab_button, key_to_send_action, mouse_event_to_tmux,
    row_to_tab_index, truncate_to_width, Action, App, Commands, HitRegion, InputHandler,
    InputMode, KeyCode, KeyEvent, Layout, MouseButton, MouseEventKind, Rect, TmuxEvent,
    COLLAPSED_SIDEBAR_WIDTH, DEFAULT_SIDEBAR_WIDTH,
};

#[test]
fn test_list_windows() {
    assert!(Commands::list_windows().contains("list-windows"));
}

#[test]
fn test_new_window() {
    assert_eq!(Commands::new_window(None), "new-window");
    assert_eq!(Commands::new_window(Some("test")), "new-window -n 'test'");
}

#[test]
fn test_escape_single_quotes() {
    assert_eq!(helmux::escape_single_quotes("it's"), "it'\\''s");
}

#[test]
fn test_select_window() {
    assert_eq!(Commands::select_window("@1"), "select-window -t @1");
}

#[test]
fn test_rename_window() {
    assert_eq!(
        Commands::rename_window("@1", "my-tab"),
        "rename-window -t @1 'my-tab'"
    );
}

#[test]
fn more_command_builders() {
    assert_eq!(Commands::kill_window("@2"), "kill-window -t @2");
    assert_eq!(Commands::refresh_client_size(80, 24), "refresh-client -C 80,24");
    assert_eq!(Commands::detach(), "detach-client");
    assert_eq!(Commands::send_text("%1", "a'b"), "send-keys -t %1 -l 'a'\\''b'");
    assert_eq!(Commands::send_keys("%1", "Enter"), "send-keys -t %1 Enter");
    assert_eq!(Commands::send_keys("%1", "C-a"), "send-keys -t %1 C-a");
    assert_eq!(Commands::send_keys("%1", "a"), "send-keys -t %1 a");
    assert_eq!(Commands::send_keys("%1", ";"), "send-keys -t %1 ';'");
    assert_eq!(Commands::send_keys("%1", "two words"), "send-keys -t %1 'two words'");
    assert_eq!(Commands::capture_pane("%1"), "capture-pane -t %1 -p -e");
}

#[test]
fn test_truncate_to_width() {
    assert_eq!(truncate_to_width("hello", 10), "hello");
    assert_eq!(truncate_to_width("hello world", 8), "hello...");
    assert_eq!(truncate_to_width("hi", 2), "hi");
}

#[test]
fn test_row_to_tab_index() {
    // 3 tabs, height 10 (last row is the new-tab button), no header.
    assert_eq!(row_to_tab_index(0, 3, 10, 0), Some(0));
    assert_eq!(row_to_tab_index(1, 3, 10, 0), Some(1));
    assert_eq!(row_to_tab_index(2, 3, 10, 0), Some(2));
    assert_eq!(row_to_tab_index(3, 3, 10, 0), None);
    assert_eq!(row_to_tab_index(9, 3, 10, 0), None);

    // With one header row (a mode badge).
    assert_eq!(row_to_tab_index(0, 3, 10, 1), None);
    assert_eq!(row_to_tab_index(1, 3, 10, 1), Some(0));
    assert_eq!(row_to_tab_index(2, 3, 10, 1), Some(1));
    assert_eq!(row_to_tab_index(3, 3, 10, 1), Some(2));
    assert_eq!(row_to_tab_index(4, 3, 10, 1), None);
}

#[test]
fn test_is_new_tab_button() {
    assert!(!is_new_tab_button(0, 10));
    assert!(!is_new_tab_button(8, 10));
    assert!(is_new_tab_button(9, 10));
}

#[test]
fn test_layout_areas() {
    let area = Rect::new(0, 0, 100, 40);
    let layout = Layout::new(area);

    let sidebar = layout.sidebar_area();
    assert_eq!(sidebar.x, 0);
    assert_eq!(sidebar.width, DEFAULT_SIDEBAR_WIDTH);

    let viewport = layout.viewport_area();
    assert_eq!(viewport.x, DEFAULT_SIDEBAR_WIDTH);
    assert_eq!(viewport.width, 100 - DEFAULT_SIDEBAR_WIDTH);
}

#[test]
fn test_hit_test() {
    let area = Rect::new(0, 0, 100, 40);
    let layout = Layout::new(area);

    let hit = layout.hit_test(5, 10);
    assert_eq!(hit, HitRegion::Sidebar { row: 10 });

    let hit = layout.hit_test(50, 20);
    assert_eq!(hit, HitRegion::Viewport { row: 20, col: 50 - DEFAULT_SIDEBAR_WIDTH });

    let hit = layout.hit_test(99, 45);
    assert_eq!(hit, HitRegion::Outside);
}

#[test]
fn test_toggle_sidebar() {
    let area = Rect::new(0, 0, 100, 40);
    let mut layout = Layout::new(area);

    assert_eq!(layout.sidebar_width(), DEFAULT_SIDEBAR_WIDTH);

    layout.toggle_sidebar();
    assert_eq!(layout.sidebar_width(), COLLAPSED_SIDEBAR_WIDTH);

    layout.toggle_sidebar();
    assert_eq!(layout.sidebar_width(), DEFAULT_SIDEBAR_WIDTH);
}

#[test]
fn refresh_builds_and_updates_tabs() {
    let mut app = App::new(80, 24);
    app.process_window_list("@1:shell:1:%0\n@2:logs:0:%1");
    assert_eq!(app.tab_count(), 2);
    assert_eq!(app.active_window_id(), Some("@1"));
    let infos = app.tab_infos();
    assert_eq!(infos[0].name, "shell");
    assert_eq!(infos[0].index, 1);
    assert!(infos[0].active);
    assert_eq!(infos[1].name, "logs");
    assert!(!infos[1].active);
}

#[test]
fn refresh_preserves_buffers() {
    let mut app = App::new(80, 24);
    app.process_window_list("@1:shell:1:%0");
    app.process_output("%0", b"X");
    app.process_window_list("@1:shell-renamed:1:%0");
    let tab = app.active_tab().unwrap();
    assert_eq!(tab.buffer.get_cell(0, 0).unwrap().character, 'X');
    assert_eq!(tab.name, "shell-renamed");
}

#[test]
fn refresh_twice_is_idempotent() {
    let mut app = App::new(80, 24);
    let listing = "@1:one:0:%0\n@2:two:1:%1";
    app.process_window_list(listing);
    app.process_output("%0", b"data");
    app.process_window_list(listing);
    let first = app.tab_infos();
    app.process_window_list(listing);
    let second = app.tab_infos();
    assert_eq!(first.len(), second.len());
    for (a, b) in first.iter().zip(second.iter()) {
        assert_eq!(a.id, b.id);
        assert_eq!(a.name, b.name);
        assert_eq!(a.active, b.active);
        assert_eq!(a.activity, b.activity);
    }
}

#[test]
fn refresh_drops_unlisted_windows() {
    let mut app = App::new(80, 24);
    app.process_window_list("@1:one:1:%0\n@2:two:0:%1");
    assert_eq!(app.tab_count(), 2);
    app.process_window_list("@2:two:1:%1");
    assert_eq!(app.tab_count(), 1);
    assert_eq!(app.active_window_id(), Some("@2"));
}

#[test]
fn activity_flag_follows_focus() {
    let mut app = App::new(80, 24);
    app.process_window_list("@1:one:1:%0\n@2:two:0:%1");
    app.process_output("%1", b"noise");
    let infos = app.tab_infos();
    assert!(!infos[0].activity);
    assert!(infos[1].activity);
    app.set_active("@2");
    let infos = app.tab_infos();
    assert!(!infos[1].activity);
}

#[test]
fn add_remove_and_navigate_tabs() {
    let mut app = App::new(80, 24);
    app.add_tab("@1", "%0", "one");
    app.add_tab("@2", "%1", "two");
    app.add_tab("@1", "%9", "dup"); // already known: ignored
    assert_eq!(app.tab_count(), 2);
    app.set_active("@1");
    assert_eq!(app.next_window_id(), Some("@2"));
    assert_eq!(app.prev_window_id(), Some("@2"));
    assert_eq!(app.window_id_by_index(1), Some("@1"));
    assert_eq!(app.window_id_by_index(3), None);
    app.remove_tab("@1"); // the active one: the first remaining takes over
    assert_eq!(app.active_window_id(), Some("@2"));
    app.rename_tab("@2", "renamed");
    assert_eq!(app.tab_infos()[0].name, "renamed");
}

#[test]
fn resize_propagates_to_tabs() {
    let mut app = App::new(80, 24);
    app.add_tab("@1", "%0", "one");
    app.resize(40, 12);
    let tab = app.tab_at(0).unwrap();
    assert_eq!(tab.buffer.size(), (40, 12));
}

#[test]
fn handle_event_routes_and_requests() {
    let mut app = App::new(80, 24);
    // A window-list response builds the tabs.
    let follow = app.handle_event(TmuxEvent::CommandResponse {
        id: 1,
        data: String::from("@1:shell:1:%0"),
    });
    assert!(follow.is_none());
    assert_eq!(app.tab_count(), 1);
    // Output reaches the pane's tab.
    app.handle_event(TmuxEvent::Output { pane_id: String::from("%0"), data: b"Z".to_vec() });
    assert_eq!(app.active_tab().unwrap().buffer.get_cell(0, 0).unwrap().character, 'Z');
    // A close updates the registry and asks for a fresh list.
    let follow = app.handle_event(TmuxEvent::WindowClose { window_id: String::from("@1") });
    assert!(follow.unwrap().contains("list-windows"));
    assert_eq!(app.tab_count(), 0);
}

#[test]
fn prefix_key_commands() {
    let mut input = InputHandler::new();
    let ctrl_b = KeyEvent { code: KeyCode::Char('b'), ctrl: true, alt: false, shift: false };
    let plain_c = KeyEvent { code: KeyCode::Char('c'), ctrl: false, alt: false, shift: false };
    assert!(matches!(input.handle_key(ctrl_b), Action::Idle));
    assert_eq!(*input.mode(), InputMode::Prefix);
    assert!(matches!(input.handle_key(plain_c), Action::NewTab));
    assert_eq!(*input.mode(), InputMode::Normal);
    // Number keys select tabs.
    input.handle_key(ctrl_b);
    let three = KeyEvent { code: KeyCode::Char('3'), ctrl: false, alt: false, shift: false };
    assert!(matches!(input.handle_key(three), Action::SelectTab(3)));
    // Ctrl-Q always exits.
    let ctrl_q = KeyEvent { code: KeyCode::Char('q'), ctrl: true, alt: false, shift: false };
    assert!(matches!(input.handle_key(ctrl_q), Action::Exit));
}

#[test]
fn rename_mode_edits_buffer() {
    let mut input = InputHandler::new();
    input.start_rename("shell");
    assert!(input.is_renaming());
    let bs = KeyEvent { code: KeyCode::Backspace, ctrl: false, alt: false, shift: false };
    input.handle_key(bs);
    let key_z = KeyEvent { code: KeyCode::Char('z'), ctrl: false, alt: false, shift: false };
    input.handle_key(key_z);
    assert_eq!(input.rename_buffer(), "shelz");
    let name = input.finish_rename();
    assert_eq!(name, "shelz");
    assert_eq!(*input.mode(), InputMode::Normal);
    input.start_rename("x");
    let esc = KeyEvent { code: KeyCode::Esc, ctrl: false, alt: false, shift: false };
    input.handle_key(esc);
    assert!(!input.is_renaming());
    assert_eq!(input.rename_buffer(), "");
}

#[test]
fn key_translation() {
    let plain = |code| KeyEvent { code, ctrl: false, alt: false, shift: false };
    match key_to_send_action(plain(KeyCode::Char('a'))) {
        Action::SendKey(s) => assert_eq!(s, "-l 'a'"),
        _ => panic!("Expected SendKey"),
    }
    match key_to_send_action(plain(KeyCode::Char('\''))) {
        Action::SendKey(s) => assert_eq!(s, "-l ''\\'''"),
        _ => panic!("Expected SendKey"),
    }
    match key_to_send_action(KeyEvent {
        code: KeyCode::Char('x'),
        ctrl: true,
        alt: false,
        shift: false,
    }) {
        Action::SendKey(s) => assert_eq!(s, "C-x"),
        _ => panic!("Expected SendKey"),
    }
    match key_to_send_action(plain(KeyCode::Enter)) {
        Action::SendKey(s) => assert_eq!(s, "Enter"),
        _ => panic!("Expected SendKey"),
    }
    match key_to_send_action(KeyEvent {
        code: KeyCode::Tab,
        ctrl: false,
        alt: false,
        shift: true,
    }) {
        Action::SendKey(s) => assert_eq!(s, "BTab"),
        _ => panic!("Expected SendKey"),
    }
    match key_to_send_action(plain(KeyCode::F(5))) {
        Action::SendKey(s) => assert_eq!(s, "F5"),
        _ => panic!("Expected SendKey"),
    }
    assert!(matches!(key_to_send_action(plain(KeyCode::Other)), Action::Idle));
}

#[test]
fn mouse_translation() {
    let cmd = mouse_event_to_tmux("%1", MouseEventKind::Down(MouseButton::Left), 4, 9).unwrap();
    assert_eq!(cmd, "send-keys -t %1 -l $'\\e[<0;5;10M'");
    let cmd = mouse_event_to_tmux("%1", MouseEventKind::Up(MouseButton::Right), 0, 0).unwrap();
    assert_eq!(cmd, "send-keys -t %1 -l $'\\e[<2;1;1m'");
    let cmd = mouse_event_to_tmux("%1", MouseEventKind::ScrollDown, 10, 10).unwrap();
    assert_eq!(cmd, "send-keys -t %1 -l $'\\e[<65;11;11M'");
    assert!(mouse_event_to_tmux("%1", MouseEventKind::Moved, 1, 1).is_none());
}

#[test]
fn actions_become_commands() {
    let mut app = App::new(80, 24);
    app.process_window_list("@1:one:1:%0\n@2:two:0:%1");
    let out = command_for_action(&app, &Action::NewTab);
    assert_eq!(out.command.unwrap(), "new-window");
    let out = command_for_action(&app, &Action::CloseTab);
    assert_eq!(out.command.unwrap(), "kill-window -t @1");
    let out = command_for_action(&app, &Action::NextTab);
    assert_eq!(out.command.unwrap(), "select-window -t @2");
    let out = command_for_action(&app, &Action::SelectTab(2));
    assert_eq!(out.command.unwrap(), "select-window -t @2");
    let out = command_for_action(&app, &Action::Detach);
    assert_eq!(out.command.unwrap(), "detach-client");
    assert!(out.exit);
    let out = command_for_action(&app, &Action::SendKey(String::from("Enter")));
    assert_eq!(out.command.unwrap(), "send-keys -t %0 Enter");
    let out = command_for_action(&app, &Action::SendCtrlB);
    assert_eq!(out.command.unwrap(), "send-keys -t %0 C-b");
    let out = command_for_action(&app, &Action::StartRename);
    assert!(out.start_rename);
}
