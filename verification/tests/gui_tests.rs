use tivra::layout::{
    resize_grid, resize_handle, shows_custom_chrome, sidebar_entries, sidebar_header_buttons,
    titlebar_buttons, titlebar_drag_message, titlebar_shade, Extent, ResizeCursor, TitleShade,
};
use tivra::{
    configured_language, languages_in_paths, message_for_event, AppDirs, Effect, GlobalMessage,
    GuiLanguage, GuiState, Icon, InputEvent, Message, Page, ResizeDirection, ScaleFactorShortcut,
    ScreenPoint, Shell, ShowDownloads, WindowCommand, WindowEvent, WindowPosition, WindowSize,
};

fn state() -> GuiState {
    GuiState {
        maximized: false,
        size: WindowSize { width: 1024f32.to_bits(), height: 768f32.to_bits() },
        position: WindowPosition::Default,
        sidebar_collapsed: false,
        sidebar_width: 192f32.to_bits(),
    }
}

#[test]
fn test_get_available_languages() {
    let paths: Vec<String> = vec![
        "en-US/main.ftl", "hi/main.ftl", "en-US/sidebar.ftl", "de/main.ftl", "not a language!/x.ftl",
        "top-level.ftl",
    ]
    .into_iter()
    .map(String::from)
    .collect();
    let languages = languages_in_paths(&paths);
    let mut sorted = languages.clone();
    sorted.sort();
    assert_eq!(languages, sorted);
    assert!(languages.contains(&"en-US".to_string()));
    assert!(languages.contains(&"hi".to_string()));
    assert!(languages.contains(&"de".to_string()));
    assert!(!languages.contains(&"not a language!".to_string()));
    assert_eq!(languages.iter().filter(|l| l.as_str() == "en-US").count(), 1);
    assert!(languages_in_paths(&Vec::new()).is_empty());
}

#[test]
fn language_choice() {
    let available = vec!["en".to_string(), "hi".to_string()];
    assert_eq!(configured_language(Some(GuiLanguage::Hi), &available), Some(GuiLanguage::Hi));
    assert_eq!(configured_language(None, &available), None);
    let only_en = vec!["en".to_string()];
    assert_eq!(configured_language(Some(GuiLanguage::Hi), &only_en), None);
    assert_eq!(configured_language(Some(GuiLanguage::En), &only_en), Some(GuiLanguage::En));
}

#[test]
fn reducer_records_window_events() {
    let mut shell = Shell::new(state(), None);
    assert!(shell.focused);
    assert_eq!(shell.current_page, Page::Home(ShowDownloads::All));
    assert!(!shell.sidebar_open);

    let p = ScreenPoint { x: 10f32.to_bits(), y: 20f32.to_bits() };
    assert!(matches!(shell.handle_global_messages(GlobalMessage::Event(WindowEvent::Moved(p))), Effect::Nothing));
    assert_eq!(shell.gui_state.position, WindowPosition::Specific(p.x, p.y));

    let big = WindowSize { width: 2000f32.to_bits(), height: 1000f32.to_bits() };
    let effect = shell.handle_global_messages(GlobalMessage::Event(WindowEvent::Resized(big)));
    assert!(matches!(effect, Effect::QueryMaximized(s) if s == big));

    shell.handle_global_messages(GlobalMessage::Event(WindowEvent::ResizedInner(big, true)));
    assert!(shell.gui_state.maximized);
    assert_eq!(shell.gui_state.size, state().size);

    shell.handle_global_messages(GlobalMessage::Event(WindowEvent::ResizedInner(big, false)));
    assert!(!shell.gui_state.maximized);
    assert_eq!(shell.gui_state.size, big);

    shell.handle_global_messages(GlobalMessage::Event(WindowEvent::Unfocused));
    assert!(!shell.focused);
    shell.handle_global_messages(GlobalMessage::Event(WindowEvent::Focused));
    assert!(shell.focused);

    let effect = shell.handle_global_messages(GlobalMessage::Event(WindowEvent::ScaleFactorShortcut(ScaleFactorShortcut::Increase)));
    assert!(matches!(effect, Effect::Rescale(ScaleFactorShortcut::Increase)));
}

#[test]
fn reducer_close_flow() {
    let mut without_dirs = Shell::new(state(), None);
    let effect = without_dirs.handle_global_messages(GlobalMessage::Event(WindowEvent::CloseRequested));
    assert!(matches!(effect, Effect::Deliver(Message::Global(GlobalMessage::Command(WindowCommand::Close)))));

    let mut with_dirs = Shell::new(state(), Some(AppDirs::local("/w")));
    match with_dirs.handle_global_messages(GlobalMessage::Event(WindowEvent::CloseRequested)) {
        Effect::PersistAndClose { state_file, config_file } => {
            assert_eq!(state_file, "/w/.tivra/state/gui_state.toml");
            assert_eq!(config_file, "/w/.tivra/config/gui_config.toml");
        }
        _ => panic!("expected the state to be saved"),
    }

    let effect = with_dirs.update(Message::Global(GlobalMessage::Command(WindowCommand::CloseRequest)));
    assert!(matches!(effect, Effect::Deliver(Message::Global(GlobalMessage::Event(WindowEvent::CloseRequested)))));
    assert!(matches!(with_dirs.update(Message::Animate), Effect::Nothing));
}

#[test]
fn reducer_commands() {
    let mut shell = Shell::new(state(), None);
    let cmd = |c| GlobalMessage::Command(c);
    assert!(matches!(shell.handle_global_messages(cmd(WindowCommand::Close)), Effect::CloseWindow));
    assert!(matches!(shell.handle_global_messages(cmd(WindowCommand::DragStart)), Effect::DragWindow));
    assert!(matches!(shell.handle_global_messages(cmd(WindowCommand::Minimize)), Effect::Minimize));
    assert!(matches!(shell.handle_global_messages(cmd(WindowCommand::ToggleMaximize(true))), Effect::SetMaximized(false)));
    assert!(matches!(shell.handle_global_messages(cmd(WindowCommand::ToggleMaximize(false))), Effect::SetMaximized(true)));
    assert!(matches!(
        shell.handle_global_messages(cmd(WindowCommand::DragResize(ResizeDirection::SouthWest))),
        Effect::DragResize(ResizeDirection::SouthWest)
    ));
    shell.handle_global_messages(cmd(WindowCommand::Navigate(Page::Settings)));
    assert_eq!(shell.current_page, Page::Settings);
    shell.handle_global_messages(cmd(WindowCommand::ToggleSidebar));
    assert!(shell.sidebar_open);
    shell.handle_global_messages(cmd(WindowCommand::ToggleSidebar));
    assert!(!shell.sidebar_open);
}

#[test]
fn events_to_messages() {
    let p = ScreenPoint { x: 1, y: 2 };
    assert_eq!(message_for_event(&InputEvent::WindowMoved(p)), Some(Message::Global(GlobalMessage::Event(WindowEvent::Moved(p)))));
    assert_eq!(message_for_event(&InputEvent::WindowFocused), Some(Message::Global(GlobalMessage::Event(WindowEvent::Focused))));
    assert_eq!(message_for_event(&InputEvent::OtherWindowEvent), None);
    let key = |command_only: bool, c: &str| InputEvent::KeyPressed { command_only, character: Some(c.to_string()) };
    assert_eq!(message_for_event(&key(true, "q")), Some(Message::Global(GlobalMessage::Event(WindowEvent::CloseRequested))));
    assert_eq!(
        message_for_event(&key(true, "=")),
        Some(Message::Global(GlobalMessage::Event(WindowEvent::ScaleFactorShortcut(ScaleFactorShortcut::Increase))))
    );
    assert_eq!(
        message_for_event(&key(true, "-")),
        Some(Message::Global(GlobalMessage::Event(WindowEvent::ScaleFactorShortcut(ScaleFactorShortcut::Decrease))))
    );
    assert_eq!(message_for_event(&key(false, "q")), None);
    assert_eq!(message_for_event(&key(true, "x")), None);
    assert_eq!(message_for_event(&InputEvent::KeyPressed { command_only: true, character: None }), None);
}

#[test]
fn titlebar_and_sidebar() {
    let b = titlebar_buttons(true);
    assert_eq!(b[0].icon, Icon::Minimize);
    assert_eq!(b[1].icon, Icon::Restore);
    assert_eq!(b[1].on_press, Message::Global(GlobalMessage::Command(WindowCommand::ToggleMaximize(true))));
    assert_eq!(b[2].on_press, Message::Global(GlobalMessage::Command(WindowCommand::CloseRequest)));
    assert_eq!(titlebar_buttons(false)[1].icon, Icon::Maximize);
    assert_eq!(titlebar_drag_message(), Message::Global(GlobalMessage::Command(WindowCommand::DragStart)));
    assert_eq!(titlebar_shade(true), TitleShade::Base);
    assert_eq!(titlebar_shade(false), TitleShade::Weakest);
    assert!(shows_custom_chrome(false));
    assert!(!shows_custom_chrome(true));

    let entries = sidebar_entries(Page::Home(ShowDownloads::Paused));
    assert_eq!(entries.len(), 5);
    assert_eq!(entries[2].label, "sidebar-paused");
    assert!(entries[2].selected);
    assert!(!entries[0].selected);
    assert!(!sidebar_entries(Page::About)[4].selected);
    assert!(sidebar_entries(Page::Settings)[3].selected);
    assert_eq!(sidebar_header_buttons()[0].0, Icon::Menu);
}

#[test]
fn resize_handles() {
    let h = resize_handle(ResizeDirection::North);
    assert_eq!((h.width, h.height, h.cursor), (Extent::Fill, Extent::Edge, ResizeCursor::Vertically));
    let h = resize_handle(ResizeDirection::NorthWest);
    assert_eq!((h.width, h.height, h.cursor), (Extent::Corner, Extent::Corner, ResizeCursor::DiagonallyDown));
    let h = resize_handle(ResizeDirection::SouthWest);
    assert_eq!(h.cursor, ResizeCursor::DiagonallyUp);
    let h = resize_handle(ResizeDirection::East);
    assert_eq!((h.width, h.height, h.cursor), (Extent::Edge, Extent::Fill, ResizeCursor::Horizontally));
    let g = resize_grid();
    assert_eq!(g[1][1], None);
    assert_eq!(g[2][2], Some(ResizeDirection::SouthEast));
}
