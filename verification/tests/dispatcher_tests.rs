use yazi_fm::dispatcher::{
    find_shortcut, render_flag_after, split_seq, submenu_index, AppMode, ChatState, Dispatcher,
    Event, InputAction, InputMode, KeyRoute, MenuAction, MouseEvent, MouseKind, UiAction,
};
use yazi_fm::keys::{KeyCode, KeyEvent, KeyModifiers};
use yazi_fm::menu::Rect;
use yazi_fm::menu_navigation::Menu;
use yazi_fm::theme::{RgbColor, ThemeColors, ThemeDefinition, ThemeRegistry};

fn colors() -> ThemeColors {
    let c = RgbColor { r: 9, g: 9, b: 9 };
    ThemeColors {
        background: c,
        foreground: c,
        card: c,
        card_foreground: c,
        primary: c,
        primary_foreground: c,
        secondary: c,
        secondary_foreground: c,
        muted: c,
        muted_foreground: c,
        accent: c,
        accent_foreground: c,
        destructive: c,
        destructive_foreground: c,
        border: c,
        input: c,
        ring: c,
    }
}

fn state() -> ChatState {
    let def = |name: &str, title: &str| ThemeDefinition {
        name: name.to_string(),
        title: title.to_string(),
        description: String::new(),
        dark: colors(),
        light: colors(),
    };
    let registry = ThemeRegistry { themes: vec![def("nature", "Nature"), def("mono", "Mono")] };
    let main = vec![("1. Theme", ""), ("2. Keyboard Shortcuts", ""), ("3. Providers", "")];
    let subs = vec![
        vec![],
        vec![("1. Open Palette", ""), ("2. Theme", "")],
        vec![("1. OpenAI Provider", ""), ("2. Anthropic Provider", "")],
    ];
    ChatState {
        menu: Menu::new(main, subs, &registry),
        show_tachyon_menu: false,
        menu_is_closing: false,
        animation_mode: false,
        current_animation_index: 0,
        animation_count: 4,
        splash_animation_index: 2,
        splash_font_index: 0,
        shortcuts: vec![
            (MenuAction::ContextControlPanel, "Ctrl+K".to_string()),
            (MenuAction::Providers, "Ctrl+P".to_string()),
            (MenuAction::Theme, "Ctrl+P".to_string()),
        ],
        mode: AppMode::Chat,
        has_messages: false,
        input_empty: true,
        chat_scroll_offset: 0,
    }
}

fn plain(code: KeyCode) -> KeyEvent {
    KeyEvent { code, modifiers: KeyModifiers { control: false, shift: false, alt: false } }
}

fn ctrl(c: char) -> KeyEvent {
    KeyEvent { code: KeyCode::Char(c), modifiers: KeyModifiers { control: true, shift: false, alt: false } }
}

fn open_palette() -> Dispatcher {
    let mut d = Dispatcher::new(state());
    d.dispatch_key(plain(KeyCode::Char('0')));
    d
}

#[test]
fn new_holds_the_state() {
    let d = Dispatcher::new(state());
    assert_eq!(d.app.animation_count, 4);
    assert!(!d.app.show_tachyon_menu);
}

#[test]
fn submenu_indices_of_shortcut_commands() {
    assert_eq!(submenu_index(MenuAction::ContextControlPanel), 0);
    assert_eq!(submenu_index(MenuAction::Theme), 0);
    assert_eq!(submenu_index(MenuAction::KeyboardShortcuts), 1);
    assert_eq!(submenu_index(MenuAction::Providers), 2);
    assert_eq!(submenu_index(MenuAction::Worktree), 14);
    assert_eq!(submenu_index(MenuAction::FeatureFlags), 24);
}

#[test]
fn zero_opens_and_closes_the_palette() {
    let mut d = Dispatcher::new(state());
    assert_eq!(d.dispatch_key(plain(KeyCode::Char('0'))), vec![UiAction::PickOpeningEffect, UiAction::Render]);
    assert!(d.app.show_tachyon_menu);
    assert!(!d.app.menu_is_closing);
    assert_eq!(d.dispatch_key(plain(KeyCode::Char('0'))), vec![UiAction::PickClosingEffect, UiAction::Render]);
    assert!(!d.app.show_tachyon_menu);
    assert!(d.app.menu_is_closing);
}

#[test]
fn carousel_left_then_right_comes_back() {
    let mut d = Dispatcher::new(state());
    d.app.animation_mode = true;
    assert_eq!(
        d.dispatch_key(plain(KeyCode::Left)),
        vec![UiAction::RestartAnimationClock, UiAction::Render]
    );
    assert_eq!(d.app.current_animation_index, 3);
    d.dispatch_key(plain(KeyCode::Right));
    assert_eq!(d.app.current_animation_index, 0);
    d.app.current_animation_index = 3;
    d.dispatch_key(plain(KeyCode::Right));
    assert_eq!(d.app.current_animation_index, 0);
}

#[test]
fn navigation_keys_move_and_preview_themes() {
    let mut d = open_palette();
    d.dispatch_key(plain(KeyCode::Enter));
    assert_eq!(d.app.menu.current_submenu, Some(0));
    assert_eq!(d.dispatch_key(plain(KeyCode::Char('j'))), vec![UiAction::Render]);
    assert_eq!(
        d.dispatch_key(plain(KeyCode::Down)),
        vec![UiAction::ApplyTheme("nature".to_string()), UiAction::Render]
    );
    assert_eq!(
        d.dispatch_key(plain(KeyCode::End)),
        vec![UiAction::ApplyTheme("mono".to_string()), UiAction::Render]
    );
    assert_eq!(d.dispatch_key(plain(KeyCode::Char('g'))), vec![UiAction::Render]);
    assert_eq!(d.app.menu.selected_menu_item, 0);
    assert_eq!(
        d.dispatch_key(plain(KeyCode::Char('k'))),
        vec![UiAction::ApplyTheme("mono".to_string()), UiAction::Render]
    );
    d.dispatch_key(plain(KeyCode::PageUp));
    assert_eq!(d.app.menu.selected_menu_item, 0);
    d.dispatch_key(plain(KeyCode::PageDown));
    assert_eq!(d.app.menu.selected_menu_item, 3);
    d.dispatch_key(plain(KeyCode::Home));
    d.dispatch_key(plain(KeyCode::Up));
    assert_eq!(d.app.menu.selected_menu_item, 3);
}

#[test]
fn t_toggles_the_mode_only_in_the_theme_submenu() {
    let mut d = open_palette();
    assert_eq!(d.dispatch_key(plain(KeyCode::Char('t'))), vec![UiAction::ForwardKeyToInput]);
    d.dispatch_key(plain(KeyCode::Enter));
    assert_eq!(
        d.dispatch_key(plain(KeyCode::Char('T'))),
        vec![UiAction::ToggleThemeMode, UiAction::Render]
    );
}

#[test]
fn enter_on_toggle_and_on_a_theme() {
    let mut d = open_palette();
    d.dispatch_key(plain(KeyCode::Enter));
    d.dispatch_key(plain(KeyCode::Down));
    assert_eq!(d.dispatch_key(plain(KeyCode::Enter)), vec![UiAction::ToggleThemeMode, UiAction::Render]);
    assert!(d.app.show_tachyon_menu);
    d.dispatch_key(plain(KeyCode::Down));
    assert_eq!(d.dispatch_key(plain(KeyCode::Enter)), vec![UiAction::PickClosingEffect, UiAction::Render]);
    assert!(!d.app.show_tachyon_menu);
    assert!(d.app.menu_is_closing);
}

#[test]
fn enter_in_another_submenu_keeps_the_palette_open() {
    let mut d = open_palette();
    d.dispatch_key(plain(KeyCode::Down));
    d.dispatch_key(plain(KeyCode::Down));
    assert_eq!(d.dispatch_key(plain(KeyCode::Enter)), vec![UiAction::Render]);
    assert_eq!(d.app.menu.current_submenu, Some(2));
    d.dispatch_key(plain(KeyCode::Down));
    assert_eq!(d.dispatch_key(plain(KeyCode::Enter)), vec![UiAction::Render]);
    assert_eq!(d.app.menu.current_submenu, Some(2));
    assert!(d.app.show_tachyon_menu);
}

#[test]
fn esc_and_backspace_go_back_then_close() {
    let mut d = open_palette();
    d.dispatch_key(plain(KeyCode::Enter));
    assert_eq!(d.dispatch_key(plain(KeyCode::Esc)), vec![UiAction::Render]);
    assert_eq!(d.app.menu.current_submenu, None);
    d.dispatch_key(plain(KeyCode::Enter));
    assert_eq!(d.dispatch_key(plain(KeyCode::Backspace)), vec![UiAction::Render]);
    assert_eq!(d.app.menu.current_submenu, None);
    assert_eq!(d.dispatch_key(plain(KeyCode::Esc)), vec![UiAction::PickClosingEffect, UiAction::Render]);
    assert!(!d.app.show_tachyon_menu);
}

#[test]
fn recording_writes_the_pressed_key_as_shortcut() {
    let mut d = open_palette();
    d.dispatch_key(plain(KeyCode::Down));
    d.dispatch_key(plain(KeyCode::Enter));
    assert_eq!(d.app.menu.current_submenu, Some(1));
    d.dispatch_key(plain(KeyCode::Down));
    assert_eq!(d.dispatch_key(plain(KeyCode::Enter)), vec![UiAction::Render]);
    assert!(d.app.menu.recording_mode);
    d.dispatch_key(plain(KeyCode::Down));
    d.dispatch_key(plain(KeyCode::Down));
    assert_eq!(d.app.menu.get_selected_shortcut_index(), Some(1));
    assert_eq!(d.dispatch_key(ctrl('y')), vec![UiAction::Render]);
    assert_eq!(d.app.shortcuts[1], (MenuAction::Providers, "Ctrl+Y".to_string()));
    assert_eq!(d.dispatch_key(plain(KeyCode::Up)), vec![UiAction::Render]);
    assert_eq!(d.app.menu.selected_menu_item, 2);
}

#[test]
fn shortcut_opens_its_submenu() {
    let mut d = Dispatcher::new(state());
    assert_eq!(d.dispatch_key(ctrl('p')), vec![UiAction::PickOpeningEffect, UiAction::Render]);
    assert!(d.app.show_tachyon_menu);
    assert_eq!(d.app.menu.current_submenu, Some(2));
    let mut d = Dispatcher::new(state());
    d.dispatch_key(ctrl('k'));
    assert!(d.app.show_tachyon_menu);
    assert_eq!(d.app.menu.current_submenu, None);
}

#[test]
fn recorded_shortcut_is_found() {
    let mut s = state();
    s.update_keyboard_shortcut(2, "F5".to_string());
    assert_eq!(find_shortcut(&s.shortcuts, &"F5".to_string()), Some(MenuAction::Theme));
    assert_eq!(find_shortcut(&s.shortcuts, &"Ctrl+P".to_string()), Some(MenuAction::Providers));
    assert_eq!(find_shortcut(&s.shortcuts, &"Ctrl+Q".to_string()), None);
    s.update_keyboard_shortcut(7, "F6".to_string());
    assert_eq!(s.shortcuts.len(), 3);
}

#[test]
fn chat_scrolls_when_input_is_empty() {
    let mut d = Dispatcher::new(state());
    d.app.has_messages = true;
    assert_eq!(d.dispatch_key(plain(KeyCode::Up)), vec![UiAction::Render]);
    assert_eq!(d.app.chat_scroll_offset, 0);
    d.dispatch_key(plain(KeyCode::Down));
    d.dispatch_key(plain(KeyCode::Down));
    assert_eq!(d.app.chat_scroll_offset, 2);
    d.dispatch_key(plain(KeyCode::Up));
    assert_eq!(d.app.chat_scroll_offset, 1);
    d.app.input_empty = false;
    assert_eq!(d.dispatch_key(plain(KeyCode::Up)), vec![UiAction::ForwardKeyToInput]);
}

#[test]
fn other_screens_route_keys_to_the_browser() {
    let mut d = Dispatcher::new(state());
    d.app.mode = AppMode::Other;
    assert_eq!(d.dispatch_key(plain(KeyCode::Char('x'))), vec![UiAction::ForwardKeyToBrowser]);
    assert_eq!(d.route_key(&plain(KeyCode::Char('0'))), KeyRoute::ToggleMenu);
}

#[test]
fn input_answers() {
    let d = Dispatcher::new(state());
    assert_eq!(
        d.dispatch_input(InputAction::Submit("hi".to_string())),
        vec![UiAction::AddUserMessage("hi".to_string()), UiAction::Render]
    );
    assert_eq!(d.dispatch_input(InputAction::Exit), vec![UiAction::ExitWithFarewell]);
    assert_eq!(d.dispatch_input(InputAction::Changed), vec![UiAction::Render]);
    assert_eq!(d.dispatch_input(InputAction::PreviousHistory), vec![]);
    assert_eq!(d.dispatch_input(InputAction::NextHistory), vec![]);
    assert_eq!(d.dispatch_input(InputAction::NoOp), vec![UiAction::Render]);
}

fn mouse(kind: MouseKind, column: u16, row: u16) -> MouseEvent {
    MouseEvent { kind, column, row }
}

#[test]
fn pointer_events_with_the_palette_closed_go_to_the_browser() {
    let mut d = Dispatcher::new(state());
    assert_eq!(d.dispatch_mouse(mouse(MouseKind::Down, 1, 1)), vec![UiAction::ForwardMouseToBrowser]);
}

#[test]
fn pointer_events_with_the_palette_open() {
    let mut d = open_palette();
    d.dispatch_key(plain(KeyCode::Enter));
    d.app.menu.menu_area = Rect { x: 0, y: 0, width: 30, height: 10 };
    d.app.menu.menu_item_areas = (0..4).map(|i| Rect { x: 1, y: 1 + i, width: 20, height: 1 }).collect();
    assert_eq!(
        d.dispatch_mouse(mouse(MouseKind::Moved, 2, 3)),
        vec![UiAction::ApplyTheme("nature".to_string()), UiAction::Render, UiAction::ForwardMouseToBrowser]
    );
    assert_eq!(
        d.dispatch_mouse(mouse(MouseKind::Moved, 3, 3)),
        vec![UiAction::Render, UiAction::ForwardMouseToBrowser]
    );
    assert_eq!(
        d.dispatch_mouse(mouse(MouseKind::Down, 2, 2)),
        vec![UiAction::ToggleThemeMode, UiAction::Render]
    );
    assert_eq!(d.dispatch_mouse(mouse(MouseKind::ScrollDown, 0, 0)), vec![UiAction::Render]);
    assert_eq!(d.app.menu.selected_menu_item, 2);
    assert_eq!(d.dispatch_mouse(mouse(MouseKind::ScrollUp, 0, 0)), vec![UiAction::Render]);
    assert_eq!(d.app.menu.selected_menu_item, 1);
    assert_eq!(
        d.dispatch_mouse(mouse(MouseKind::Down, 2, 4)),
        vec![UiAction::PickClosingEffect, UiAction::Render, UiAction::ForwardMouseToBrowser]
    );
    assert!(!d.app.show_tachyon_menu);
}

#[test]
fn timer_cycles_the_splash_font() {
    let mut d = Dispatcher::new(state());
    d.app.animation_mode = true;
    d.app.current_animation_index = 2;
    d.app.splash_font_index = 112;
    assert_eq!(
        d.dispatch_timer(true),
        vec![UiAction::UpdateChat, UiAction::RestartFontClock, UiAction::TickMenu, UiAction::Render]
    );
    assert_eq!(d.app.splash_font_index, 0);
    assert_eq!(d.dispatch_timer(false), vec![UiAction::UpdateChat, UiAction::TickMenu, UiAction::Render]);
    d.app.current_animation_index = 1;
    d.dispatch_timer(true);
    assert_eq!(d.app.splash_font_index, 0);
}

#[test]
fn paste_follows_the_input_mode() {
    let d = Dispatcher::new(state());
    assert_eq!(
        d.dispatch_paste("a".to_string(), true, InputMode::Insert),
        vec![UiAction::TypeIntoInput("a".to_string())]
    );
    assert_eq!(
        d.dispatch_paste("a".to_string(), true, InputMode::Replace),
        vec![UiAction::ReplaceInInput("a".to_string())]
    );
    assert_eq!(d.dispatch_paste("a".to_string(), true, InputMode::Normal), vec![]);
    assert_eq!(d.dispatch_paste("a".to_string(), false, InputMode::Insert), vec![]);
}

#[test]
fn render_requests() {
    assert_eq!(render_flag_after(0, true), 2);
    assert_eq!(render_flag_after(1, true), 1);
    assert_eq!(render_flag_after(2, true), 2);
    assert_eq!(render_flag_after(0, false), 1);
    assert_eq!(render_flag_after(2, false), 1);
    assert_eq!(render_flag_after(render_flag_after(0, false), true), 1);
}

#[test]
fn sequences_split_into_last_and_rest() {
    assert_eq!(split_seq::<u8>(vec![]), (None, None));
    assert_eq!(split_seq(vec![1]), (Some(1), None));
    assert_eq!(split_seq(vec![1, 2, 3]), (Some(3), Some(vec![1, 2])));
}

#[test]
fn dispatch_routes_every_event() {
    let mut d = Dispatcher::new(state());
    assert_eq!(d.dispatch(Event::Render(true)), vec![UiAction::RenderPartial]);
    assert_eq!(d.dispatch(Event::Render(false)), vec![UiAction::Render]);
    assert_eq!(d.dispatch(Event::Resize), vec![UiAction::ReflowBrowser]);
    assert_eq!(d.dispatch(Event::Focus), vec![UiAction::FocusBrowser]);
    assert_eq!(
        d.dispatch(Event::Paste("p".to_string(), true, InputMode::Insert)),
        vec![UiAction::TypeIntoInput("p".to_string())]
    );
    assert_eq!(
        d.dispatch(Event::Key(plain(KeyCode::Char('0')))),
        vec![UiAction::PickOpeningEffect, UiAction::Render]
    );
    assert_eq!(d.dispatch(Event::Timer(false)), vec![UiAction::UpdateChat, UiAction::TickMenu, UiAction::Render]);
    assert_eq!(d.dispatch(Event::Mouse(mouse(MouseKind::Other, 0, 0))), vec![UiAction::ForwardMouseToBrowser]);
}
