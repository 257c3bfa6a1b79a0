use yazi_fm::menu::Rect;
use yazi_fm::menu_navigation::Menu;
use yazi_fm::theme::{RgbColor, ThemeColors, ThemeDefinition, ThemeRegistry};

fn colors() -> ThemeColors {
    let c = RgbColor { r: 1, g: 2, b: 3 };
    ThemeColors {
        background: c,
        foreground: c,
        card: c,
        card_foreground: c,
        primary: c,
        primary_foreground: c,
        secondary: c,
        secondary_foreground: c,
        muted: c,
        muted_foreground: c,
        accent: c,
        accent_foreground: c,
        destructive: c,
        destructive_foreground: c,
        border: c,
        input: c,
        ring: c,
    }
}

fn registry() -> ThemeRegistry {
    let def = |name: &str, title: &str| ThemeDefinition {
        name: name.to_string(),
        title: title.to_string(),
        description: String::new(),
        dark: colors(),
        light: colors(),
    };
    ThemeRegistry { themes: vec![def("modern-minimal", "Modern Minimal"), def("t3-chat", "T3 Chat")] }
}

fn palette() -> Menu {
    let main = vec![("1. Theme", ""), ("2. Keyboard Shortcuts", ""), ("3. Providers", "")];
    let subs = vec![
        vec![("unused", "")],
        vec![("1. View Shortcuts", ""), ("2. Edit Shortcuts", "")],
        vec![("1. OpenAI Provider", "")],
    ];
    Menu::new(main, subs, &registry())
}

#[test]
fn new_lists_the_main_entries() {
    let menu = palette();
    assert_eq!(menu.menu_items.len(), 3);
    assert_eq!(menu.menu_items[1].0, "2. Keyboard Shortcuts");
    assert_eq!(menu.themes[1], ("t3-chat".to_string(), "T3 Chat".to_string()));
    assert!(!menu.recording_mode);
    assert_eq!(menu.menu_area, Rect { x: 0, y: 0, width: 0, height: 0 });
}

#[test]
fn theme_submenu_lists_the_toggle_and_numbered_themes() {
    let mut menu = palette();
    menu.enter_submenu(0);
    assert_eq!(menu.current_submenu, Some(0));
    assert_eq!(
        menu.menu_items,
        vec![
            ("Back".to_string(), String::new()),
            ("Toggle Light/Dark Mode".to_string(), "TOGGLE_MODE".to_string()),
            ("1. Modern Minimal".to_string(), "modern-minimal".to_string()),
            ("2. T3 Chat".to_string(), "t3-chat".to_string()),
        ]
    );
}

#[test]
fn shortcut_submenu_lists_the_recording_toggle() {
    let mut menu = palette();
    menu.enter_submenu(1);
    assert_eq!(menu.current_submenu, Some(1));
    assert_eq!(menu.menu_items[1], ("Toggle Recording Mode".to_string(), "TOGGLE_RECORDING".to_string()));
    assert_eq!(menu.menu_items[3].0, "2. Edit Shortcuts");
    menu.selected_menu_item = 1;
    assert!(menu.is_toggle_recording_selected());
    assert_eq!(menu.get_selected_shortcut_index(), None);
    menu.selected_menu_item = 3;
    assert_eq!(menu.get_selected_shortcut_index(), Some(1));
    menu.toggle_recording_mode();
    assert!(menu.recording_mode);
    menu.toggle_recording_mode();
    assert!(!menu.recording_mode);
}

#[test]
fn other_submenus_list_back_and_their_entries() {
    let mut menu = palette();
    menu.enter_submenu(2);
    assert_eq!(menu.menu_items.len(), 2);
    assert_eq!(menu.menu_items[1].0, "1. OpenAI Provider");
    menu.enter_submenu(7);
    assert_eq!(menu.current_submenu, Some(2));
}

#[test]
fn theme_names_of_selection_highlight_and_hover() {
    let mut menu = palette();
    assert_eq!(menu.get_selected_theme_name(), None);
    assert_eq!(menu.get_highlighted_theme_name(), None);
    menu.enter_submenu(0);
    assert_eq!(menu.get_selected_theme_name(), None);
    assert_eq!(menu.get_highlighted_theme_name(), None);
    menu.select_next_menu_item();
    assert!(menu.is_toggle_mode_selected());
    assert_eq!(menu.get_selected_theme_name(), Some("TOGGLE_MODE".to_string()));
    assert_eq!(menu.get_highlighted_theme_name(), None);
    menu.select_next_menu_item();
    assert!(!menu.is_toggle_mode_selected());
    assert_eq!(menu.get_highlighted_theme_name(), Some("modern-minimal".to_string()));
    menu.hovered_menu_item = Some(3);
    assert_eq!(menu.get_hovered_theme_name(), Some("t3-chat".to_string()));
    menu.hovered_menu_item = Some(9);
    assert_eq!(menu.get_hovered_theme_name(), None);
    menu.hovered_menu_item = Some(1);
    assert_eq!(menu.get_hovered_theme_name(), None);
}

#[test]
fn back_entry_returns_to_main() {
    let mut menu = palette();
    assert!(menu.select_current_item());
    assert_eq!(menu.current_submenu, Some(0));
    menu.select_next_menu_item();
    assert!(!menu.select_current_item());
    menu.jump_to_top();
    assert!(menu.select_current_item());
    assert_eq!(menu.current_submenu, None);
    assert_eq!(menu.menu_items.len(), 3);
}

#[test]
fn pointer_hits_rows() {
    let mut menu = palette();
    menu.menu_area = Rect { x: 0, y: 0, width: 20, height: 10 };
    menu.menu_item_areas = vec![
        Rect { x: 2, y: 1, width: 10, height: 1 },
        Rect { x: 2, y: 2, width: 10, height: 1 },
    ];
    assert!(menu.handle_mouse(3, 2, true));
    assert_eq!(menu.selected_menu_item, 1);
    assert!(menu.handle_mouse(3, 1, false));
    assert_eq!(menu.hovered_menu_item, Some(0));
    assert!(menu.handle_mouse(30, 1, false));
    assert_eq!(menu.hovered_menu_item, None);
}

#[test]
fn paging_in_the_themed_palette() {
    let mut menu = palette();
    menu.page_down(10);
    assert_eq!(menu.selected_menu_item, 2);
    menu.page_up(1);
    assert_eq!(menu.selected_menu_item, 1);
    menu.jump_to_bottom();
    assert_eq!(menu.selected_menu_item, 2);
    menu.select_next_menu_item();
    assert_eq!(menu.selected_menu_item, 0);
    menu.select_prev_menu_item();
    assert_eq!(menu.selected_menu_item, 2);
}
