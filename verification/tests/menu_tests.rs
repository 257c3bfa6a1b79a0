use tachyonfx::SimpleRng;
use yazi_fm::menu::{accent_hue, accent_hues, hue_of_draw, EffectsRepository, Menu, PointerTarget, Rect};
use yazi_fm::theme::{ChatTheme, Color};

fn accents() -> [Color; 4] {
    [Color::Rgb(1, 1, 1), Color::Rgb(2, 2, 2), Color::Rgb(3, 3, 3), Color::Rgb(4, 4, 4)]
}

fn palette() -> Menu {
    Menu::new(ChatTheme::dark_fallback(), SimpleRng::new(42), accents())
}

fn titles(menu: &Menu) -> Vec<String> {
    menu.menu_items.iter().map(|(t, _)| t.clone()).collect()
}

#[test]
fn new_lists_the_main_palette() {
    let menu = palette();
    assert_eq!(menu.menu_items.len(), 26);
    assert_eq!(menu.menu_items[0], ("1. Theme".to_string(), String::new()));
    assert_eq!(menu.menu_items[2].0, "3. Providers");
    assert_eq!(menu.menu_items[25].0, "26. Hooks & Events");
    assert_eq!(menu.main_menu.len(), 26);
    assert_eq!(menu.submenus.len(), 26);
    assert_eq!(menu.submenus[10].len(), 27);
    assert_eq!(menu.selected_menu_item, 0);
    assert_eq!(menu.hovered_menu_item, None);
    assert_eq!(menu.current_submenu, None);
    assert_eq!(menu.scroll_offset, 0);
    assert!(menu.menu_item_areas.is_empty());
    assert_eq!(menu.menu_area, Rect { x: 0, y: 0, width: 0, height: 0 });
    assert_eq!(menu.last_tick.as_millis(), 0);
    assert_eq!(menu.auto_cycle_timer.as_millis(), 0);
}

#[test]
fn opening_effect_is_one_of_the_opening_effects() {
    let names = [
        "sweep in left to right",
        "sweep in right to left",
        "sweep in top to bottom",
        "sweep in bottom to top",
        "slide in from bottom",
        "slide in from top",
        "slide in from left",
        "slide in from right",
        "expand vertical",
        "expand horizontal",
        "coalesce",
    ];
    let menu = palette();
    assert!(names.contains(&menu.active_effect.0));
}

#[test]
fn effect_picks_follow_the_draw() {
    let repo = EffectsRepository::new(Color::Rgb(0, 0, 0), accents());
    assert_eq!(repo.opening_effect_for(0).0, "sweep in left to right");
    assert_eq!(repo.opening_effect_for(10).0, "coalesce");
    assert_eq!(repo.opening_effect_for(11).0, "sweep in left to right");
    assert_eq!(repo.opening_effect_for(19).0, "expand vertical");
    assert_eq!(repo.closing_effect_for(0).0, "sweep out down to up");
    assert_eq!(repo.closing_effect_for(9).0, "shrink horizontal");
    assert_eq!(repo.closing_effect_for(22).0, "sweep out left to right");
    let picked = repo.opening_effect_for(8);
    assert_eq!(picked.1.name(), "Expand");
    let closing = repo.closing_effect_for(2);
    assert_eq!(closing.1.name(), "sweep_out");
}

#[test]
fn hues_stay_below_360() {
    assert_eq!(hue_of_draw(0), 0);
    assert_eq!(hue_of_draw(359), 359);
    assert_eq!(hue_of_draw(360), 0);
    assert_eq!(hue_of_draw(725), 5);
    let mut rng = SimpleRng::new(3);
    for _ in 0..100 {
        assert!(accent_hue(&mut rng) < 360);
    }
}

#[test]
fn pick_effects_restart_the_cycle_timer() {
    let mut menu = palette();
    menu.update(1500);
    assert_eq!(menu.last_tick.as_millis(), 1500);
    menu.pick_closing_effect(accents());
    assert!(menu.active_effect.0.contains("out") || menu.active_effect.0.starts_with("shrink"));
    assert_eq!(menu.auto_cycle_timer.as_millis(), 0);
    menu.pick_opening_effect(accents());
    assert!(!menu.active_effect.0.contains("out"));
    assert_eq!(menu.last_tick.as_millis(), 1500);
}

#[test]
fn update_cuts_the_elapsed_time_to_u32() {
    let mut menu = palette();
    menu.update((1u128 << 32) + 7);
    assert_eq!(menu.last_tick.as_millis(), 7);
}

#[test]
fn next_and_prev_wrap_around() {
    let mut menu = palette();
    menu.select_prev_menu_item();
    assert_eq!(menu.selected_menu_item, 25);
    menu.select_next_menu_item();
    assert_eq!(menu.selected_menu_item, 0);
    menu.select_next_menu_item();
    menu.select_next_menu_item();
    assert_eq!(menu.selected_menu_item, 2);
    menu.select_prev_menu_item();
    assert_eq!(menu.selected_menu_item, 1);
}

#[test]
fn next_then_prev_returns_to_the_same_item() {
    let mut menu = palette();
    for start in [0usize, 7, 25] {
        menu.selected_menu_item = start;
        menu.select_next_menu_item();
        menu.select_prev_menu_item();
        assert_eq!(menu.selected_menu_item, start);
    }
}

#[test]
fn moving_down_once_per_item_comes_back() {
    let mut menu = palette();
    menu.selected_menu_item = 4;
    for _ in 0..26 {
        menu.select_next_menu_item();
    }
    assert_eq!(menu.selected_menu_item, 4);
}

#[test]
fn paging_stops_at_the_ends() {
    let mut menu = palette();
    menu.page_down(10);
    assert_eq!(menu.selected_menu_item, 10);
    menu.page_down(10);
    assert_eq!(menu.selected_menu_item, 20);
    menu.page_down(10);
    assert_eq!(menu.selected_menu_item, 25);
    menu.page_up(10);
    assert_eq!(menu.selected_menu_item, 15);
    menu.page_up(20);
    assert_eq!(menu.selected_menu_item, 0);
    menu.jump_to_bottom();
    assert_eq!(menu.selected_menu_item, 25);
    menu.jump_to_top();
    assert_eq!(menu.selected_menu_item, 0);
}

#[test]
fn enter_submenu_lists_back_then_the_entries() {
    let mut menu = palette();
    menu.selected_menu_item = 5;
    menu.enter_submenu(0);
    assert_eq!(menu.current_submenu, Some(0));
    assert_eq!(menu.selected_menu_item, 0);
    assert_eq!(menu.menu_items.len(), 10);
    assert_eq!(titles(&menu)[0], "Back");
    assert_eq!(menu.menu_items[0].1, "");
    assert_eq!(titles(&menu)[1], "1. Theme Selector");
    assert_eq!(titles(&menu)[9], "9. Transparency");
}

#[test]
fn enter_submenu_out_of_range_changes_nothing() {
    let mut menu = palette();
    menu.selected_menu_item = 3;
    menu.enter_submenu(26);
    assert_eq!(menu.current_submenu, None);
    assert_eq!(menu.selected_menu_item, 3);
    assert_eq!(menu.menu_items.len(), 26);
}

#[test]
fn back_entry_returns_to_the_main_palette() {
    let mut menu = palette();
    menu.selected_menu_item = 2;
    assert!(menu.select_current_item());
    assert_eq!(menu.current_submenu, Some(2));
    assert_eq!(titles(&menu)[1], "1. OpenAI Provider");
    menu.select_next_menu_item();
    assert!(!menu.select_current_item());
    assert_eq!(menu.current_submenu, Some(2));
    menu.jump_to_top();
    assert!(menu.select_current_item());
    assert_eq!(menu.current_submenu, None);
    assert_eq!(menu.menu_items.len(), 26);
    assert_eq!(menu.selected_menu_item, 0);
}

#[test]
fn go_back_to_main_resets_the_list() {
    let mut menu = palette();
    menu.enter_submenu(10);
    menu.selected_menu_item = 12;
    menu.scroll_offset = 4;
    menu.hovered_menu_item = Some(3);
    menu.go_back_to_main();
    assert_eq!(menu.current_submenu, None);
    assert_eq!(menu.selected_menu_item, 0);
    assert_eq!(menu.scroll_offset, 0);
    assert_eq!(menu.hovered_menu_item, None);
    assert_eq!(titles(&menu)[3], "4. Worktree");
}

#[test]
fn render_lays_out_a_centred_box() {
    let mut menu = palette();
    let frame = menu.render_in_area(Rect { x: 0, y: 0, width: 100, height: 40 });
    assert_eq!(frame.content_area, Rect { x: 15, y: 5, width: 70, height: 30 });
    assert_eq!(frame.padded_area, Rect { x: 17, y: 6, width: 66, height: 28 });
    assert_eq!(menu.menu_area, frame.content_area);
    assert_eq!(frame.title, " Command Palette (26 items) ");
    assert_eq!(frame.lines.len(), 28);
    assert_eq!(frame.lines[0].text, format!("{:<66}", " 1. Theme"));
    assert_eq!(frame.lines[0].fg, Some(Color::Rgb(0, 0, 0)));
    assert_eq!(frame.lines[0].bg, Color::Rgb(0, 201, 80));
    assert!(frame.lines[0].bold);
    assert_eq!(frame.lines[1].fg, Some(Color::Rgb(255, 255, 255)));
    assert_eq!(frame.lines[1].bg, Color::Rgb(9, 9, 9));
    assert!(!frame.lines[1].bold);
    assert_eq!(frame.lines[26].text, " ".repeat(66));
    assert_eq!(frame.lines[26].fg, None);
    assert_eq!(menu.menu_item_areas.len(), 26);
    assert_eq!(menu.menu_item_areas[3], Rect { x: 17, y: 9, width: 66, height: 1 });
    assert_eq!(frame.border, Color::Rgb(36, 36, 36));
    assert_eq!(frame.title_fg, Color::Rgb(0, 201, 80));
    assert_eq!(frame.background, Color::Rgb(9, 9, 9));
}

#[test]
fn render_cuts_long_lines_and_scrolls_to_the_selection() {
    let mut menu = palette();
    menu.selected_menu_item = 9;
    menu.hovered_menu_item = Some(6);
    let frame = menu.render_in_area(Rect { x: 0, y: 0, width: 20, height: 10 });
    assert_eq!(frame.content_area, Rect { x: 3, y: 1, width: 14, height: 7 });
    assert_eq!(frame.padded_area, Rect { x: 5, y: 2, width: 10, height: 5 });
    assert_eq!(menu.scroll_offset, 5);
    assert_eq!(frame.lines.len(), 5);
    assert_eq!(frame.lines[0].text, " 6. Mod...");
    assert_eq!(frame.lines[4].text, " 10. Pr...");
    assert!(frame.lines[4].bold);
    assert_eq!(frame.lines[1].bg, Color::Rgb(0, 201, 80));
    assert!(!frame.lines[1].bold);
    assert_eq!(menu.menu_item_areas.len(), 5);
}

#[test]
fn theme_submenu_title_shows_the_mode() {
    let mut menu = palette();
    menu.enter_submenu(0);
    let frame = menu.render_in_area(Rect { x: 0, y: 0, width: 100, height: 40 });
    assert_eq!(frame.title, " Theme - Dark Mode ");
    let mut light = Menu::new(ChatTheme::light_fallback(), SimpleRng::new(7), accents());
    light.enter_submenu(0);
    let frame = light.render_in_area(Rect { x: 0, y: 0, width: 100, height: 40 });
    assert_eq!(frame.title, " Theme - Light Mode ");
    light.enter_submenu(1);
    let frame = light.render_in_area(Rect { x: 0, y: 0, width: 100, height: 40 });
    assert_eq!(frame.title, " Keyboard Shortcuts (8 items) ");
}

#[test]
fn accent_hues_are_four_draws_in_order() {
    let mut rng = SimpleRng::new(11);
    let mut same = SimpleRng::new(11);
    let hues = accent_hues(&mut rng);
    let expected = [accent_hue(&mut same), accent_hue(&mut same), accent_hue(&mut same), accent_hue(&mut same)];
    assert_eq!(hues, expected);
    assert!(hues.iter().all(|h| *h < 360));
    let mut menu = palette();
    let mut twin = SimpleRng::new(42);
    let _ = accent_hue(&mut twin);
    let drawn = menu.next_accent_hues();
    assert_eq!(drawn, accent_hues(&mut twin));
}

#[test]
fn render_title_of_a_submenu_drops_the_numbering() {
    let mut menu = palette();
    menu.enter_submenu(13);
    let frame = menu.render_in_area(Rect { x: 0, y: 0, width: 100, height: 40 });
    assert_eq!(frame.title, " Memory & History (4 items) ");
    assert_eq!(frame.lines[0].text.trim_end(), " Back");
}

#[test]
fn render_scrolls_back_up_to_the_selection() {
    let mut menu = palette();
    menu.scroll_offset = 20;
    menu.selected_menu_item = 3;
    let _ = menu.render_in_area(Rect { x: 0, y: 0, width: 20, height: 10 });
    assert_eq!(menu.scroll_offset, 3);
}

#[test]
fn pointer_selects_and_hovers_rows() {
    let mut menu = palette();
    let _ = menu.render_in_area(Rect { x: 0, y: 0, width: 20, height: 10 });
    assert!(menu.handle_mouse(5, 3, false));
    assert_eq!(menu.hovered_menu_item, Some(1));
    assert!(!menu.handle_mouse(6, 3, false));
    assert!(menu.handle_mouse(5, 4, true));
    assert_eq!(menu.selected_menu_item, 2);
    assert!(menu.handle_mouse(0, 0, false));
    assert_eq!(menu.hovered_menu_item, None);
    assert!(!menu.handle_mouse(0, 0, false));
    menu.hovered_menu_item = Some(2);
    assert!(menu.handle_mouse(3, 1, false));
    assert_eq!(menu.hovered_menu_item, None);
}

#[test]
fn pointer_target_names_the_row_under_the_pointer() {
    let area = Rect { x: 0, y: 0, width: 10, height: 10 };
    let rows = vec![Rect { x: 1, y: 1, width: 5, height: 1 }, Rect { x: 1, y: 2, width: 5, height: 1 }];
    assert_eq!(yazi_fm::menu::pointer_target(&area, &rows, 3, 2, 2), PointerTarget::Row(4));
    assert_eq!(yazi_fm::menu::pointer_target(&area, &rows, 3, 8, 2), PointerTarget::Gap);
    assert_eq!(yazi_fm::menu::pointer_target(&area, &rows, 3, 11, 2), PointerTarget::Outside);
}

#[test]
fn page_down_by_any_amount_stops_at_the_last_item() {
    let mut menu = palette();
    menu.selected_menu_item = 3;
    menu.page_down(usize::MAX);
    assert_eq!(menu.selected_menu_item, 25);
    menu.page_down(usize::MAX);
    assert_eq!(menu.selected_menu_item, 25);
}
