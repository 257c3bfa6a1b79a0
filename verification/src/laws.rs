use vstd::prelude::*;

use crate::dispatcher::{
    is_navigation_key, key_outcome, key_route, mouse_outcome, render_flag_spec, shortcut_from,
    shortcut_recorded, ChatState, KeyRoute, MenuAction, MouseEvent, MouseKind, UiAction,
};
use crate::keys::{joined, key_label, modifier_names, KeyCode, KeyEvent, KeyModifiers};
use crate::text::{
    ascii_capital, decimal, digit_char, digits_value, is_ascii_lower, is_digit, item_line,
};
use crate::menu::{
    back_entry, content_rect, drawable, first_hit, padded_rect, pointer_ready, pointer_target_of,
    scrolled_offset,
    Menu as Palette, MenuFrame, PointerTarget, Rect,
};
use crate::menu_navigation::{
    theme_entries, toggle_mode_tag, toggle_recording_tag, Menu as ThemedPalette,
};
use crate::nav::{next_index, prev_index};

verus! {

/// Choosing the back entry of a submenu just opened lists the main palette again,
/// with its first entry selected and no submenu shown.
pub proof fn law_back_entry_returns_to_main(
    start: Palette,
    opened: Palette,
    back: Palette,
    index: usize,
)
    requires
        index < start.submenus@.len(),
        Palette::entered(start, opened, index),
        Palette::item_selected(opened, back),
    ensures
        back.items() == start.main_entries(),
        back.current_submenu is None,
        back.selected_menu_item == 0,
        back.main_menu == start.main_menu,
        back.submenus == start.submenus,
{
}

/// In the palette with theme and shortcut submenus too, choosing the back entry of
/// a submenu just opened lists the main palette again, with its first entry selected.
pub proof fn law_themed_back_entry_returns_to_main(
    start: ThemedPalette,
    opened: ThemedPalette,
    back: ThemedPalette,
    index: usize,
)
    requires
        index <= 1 || index < start.submenus@.len(),
        ThemedPalette::entered(start, opened, index),
        ThemedPalette::item_selected(opened, back),
    ensures
        back.items() == start.main_entries(),
        back.current_submenu is None,
        back.selected_menu_item == 0,
        back.themes == start.themes,
{
}

/// In the main palette, choosing entry `i` opens submenu `i`.
pub proof fn law_choosing_a_category_opens_its_submenu(start: Palette, chosen: Palette)
    requires
        start.current_submenu is None,
        start.selected_menu_item < start.submenus@.len(),
        Palette::item_selected(start, chosen),
    ensures
        chosen.current_submenu == Some(start.selected_menu_item),
        chosen.items()[0] == crate::menu::back_entry(),
        chosen.items().len() == start.submenu_entries(start.selected_menu_item as int).len() + 1,
        chosen.selected_menu_item == 0,
{
    assert(chosen.items()[0] == (seq![crate::menu::back_entry()] + start.submenu_entries(
        start.selected_menu_item as int,
    ))[0]);
}

/// Where the palette is open or closed and no shortcut is being recorded, pressing
/// `0` twice leaves it as open or closed as it was, with the same list.
pub proof fn law_zero_twice_restores_palette(
    s0: ChatState,
    s1: ChatState,
    s2: ChatState,
    key: KeyEvent,
    a1: Seq<UiAction>,
    a2: Seq<UiAction>,
)
    requires
        key.code == KeyCode::Char('0'),
        !(s0.menu.recording_mode && s0.menu.current_submenu == Some(1usize)
            && s0.menu.selected_shortcut() is Some),
        key_outcome(s0, s1, key, a1),
        key_outcome(s1, s2, key, a2),
    ensures
        s2.show_tachyon_menu == s0.show_tachyon_menu,
        s2.menu == s0.menu,
        a1.contains(UiAction::Render),
        a2.contains(UiAction::Render),
{
    assert(key_route(s0, key) == KeyRoute::ToggleMenu);
    assert(key_route(s1, key) == KeyRoute::ToggleMenu);
    assert(a1[1] == UiAction::Render);
    assert(a2[1] == UiAction::Render);
}

/// In the animation carousel, Left and then Right come back to the animation one
/// started from, and nothing else changes.
pub proof fn law_carousel_left_then_right(
    s0: ChatState,
    s1: ChatState,
    s2: ChatState,
    left: KeyEvent,
    right: KeyEvent,
    a1: Seq<UiAction>,
    a2: Seq<UiAction>,
)
    requires
        s0.wf(),
        s0.animation_mode,
        left.code == KeyCode::Left,
        right.code == KeyCode::Right,
        key_outcome(s0, s1, left, a1),
        key_outcome(s1, s2, right, a2),
    ensures
        s2 == s0,
{
    crate::nav::lemma_prev_then_next(s0.current_animation_index as int, s0.animation_count as int);
    crate::nav::lemma_moves_stay_in_list(s0.current_animation_index as int, s0.animation_count as int);
}

proof fn lemma_found_up_to(shortcuts: Seq<(MenuAction, String)>, index: int, label: String, i: int)
    requires
        0 <= i <= index < shortcuts.len(),
        shortcuts[index].1@ == label@,
    ensures
        shortcut_from(shortcuts, label@, i) is Some,
        (forall|j: int| i <= j < index ==> (#[trigger] shortcuts[j]).1@ != label@) ==> shortcut_from(
            shortcuts,
            label@,
            i,
        ) == Some(shortcuts[index].0),
    decreases index - i,
{
    if i < index {
        lemma_found_up_to(shortcuts, index, label, i + 1);
    }
}

/// A shortcut just recorded is found when its key is pressed: the table answers
/// that key with a command (the first one written that way), and with the command
/// whose shortcut was recorded where no earlier entry is written that way.
pub proof fn law_recorded_shortcut_is_found(
    shortcuts: Seq<(MenuAction, String)>,
    index: int,
    label: String,
)
    requires
        0 <= index < shortcuts.len(),
    ensures
        shortcut_from(shortcut_recorded(shortcuts, index, label), label@, 0) is Some,
        (forall|j: int| 0 <= j < index ==> (#[trigger] shortcuts[j]).1@ != label@) ==> shortcut_from(
            shortcut_recorded(shortcuts, index, label),
            label@,
            0,
        ) == Some(shortcuts[index].0),
{
    let recorded = shortcut_recorded(shortcuts, index, label);
    assert forall|j: int| 0 <= j < index implies #[trigger] recorded[j] == shortcuts[j] by {}
    lemma_found_up_to(recorded, index, label, 0);
}

/// Drawing a list with at least one row scrolls it so that the selected item is
/// among the rows shown.
pub proof fn law_selection_shown_after_drawing(offset: int, selected: int, visible: int)
    requires
        0 <= offset,
        0 <= selected,
        0 < visible,
    ensures
        scrolled_offset(offset, selected, visible) <= selected < scrolled_offset(offset, selected, visible)
            + visible,
{
}

/// A full drawing request is not weakened by a later partial one, and asking for
/// the same drawing twice is asking once.
pub proof fn law_render_requests(current: u8, partial: bool)
    ensures
        render_flag_spec(render_flag_spec(current, false), true) == 1,
        render_flag_spec(render_flag_spec(current, partial), partial) == render_flag_spec(
            current,
            partial,
        ),
{
}

/// In the theme submenu, each key that moves the selection previews the theme
/// that ends up highlighted, if any, and then draws; the palette stays on the
/// theme list.
pub proof fn law_theme_navigation_previews(
    s0: ChatState,
    s1: ChatState,
    key: KeyEvent,
    actions: Seq<UiAction>,
)
    requires
        s0.show_tachyon_menu,
        s0.menu.current_submenu == Some(0usize),
        is_navigation_key(key.code),
        key.code != KeyCode::Esc,
        key.code != KeyCode::Enter,
        key_outcome(s0, s1, key, actions),
    ensures
        s1.menu.current_submenu == Some(0usize),
        s1.menu.menu_items == s0.menu.menu_items,
        s1.show_tachyon_menu,
        s1.menu.highlighted_theme() matches Some(name) ==> actions == seq![
            UiAction::ApplyTheme(name),
            UiAction::Render,
        ],
        s1.menu.highlighted_theme() is None ==> actions == seq![UiAction::Render],
{
}

/// In the theme submenu, Enter on a theme entry confirms the theme that its
/// highlighting previewed and closes the palette.
pub proof fn law_enter_on_theme_closes_palette(
    s0: ChatState,
    s1: ChatState,
    key: KeyEvent,
    actions: Seq<UiAction>,
)
    requires
        s0.show_tachyon_menu,
        s0.menu.current_submenu == Some(0usize),
        s0.menu.selected_menu_item > 0,
        s0.menu.highlighted_theme() is Some,
        key.code == KeyCode::Enter,
        key_outcome(s0, s1, key, actions),
    ensures
        s0.menu.selected_theme() == s0.menu.highlighted_theme(),
        !s1.show_tachyon_menu,
        s1.menu_is_closing,
        s1.menu == s0.menu,
        actions == seq![UiAction::PickClosingEffect, UiAction::Render],
{
}

/// In a submenu, Esc (or Backspace, where no shortcut is being recorded) lists the
/// main palette again, with its first entry selected, and keeps the palette open.
pub proof fn law_esc_in_submenu_returns_to_main(
    s0: ChatState,
    s1: ChatState,
    key: KeyEvent,
    actions: Seq<UiAction>,
)
    requires
        s0.show_tachyon_menu,
        s0.menu.current_submenu is Some,
        key.code == KeyCode::Esc || (key.code == KeyCode::Backspace && !s0.menu.recording_mode),
        key_outcome(s0, s1, key, actions),
    ensures
        s1.menu.items() == s0.menu.main_entries(),
        s1.menu.current_submenu is None,
        s1.menu.selected_menu_item == 0,
        s1.show_tachyon_menu,
        actions == seq![UiAction::Render],
{
}

/// In the theme submenu just opened, the entry after the two fixed ones that
/// stands for theme `k` previews that theme, by its name.
pub proof fn law_theme_entry_previews_its_theme(start: ThemedPalette, opened: ThemedPalette, k: int)
    requires
        ThemedPalette::entered(start, opened, 0),
        0 <= k < start.themes@.len(),
        start.themes@[k].0@.len() > 0,
        start.themes@[k].0@ != toggle_mode_tag(),
    ensures
        (ThemedPalette { selected_menu_item: (k + 2) as usize, ..opened }).highlighted_theme() matches Some(
            name,
        ) && name@ == start.themes@[k].0@,
{
    let items = opened.items();
    assert(items.len() == opened.menu_items@.len());
    assert(opened.menu_items@.len() == opened.menu_items.len());
    assert(items[k + 2] == crate::menu_navigation::theme_entries(start.themes@)[k]);
    assert(items[k + 2] == (opened.menu_items@[k + 2].0@, opened.menu_items@[k + 2].1@));
}

/// With the palette open, moving the pointer onto another entry of the theme
/// submenu previews that entry's theme before drawing.
pub proof fn law_hover_previews_theme(
    s0: ChatState,
    s1: ChatState,
    mouse: MouseEvent,
    actions: Seq<UiAction>,
)
    requires
        s0.show_tachyon_menu,
        mouse.kind == MouseKind::Moved,
        mouse_outcome(s0, s1, mouse, actions),
        s1.menu.hovered_menu_item != s0.menu.hovered_menu_item,
        s1.menu.hovered_theme() is Some,
    ensures
        actions == seq![
            UiAction::ApplyTheme(s1.menu.hovered_theme()->0),
            UiAction::Render,
            UiAction::ForwardMouseToBrowser,
        ],
{
}

/// With the palette open on the theme submenu, clicking the row of a theme entry
/// confirms that theme and closes the palette; the click also goes on to the file
/// browser.
pub proof fn law_click_on_theme_closes_palette(
    s0: ChatState,
    s1: ChatState,
    mouse: MouseEvent,
    actions: Seq<UiAction>,
    idx: usize,
)
    requires
        s0.show_tachyon_menu,
        s0.menu.current_submenu == Some(0usize),
        mouse.kind == MouseKind::Down,
        pointer_target_of(
            s0.menu.menu_area,
            s0.menu.menu_item_areas@,
            s0.menu.scroll_offset as int,
            mouse.column as int,
            mouse.row as int,
        ) == PointerTarget::Row(idx),
        idx > 0,
        s0.menu.theme_name_at(idx as int) is Some,
        mouse_outcome(s0, s1, mouse, actions),
    ensures
        !s1.show_tachyon_menu,
        s1.menu_is_closing,
        s1.menu.selected_menu_item == idx,
        actions == seq![
            UiAction::PickClosingEffect,
            UiAction::Render,
            UiAction::ForwardMouseToBrowser,
        ],
{
}

/// An ASCII letter and its capital, with the same modifiers held, are written as
/// the same shortcut: the held modifiers in the order Ctrl, Shift, Alt, then the
/// capital, joined by `+`.
pub proof fn law_ascii_letter_and_capital_share_label(c: char, modifiers: KeyModifiers)
    requires
        is_ascii_lower(c),
    ensures
        key_label(KeyEvent { code: KeyCode::Char(c), modifiers }) == key_label(
            KeyEvent { code: KeyCode::Char(ascii_capital(c)), modifiers },
        ),
        key_label(KeyEvent { code: KeyCode::Char(c), modifiers }) == joined(
            modifier_names(modifiers).push(seq![ascii_capital(c)]),
            "+"@,
        ),
{
}

/// Drawing a well-formed palette in an area that its geometry fits keeps it well
/// formed and leaves it ready for the pointer: its box and row areas fit in the
/// terminal's cells, and the row areas name items that it lists.
pub proof fn law_drawn_palette_is_ready_for_the_pointer(
    old: Palette,
    new: Palette,
    area: Rect,
    frame: MenuFrame,
)
    requires
        old.wf(),
        drawable(area),
        Palette::drawn(old, new, area, frame),
    ensures
        new.wf(),
        new.areas_current(),
        pointer_ready(new.menu_area, new.menu_item_areas@, new.scroll_offset as int),
{
    let content = content_rect(area);
    let padded = padded_rect(content);
    let first = old.scroll_after_draw(area);
    let shown = old.shown_after_draw(area);
    assert(0 <= first);
    assert(first + shown <= old.menu_items@.len());
    assert(old.menu_items@.len() == old.menu_items.len());
    assert forall|k: int| 0 <= k < new.menu_item_areas@.len() implies (
    #[trigger] new.menu_item_areas@[k]).fits() by {
        assert(k < padded.height);
    }
}

/// The pointer reports every change it makes: where it reports none, the palette
/// is as it was.
pub proof fn law_pointer_reports_every_change(
    old: Palette,
    new: Palette,
    col: int,
    row: int,
    is_click: bool,
    changed: bool,
)
    requires
        Palette::after_pointer(old, new, col, row, is_click, changed),
        !changed,
    ensures
        new == old,
{
}

/// Hovering is idempotent: a second move to the same cell reports no change and
/// leaves the palette as the first move left it.
pub proof fn law_hover_is_idempotent(
    m0: Palette,
    m1: Palette,
    m2: Palette,
    col: int,
    row: int,
    c1: bool,
    c2: bool,
)
    requires
        Palette::after_pointer(m0, m1, col, row, false, c1),
        Palette::after_pointer(m1, m2, col, row, false, c2),
    ensures
        !c2,
        m2 == m1,
{
}

/// In the palette with theme and shortcut submenus, the pointer reports every
/// change it makes: where it reports none, the palette is as it was.
pub proof fn law_themed_pointer_reports_every_change(
    old: ThemedPalette,
    new: ThemedPalette,
    col: int,
    row: int,
    is_click: bool,
    changed: bool,
)
    requires
        ThemedPalette::after_pointer(old, new, col, row, is_click, changed),
        !changed,
    ensures
        new == old,
{
}

/// In the palette with theme and shortcut submenus, hovering is idempotent: a
/// second move to the same cell reports no change and leaves the palette as it was.
pub proof fn law_themed_hover_is_idempotent(
    m0: ThemedPalette,
    m1: ThemedPalette,
    m2: ThemedPalette,
    col: int,
    row: int,
    c1: bool,
    c2: bool,
)
    requires
        ThemedPalette::after_pointer(m0, m1, col, row, false, c1),
        ThemedPalette::after_pointer(m1, m2, col, row, false, c2),
    ensures
        !c2,
        m2 == m1,
{
}

/// The numeral `decimal(n)` is `n` written in base 10: it is made of digits only,
/// it starts with a non-zero digit unless it is `0`, and its digits read back in
/// base 10 give `n`.
pub proof fn law_decimal_reads_back(n: nat)
    ensures
        decimal(n).len() >= 1,
        forall|i: int| 0 <= i < decimal(n).len() ==> is_digit(#[trigger] decimal(n)[i]),
        n > 0 ==> decimal(n)[0] != '0',
        digits_value(decimal(n)) == n,
    decreases n,
{
    if n < 10 {
        assert(decimal(n) == seq![digit_char(n)]);
        assert(seq![digit_char(n)].drop_last() =~= Seq::<char>::empty());
        assert((digit_char(n) as int) == 48 + n);
        assert(('0' as int) == 48);
        assert(digits_value(seq![digit_char(n)]) == digits_value(Seq::<char>::empty()) * 10 + (
        (digit_char(n) as int) - ('0' as int)));
    } else {
        let q = n / 10;
        let r = n % 10;
        law_decimal_reads_back(q);
        let head = decimal(q);
        let whole = head.push(digit_char(r));
        assert(decimal(n) == whole);
        assert(whole.drop_last() =~= head);
        assert((digit_char(r) as int) == 48 + r);
        assert(q * 10 + r == n) by (nonlinear_arith)
            requires
                q == n / 10,
                r == n % 10,
        ;
        assert(('0' as int) == 48);
        assert(whole.last() == digit_char(r));
        assert(digits_value(whole) == digits_value(head) * 10 + ((whole.last() as int) - ('0' as int)));
        assert(q > 0);
        assert(whole[0] == head[0]);
        assert forall|i: int| 0 <= i < whole.len() implies is_digit(#[trigger] whole[i]) by {
            if i < head.len() {
                assert(whole[i] == head[i]);
            }
        }
    }
}

/// The distance between two positions of a list.
pub open spec fn rows_between(a: int, b: int) -> int {
    if a <= b {
        b - a
    } else {
        a - b
    }
}

/// Drawing the palette scrolls as little as it can: where the selected item is
/// already among the visible rows the first shown item stays; in any case the
/// selected item ends up shown, and no other first item that would show it is
/// closer to the one before drawing.
pub proof fn law_drawing_scrolls_least(old: Palette, new: Palette, area: Rect, frame: MenuFrame)
    requires
        Palette::drawn(old, new, area, frame),
        padded_rect(content_rect(area)).height > 0,
    ensures
        ({
            let visible = padded_rect(content_rect(area)).height as int;
            let sel = old.selected_menu_item as int;
            let before = old.scroll_offset as int;
            let after = new.scroll_offset as int;
            &&& before <= sel < before + visible ==> after == before
            &&& after <= sel < after + visible
            &&& forall|o: int|
                0 <= o <= sel < o + visible ==> rows_between(before, after) <= #[trigger] rows_between(
                    before,
                    o,
                )
        }),
{
}

/// Once the palette is drawn, the pointer acts on what the frame shows: a click
/// on row `k` of the list selects, and a move there hovers, the item whose line
/// was drawn in that row, the first shown item plus `k`.
pub proof fn law_pointer_acts_on_the_drawn_row(
    old: Palette,
    mid: Palette,
    new: Palette,
    area: Rect,
    frame: MenuFrame,
    k: int,
    col: int,
    row: int,
    is_click: bool,
    changed: bool,
)
    requires
        old.wf(),
        drawable(area),
        Palette::drawn(old, mid, area, frame),
        0 <= k < mid.menu_item_areas@.len(),
        frame.padded_area.x <= col < frame.padded_area.x + frame.padded_area.width,
        row == frame.padded_area.y + k,
        Palette::after_pointer(mid, new, col, row, is_click, changed),
    ensures
        frame.lines@[k].text@ == item_line(
            mid.menu_items@[mid.scroll_offset + k].0@,
            frame.padded_area.width as int,
        ),
        is_click ==> new.selected_menu_item == mid.scroll_offset + k,
        !is_click ==> new.hovered_menu_item == Some((mid.scroll_offset + k) as usize),
{
    let content = content_rect(area);
    let padded = padded_rect(content);
    let areas = mid.menu_item_areas@;
    law_drawn_palette_is_ready_for_the_pointer(old, mid, area, frame);
    assert(padded.y + padded.height <= u16::MAX);
    assert(areas[k].y == padded.y + k);
    assert(areas[k].covers(col, row));
    assert(mid.menu_area.covers(col, row));
    assert forall|j: int| 0 <= j < areas.len() && (#[trigger] areas[j]).covers(col, row) implies j == k by {
        assert(areas[j].y == padded.y + j);
    }
    assert(first_hit(areas, col, row, k));
    let chosen = choose|j: int| first_hit(areas, col, row, j);
    assert(first_hit(areas, col, row, chosen));
    assert(chosen == k);
    assert(pointer_target_of(mid.menu_area, areas, mid.scroll_offset as int, col, row)
        == PointerTarget::Row((mid.scroll_offset + k) as usize));
}

/// Holds when `code` is one of the keys that shortcut recording never takes:
/// Up, Down, PageUp, PageDown, Home, End, Esc, Enter, `j`, `k`, `g` and `G`.
pub open spec fn never_recorded(code: KeyCode) -> bool {
    ||| code == KeyCode::Up
    ||| code == KeyCode::Down
    ||| code == KeyCode::PageUp
    ||| code == KeyCode::PageDown
    ||| code == KeyCode::Home
    ||| code == KeyCode::End
    ||| code == KeyCode::Esc
    ||| code == KeyCode::Enter
    ||| code == KeyCode::Char('j')
    ||| code == KeyCode::Char('k')
    ||| code == KeyCode::Char('g')
    ||| code == KeyCode::Char('G')
}

/// With the palette open on a shortcut entry of the recording submenu while
/// recording: Up, Down, PageUp, PageDown, Home, End, Esc, Enter, `j`, `k`, `g` and
/// `G` leave the shortcut table as it is, and Down or `j` (Up or `k`) move the
/// selection one item down (up), wrapping around. Any other key (but Left and
/// Right in the animation carousel) is written, as its label, into the shortcut
/// of the selected entry, and leaves the palette as it is.
pub proof fn law_recording_skips_navigation_keys(
    s0: ChatState,
    s1: ChatState,
    key: KeyEvent,
    actions: Seq<UiAction>,
)
    requires
        s0.wf(),
        s0.show_tachyon_menu,
        s0.menu.recording_mode,
        s0.menu.current_submenu == Some(1usize),
        2 <= s0.menu.selected_menu_item,
        key_outcome(s0, s1, key, actions),
    ensures
        never_recorded(key.code) ==> s1.shortcuts == s0.shortcuts,
        key.code == KeyCode::Down || key.code == KeyCode::Char('j') ==> s1.menu.selected_menu_item
            == (s0.menu.selected_menu_item + 1) % (s0.menu.menu_items@.len() as int),
        key.code == KeyCode::Up || key.code == KeyCode::Char('k') ==> s1.menu.selected_menu_item
            == s0.menu.selected_menu_item - 1,
        !never_recorded(key.code) && !(s0.animation_mode && (key.code == KeyCode::Left || key.code
            == KeyCode::Right)) ==> s1.menu == s0.menu && s1.shortcuts@.len()
            == s0.shortcuts@.len(),
        !never_recorded(key.code) && !(s0.animation_mode && (key.code == KeyCode::Left || key.code
            == KeyCode::Right)) ==> forall|j: int|
            0 <= j < s0.shortcuts@.len() && j != s0.menu.selected_menu_item - 2
                ==> #[trigger] s1.shortcuts@[j] == s0.shortcuts@[j],
        !never_recorded(key.code) && !(s0.animation_mode && (key.code == KeyCode::Left || key.code
            == KeyCode::Right)) && s0.menu.selected_menu_item - 2 < s0.shortcuts@.len() ==> s1.shortcuts@[s0.menu.selected_menu_item
            - 2].0 == s0.shortcuts@[s0.menu.selected_menu_item - 2].0 && s1.shortcuts@[s0.menu.selected_menu_item
            - 2].1@ == key_label(key),
{
    let sel = s0.menu.selected_menu_item as int;
    let len = s0.menu.menu_items@.len() as int;
    crate::nav::lemma_next_index_cases(sel, len);
    assert(s0.menu.selected_shortcut() == Some((sel - 2) as usize));
    if never_recorded(key.code) {
        assert(crate::dispatcher::is_navigation_key(key.code));
        if key.code == KeyCode::Down || key.code == KeyCode::Char('j') {
            assert(key_route(s0, key) == KeyRoute::MenuDown);
            assert(0 <= next_index(sel, len) < len);
            assert(s0.menu.menu_items@.len() == s0.menu.menu_items.len());
            assert(s1.menu == crate::dispatcher::menu_at(s0.menu, next_index(sel, len)));
            assert(s1.menu.selected_menu_item as int == next_index(sel, len));
            assert(s1.menu.selected_menu_item == (s0.menu.selected_menu_item + 1) % (
            s0.menu.menu_items@.len() as int));
        }
    } else if !(s0.animation_mode && (key.code == KeyCode::Left || key.code == KeyCode::Right)) {
        assert(!crate::dispatcher::is_navigation_key(key.code));
        assert(key_route(s0, key) == KeyRoute::RecordShortcut((sel - 2) as usize));
    }
}

/// With the palette open on its main list, a click on the row of category `idx`
/// opens that category's submenu, as Enter on it would: the submenu is shown with
/// its back entry first and selected, then its entries (the light/dark toggle and
/// the themes for the theme submenu, the recording toggle and the shortcuts for
/// the shortcut submenu); the palette stays open, and the click is drawn and also
/// goes on to the file browser.
pub proof fn law_click_on_category_opens_its_submenu(
    s0: ChatState,
    s1: ChatState,
    mouse: MouseEvent,
    actions: Seq<UiAction>,
    idx: usize,
)
    requires
        s0.wf(),
        s0.show_tachyon_menu,
        s0.menu.current_submenu is None,
        mouse.kind == MouseKind::Down,
        pointer_target_of(
            s0.menu.menu_area,
            s0.menu.menu_item_areas@,
            s0.menu.scroll_offset as int,
            mouse.column as int,
            mouse.row as int,
        ) == PointerTarget::Row(idx),
        idx < s0.menu.submenus@.len(),
        mouse_outcome(s0, s1, mouse, actions),
    ensures
        s1.menu.current_submenu == Some(idx),
        s1.menu.selected_menu_item == 0,
        s1.menu.items()[0] == back_entry(),
        idx == 0 ==> s1.menu.items() == seq![back_entry(), ("Toggle Light/Dark Mode"@, toggle_mode_tag())]
            + theme_entries(s0.menu.themes@),
        idx == 1 ==> s1.menu.items() == seq![
            back_entry(),
            ("Toggle Recording Mode"@, toggle_recording_tag()),
        ] + s0.menu.submenu_entries(1),
        idx >= 2 ==> s1.menu.items() == seq![back_entry()] + s0.menu.submenu_entries(idx as int),
        s1.show_tachyon_menu,
        s1.shortcuts == s0.shortcuts,
        actions == seq![UiAction::Render, UiAction::ForwardMouseToBrowser],
{
    let (clicked, changed) = choose|clicked: ChatState, changed: bool|
        {
            &&& ThemedPalette::after_pointer(
                s0.menu,
                clicked.menu,
                mouse.column as int,
                mouse.row as int,
                true,
                changed,
            )
            &&& clicked == s0.with_menu(clicked.menu)
            &&& if !changed {
                s1 == clicked && actions == seq![UiAction::ForwardMouseToBrowser]
            } else if clicked.menu.selected_tagged(0, toggle_mode_tag())
                || clicked.menu.selected_tagged(1, toggle_recording_tag()) {
                crate::dispatcher::selection_outcome(clicked, s1, actions)
            } else {
                exists|picked: Seq<UiAction>|
                    crate::dispatcher::selection_outcome(clicked, s1, picked) && actions == picked
                        + seq![UiAction::ForwardMouseToBrowser]
            }
        };
    assert(clicked.menu.selected_menu_item == idx);
    assert(changed);
    let picked = choose|picked: Seq<UiAction>|
        crate::dispatcher::selection_outcome(clicked, s1, picked) && actions == picked + seq![
            UiAction::ForwardMouseToBrowser,
        ];
    assert(picked == seq![UiAction::Render]);
    assert(actions =~= seq![UiAction::Render, UiAction::ForwardMouseToBrowser]);
}

} // verus!
