use vstd::prelude::*;

use crate::menu::{
    back_entry, entries_text, items_text, owned_entries, pointer_ready, pointer_target,
    pointer_target_of, PointerTarget, Rect,
};
use crate::nav::{next_index, page_down_index, page_up_index, prev_index};
use crate::text::{decimal, push_decimal};
use crate::theme::{ChatTheme, ThemeRegistry};

verus! {

/// The description that marks the entry toggling light and dark mode.
pub open spec fn toggle_mode_tag() -> Seq<char> {
    "TOGGLE_MODE"@
}

/// The description that marks the entry toggling shortcut recording.
pub open spec fn toggle_recording_tag() -> Seq<char> {
    "TOGGLE_RECORDING"@
}

/// The entries of the theme submenu after its two fixed ones: each theme's title,
/// numbered from 1, with the theme's name as description.
pub open spec fn theme_entries(themes: Seq<(String, String)>) -> Seq<(Seq<char>, Seq<char>)> {
    Seq::new(
        themes.len(),
        |i: int| (decimal((i + 1) as nat) + ". "@ + themes[i].1@, themes[i].0@),
    )
}

/// The command palette whose first submenu lists the themes and whose second
/// records keyboard shortcuts.
pub struct Menu {
    pub selected_menu_item: usize,
    pub hovered_menu_item: Option<usize>,
    pub menu_items: Vec<(String, String)>,
    pub scroll_offset: usize,
    pub menu_item_areas: Vec<Rect>,
    pub menu_area: Rect,
    pub current_submenu: Option<usize>,
    pub recording_mode: bool,
    pub main_menu: Vec<(&'static str, &'static str)>,
    pub submenus: Vec<Vec<(&'static str, &'static str)>>,
    pub themes: Vec<(String, String)>,
}

impl Menu {
    /// The text of the items that the palette lists now.
    pub open spec fn items(&self) -> Seq<(Seq<char>, Seq<char>)> {
        items_text(self.menu_items@)
    }

    /// The text of the main palette's entries.
    pub open spec fn main_entries(&self) -> Seq<(Seq<char>, Seq<char>)> {
        entries_text(self.main_menu@)
    }

    /// The text of the entries of submenu `i`.
    pub open spec fn submenu_entries(&self, i: int) -> Seq<(Seq<char>, Seq<char>)> {
        entries_text(self.submenus@[i]@)
    }

    /// Holds when the palette lists at least one item, the selection is one of them
    /// and the main palette has entries to go back to.
    pub open spec fn wf(&self) -> bool {
        &&& self.menu_items@.len() > 0
        &&& self.selected_menu_item < self.menu_items@.len()
        &&& self.main_menu@.len() > 0
    }

    /// Holds when the clickable row areas, from the scroll offset on, name items the
    /// palette still lists.
    pub open spec fn areas_current(&self) -> bool {
        self.scroll_offset + self.menu_item_areas@.len() <= self.menu_items@.len()
    }

    /// `new` is `old` with `items` listed from the top: selection and scroll reset,
    /// nothing hovered, `shown` as the submenu being shown.
    pub open spec fn listing(old: Menu, new: Menu, shown: Option<usize>) -> bool {
        new == (Menu {
            current_submenu: shown,
            menu_items: new.menu_items,
            selected_menu_item: 0,
            scroll_offset: 0,
            hovered_menu_item: None,
            ..old
        })
    }

    /// `new` is `old` after entering submenu `index`: the theme submenu (0) lists the
    /// back entry, the light/dark toggle and the numbered themes; the shortcut
    /// submenu (1) the back entry, the recording toggle and its entries; any other
    /// existing submenu the back entry and its entries. Where there is no such
    /// submenu nothing changes.
    pub open spec fn entered(old: Menu, new: Menu, index: usize) -> bool {
        if index == 0 {
            &&& new.items() == seq![back_entry(), ("Toggle Light/Dark Mode"@, toggle_mode_tag())]
                + theme_entries(old.themes@)
            &&& Menu::listing(old, new, Some(index))
        } else if index == 1 {
            &&& new.items() == seq![back_entry(), ("Toggle Recording Mode"@, toggle_recording_tag())]
                + old.submenu_entries(1)
            &&& Menu::listing(old, new, Some(index))
        } else if index < old.submenus@.len() {
            &&& new.items() == seq![back_entry()] + old.submenu_entries(index as int)
            &&& Menu::listing(old, new, Some(index))
        } else {
            new == old
        }
    }

    /// `new` is `old` listing the main palette again.
    pub open spec fn returned_to_main(old: Menu, new: Menu) -> bool {
        &&& new.items() == old.main_entries()
        &&& Menu::listing(old, new, None)
    }

    /// `new` is `old` after acting on its selected item: the selected category's
    /// submenu opened in the main palette, the main palette listed again from a
    /// submenu's back entry, and no change for any other entry.
    pub open spec fn item_selected(old: Menu, new: Menu) -> bool {
        if old.current_submenu is None {
            Menu::entered(old, new, old.selected_menu_item)
        } else if old.selected_menu_item == 0 {
            Menu::returned_to_main(old, new)
        } else {
            new == old
        }
    }

    /// The palette over `main_menu` and its `submenus`, with the themes of
    /// `registry`, showing the main entries with the first selected.
    pub fn new(
        main_menu: Vec<(&'static str, &'static str)>,
        submenus: Vec<Vec<(&'static str, &'static str)>>,
        registry: &ThemeRegistry,
    ) -> (menu: Self)
        ensures
            menu.main_menu == main_menu,
            menu.submenus == submenus,
            menu.themes@.len() == registry.themes@.len(),
            forall|i: int|
                0 <= i < menu.themes@.len() ==> #[trigger] menu.themes@[i] == (
                    registry.themes@[i].name,
                    registry.themes@[i].title,
                ),
            menu.items() == entries_text(main_menu@),
            menu.selected_menu_item == 0,
            menu.hovered_menu_item is None,
            menu.scroll_offset == 0,
            menu.menu_item_areas@.len() == 0,
            menu.menu_area == (Rect { x: 0, y: 0, width: 0, height: 0 }),
            menu.current_submenu is None,
            !menu.recording_mode,
            main_menu@.len() > 0 ==> menu.wf(),
    {
        let menu_items = owned_entries(&main_menu);
        assert(menu_items@.len() == items_text(menu_items@).len());
        assert(main_menu@.len() == entries_text(main_menu@).len());
        Menu {
            selected_menu_item: 0,
            hovered_menu_item: None,
            menu_items,
            scroll_offset: 0,
            menu_item_areas: Vec::new(),
            menu_area: Rect { x: 0, y: 0, width: 0, height: 0 },
            current_submenu: None,
            recording_mode: false,
            main_menu,
            submenus,
            themes: ChatTheme::available_themes(registry),
        }
    }

    fn theme_items(&self) -> (items: Vec<(String, String)>)
        ensures
            items_text(items@) == seq![back_entry(), ("Toggle Light/Dark Mode"@, toggle_mode_tag())]
                + theme_entries(self.themes@),
    {
        let mut items: Vec<(String, String)> = vec![
            ("Back".to_owned(), String::new()),
            ("Toggle Light/Dark Mode".to_owned(), "TOGGLE_MODE".to_owned()),
        ];
        let ghost head = seq![back_entry(), ("Toggle Light/Dark Mode"@, toggle_mode_tag())];
        assert(items_text(items@) =~= head);
        let mut i: usize = 0;
        while i < self.themes.len()
            invariant
                i <= self.themes@.len(),
                items_text(items@) == head + theme_entries(self.themes@).subrange(0, i as int),
            decreases self.themes@.len() - i,
        {
            let (name, title) = &self.themes[i];
            let mut label = String::new();
            push_decimal(&mut label, i + 1);
            label.append(". ");
            label.append(title.as_str());
            let ghost before = items@;
            let pair = (label, name.clone());
            assert(pair.0@ =~= decimal((i + 1) as nat) + ". "@ + self.themes@[i as int].1@);
            items.push(pair);
            assert(items_text(items@) =~= items_text(before).push((pair.0@, pair.1@)));
            assert(theme_entries(self.themes@).subrange(0, i + 1) =~= theme_entries(
                self.themes@,
            ).subrange(0, i as int).push((pair.0@, pair.1@)));
            assert(items_text(items@) =~= head + theme_entries(self.themes@).subrange(0, i + 1));
            i = i + 1;
        }
        assert(theme_entries(self.themes@).subrange(0, self.themes@.len() as int) =~= theme_entries(
            self.themes@,
        ));
        items
    }

    /// Opens submenu `index`: the themes for 0, the shortcut recorder for 1, the
    /// listed submenu otherwise; where there is no such submenu nothing changes.
    pub fn enter_submenu(&mut self, index: usize)
        requires
            index == 1 ==> old(self).submenus@.len() > 1,
        ensures
            Menu::entered(*old(self), *final(self), index),
            old(self).wf() ==> final(self).wf(),
    {
        if index == 0 {
            let submenu_items = self.theme_items();
            self.menu_items = submenu_items;
            self.current_submenu = Some(index);
            self.selected_menu_item = 0;
            self.scroll_offset = 0;
            self.hovered_menu_item = None;
        } else if index == 1 {
            let mut submenu_items: Vec<(String, String)> = vec![
                ("Back".to_owned(), String::new()),
                ("Toggle Recording Mode".to_owned(), "TOGGLE_RECORDING".to_owned()),
            ];
            let mut rest = owned_entries(&self.submenus[index]);
            submenu_items.append(&mut rest);
            assert(items_text(submenu_items@) =~= seq![
                back_entry(),
                ("Toggle Recording Mode"@, toggle_recording_tag()),
            ] + entries_text(self.submenus@[1]@));
            self.menu_items = submenu_items;
            self.current_submenu = Some(index);
            self.selected_menu_item = 0;
            self.scroll_offset = 0;
            self.hovered_menu_item = None;
        } else if index < self.submenus.len() {
            self.current_submenu = Some(index);
            let mut submenu_items: Vec<(String, String)> = vec![("Back".to_owned(), String::new())];
            let mut rest = owned_entries(&self.submenus[index]);
            submenu_items.append(&mut rest);
            assert(items_text(submenu_items@) =~= seq![back_entry()] + entries_text(
                self.submenus@[index as int]@,
            ));
            self.menu_items = submenu_items;
            self.selected_menu_item = 0;
            self.scroll_offset = 0;
            self.hovered_menu_item = None;
        }
        assert(self.menu_items@.len() == items_text(self.menu_items@).len());
    }

    /// Lists the main palette again.
    pub fn go_back_to_main(&mut self)
        ensures
            Menu::returned_to_main(*old(self), *final(self)),
            old(self).wf() ==> final(self).wf(),
    {
        self.current_submenu = None;
        self.menu_items = owned_entries(&self.main_menu);
        assert(self.menu_items@.len() == items_text(self.menu_items@).len());
        assert(self.main_menu@.len() == entries_text(self.main_menu@).len());
        self.selected_menu_item = 0;
        self.scroll_offset = 0;
        self.hovered_menu_item = None;
    }

    /// Acts on the selected item: in the main palette it opens that item's submenu
    /// (`true`); in a submenu the back entry returns to the main palette (`true`),
    /// and any other entry changes nothing and returns `false`.
    pub fn select_current_item(&mut self) -> (handled: bool)
        requires
            old(self).current_submenu is None && old(self).selected_menu_item == 1 ==> old(
                self,
            ).submenus@.len() > 1,
        ensures
            old(self).current_submenu is None ==> handled && Menu::entered(
                *old(self),
                *final(self),
                old(self).selected_menu_item,
            ),
            old(self).current_submenu is Some && old(self).selected_menu_item == 0 ==> handled
                && Menu::returned_to_main(*old(self), *final(self)),
            old(self).current_submenu is Some && old(self).selected_menu_item != 0 ==> !handled
                && *final(self) == *old(self),
            Menu::item_selected(*old(self), *final(self)),
            old(self).wf() ==> final(self).wf(),
    {
        if self.current_submenu.is_none() {
            self.enter_submenu(self.selected_menu_item);
            true
        } else {
            if self.selected_menu_item == 0 {
                self.go_back_to_main();
                true
            } else {
                false
            }
        }
    }

    /// Selects the next item, from the last back to the first.
    pub fn select_next_menu_item(&mut self)
        requires
            old(self).menu_items@.len() > 0,
            old(self).selected_menu_item < usize::MAX,
        ensures
            *final(self) == (Menu {
                selected_menu_item: next_index(
                    old(self).selected_menu_item as int,
                    old(self).menu_items@.len() as int,
                ) as usize,
                ..*old(self)
            }),
            old(self).wf() ==> final(self).wf(),
    {
        proof {
            if self.wf() {
                crate::nav::lemma_moves_stay_in_list(
                    self.selected_menu_item as int,
                    self.menu_items@.len() as int,
                );
            }
        }
        self.selected_menu_item = (self.selected_menu_item + 1) % self.menu_items.len();
    }

    /// Selects the previous item, from the first back to the last.
    pub fn select_prev_menu_item(&mut self)
        requires
            old(self).selected_menu_item == 0 ==> old(self).menu_items@.len() > 0,
        ensures
            *final(self) == (Menu {
                selected_menu_item: prev_index(
                    old(self).selected_menu_item as int,
                    old(self).menu_items@.len() as int,
                ) as usize,
                ..*old(self)
            }),
            old(self).wf() ==> final(self).wf(),
    {
        if self.selected_menu_item == 0 {
            self.selected_menu_item = self.menu_items.len() - 1;
        } else {
            self.selected_menu_item -= 1;
        }
    }

    /// Moves the selection `visible_items` rows down, stopping at the last item.
    pub fn page_down(&mut self, visible_items: usize)
        requires
            old(self).menu_items@.len() > 0,
        ensures
            *final(self) == (Menu {
                selected_menu_item: page_down_index(
                    old(self).selected_menu_item as int,
                    visible_items as int,
                    old(self).menu_items@.len() as int,
                ) as usize,
                ..*old(self)
            }),
            old(self).wf() ==> final(self).wf(),
    {
        let target = self.selected_menu_item.saturating_add(visible_items);
        let last = self.menu_items.len() - 1;
        self.selected_menu_item = if target <= last {
            target
        } else {
            last
        };
    }

    /// Moves the selection `visible_items` rows up, stopping at the first item.
    pub fn page_up(&mut self, visible_items: usize)
        ensures
            *final(self) == (Menu {
                selected_menu_item: page_up_index(
                    old(self).selected_menu_item as int,
                    visible_items as int,
                ) as usize,
                ..*old(self)
            }),
            old(self).wf() ==> final(self).wf(),
    {
        self.selected_menu_item = self.selected_menu_item.saturating_sub(visible_items);
    }

    /// Selects the first item.
    pub fn jump_to_top(&mut self)
        ensures
            *final(self) == (Menu { selected_menu_item: 0, ..*old(self) }),
            old(self).wf() ==> final(self).wf(),
    {
        self.selected_menu_item = 0;
    }

    /// Selects the last item.
    pub fn jump_to_bottom(&mut self)
        requires
            old(self).menu_items@.len() > 0,
        ensures
            *final(self) == (Menu {
                selected_menu_item: (old(self).menu_items@.len() - 1) as usize,
                ..*old(self)
            }),
            old(self).wf() ==> final(self).wf(),
    {
        self.selected_menu_item = self.menu_items.len() - 1;
    }

    /// The theme whose entry is selected in the theme submenu.
    pub open spec fn selected_theme(&self) -> Option<String> {
        if self.current_submenu == Some(0usize) && self.selected_menu_item > 0 {
            Some(self.menu_items@[self.selected_menu_item as int].1)
        } else {
            None
        }
    }

    /// The theme to preview for the selection in the theme submenu.
    pub open spec fn highlighted_theme(&self) -> Option<String> {
        if self.current_submenu == Some(0usize) {
            self.theme_name_at(self.selected_menu_item as int)
        } else {
            None
        }
    }

    /// The theme to preview for the hovered entry of the theme submenu.
    pub open spec fn hovered_theme(&self) -> Option<String> {
        match self.hovered_menu_item {
            Some(h) if self.current_submenu == Some(0usize) && h < self.menu_items@.len() =>
                self.theme_name_at(h as int),
            _ => None,
        }
    }

    /// Holds when the selected item of submenu `submenu` is described by `tag`.
    pub open spec fn selected_tagged(&self, submenu: usize, tag: Seq<char>) -> bool {
        &&& self.current_submenu == Some(submenu)
        &&& self.selected_menu_item < self.menu_items@.len()
        &&& self.menu_items@[self.selected_menu_item as int].1@ == tag
    }

    /// The shortcut that the selection in the shortcut submenu stands for.
    pub open spec fn selected_shortcut(&self) -> Option<usize> {
        if self.current_submenu == Some(1usize) && 2 <= self.selected_menu_item
            < self.menu_items@.len() {
            Some((self.selected_menu_item - 2) as usize)
        } else {
            None
        }
    }

    /// The name of the theme whose entry is selected in the theme submenu, or `None`
    /// outside it or on the back entry.
    pub fn get_selected_theme_name(&self) -> (name: Option<String>)
        requires
            self.current_submenu == Some(0usize) && self.selected_menu_item > 0
                ==> self.selected_menu_item < self.menu_items@.len(),
        ensures
            name == self.selected_theme(),
    {
        if self.current_submenu == Some(0) && self.selected_menu_item > 0 {
            Some(self.menu_items[self.selected_menu_item].1.clone())
        } else {
            None
        }
    }

    /// The theme named by the description of item `idx`: a non-empty description
    /// other than the light/dark toggle's.
    pub open spec fn theme_name_at(&self, idx: int) -> Option<String> {
        let description = self.menu_items@[idx].1;
        if description@.len() > 0 && description@ != toggle_mode_tag() {
            Some(description)
        } else {
            None
        }
    }

    fn theme_name_of(&self, idx: usize) -> (name: Option<String>)
        requires
            idx < self.menu_items@.len(),
        ensures
            name == self.theme_name_at(idx as int),
    {
        let description = &self.menu_items[idx].1;
        let toggle = String::from_str("TOGGLE_MODE");
        if !description.as_str().is_empty() && *description != toggle {
            Some(description.clone())
        } else {
            None
        }
    }

    /// The theme to preview for the selected entry of the theme submenu: its
    /// description where that names a theme; `None` outside the theme submenu.
    pub fn get_highlighted_theme_name(&self) -> (name: Option<String>)
        requires
            self.current_submenu == Some(0usize) ==> self.selected_menu_item
                < self.menu_items@.len(),
        ensures
            name == self.highlighted_theme(),
    {
        if self.current_submenu == Some(0) {
            return self.theme_name_of(self.selected_menu_item);
        }
        None
    }

    /// The theme to preview for the hovered entry of the theme submenu: its
    /// description where the hovered item exists and names a theme.
    pub fn get_hovered_theme_name(&self) -> (name: Option<String>)
        ensures
            name == self.hovered_theme(),
    {
        if self.current_submenu == Some(0) {
            if let Some(hovered_idx) = self.hovered_menu_item {
                if hovered_idx < self.menu_items.len() {
                    return self.theme_name_of(hovered_idx);
                }
            }
        }
        None
    }

    fn selected_description_is(&self, submenu: usize, tag: &str) -> (found: bool)
        ensures
            found == self.selected_tagged(submenu, tag@),
    {
        if self.current_submenu == Some(submenu) && self.selected_menu_item < self.menu_items.len() {
            self.menu_items[self.selected_menu_item].1 == String::from_str(tag)
        } else {
            false
        }
    }

    /// Whether the light/dark toggle of the theme submenu is selected.
    pub fn is_toggle_mode_selected(&self) -> (selected: bool)
        ensures
            selected == self.selected_tagged(0, toggle_mode_tag()),
    {
        self.selected_description_is(0, "TOGGLE_MODE")
    }

    /// Whether the recording toggle of the shortcut submenu is selected.
    pub fn is_toggle_recording_selected(&self) -> (selected: bool)
        ensures
            selected == self.selected_tagged(1, toggle_recording_tag()),
    {
        self.selected_description_is(1, "TOGGLE_RECORDING")
    }

    /// Switches shortcut recording on or off.
    pub fn toggle_recording_mode(&mut self)
        ensures
            *final(self) == (Menu { recording_mode: !old(self).recording_mode, ..*old(self) }),
    {
        self.recording_mode = !self.recording_mode;
    }

    /// The shortcut that the selected entry of the shortcut submenu stands for: its
    /// position after the back entry and the recording toggle.
    pub fn get_selected_shortcut_index(&self) -> (index: Option<usize>)
        ensures
            index == self.selected_shortcut(),
    {
        if self.current_submenu == Some(1) && self.selected_menu_item >= 2
            && self.selected_menu_item < self.menu_items.len() {
            Some(self.selected_menu_item - 2)
        } else {
            None
        }
    }

    /// `new` and `changed` are what the pointer at column `col`, row `row` makes of
    /// `old`: over a listed row, a click selects that item and a move hovers it (a
    /// change only where another item or none was hovered); anywhere else it clears
    /// the hover (a change only where something was hovered).
    pub open spec fn after_pointer(
        old: Menu,
        new: Menu,
        col: int,
        row: int,
        is_click: bool,
        changed: bool,
    ) -> bool {
        match pointer_target_of(old.menu_area, old.menu_item_areas@, old.scroll_offset as int, col, row) {
            PointerTarget::Row(idx) => if is_click {
                &&& changed
                &&& new == (Menu { selected_menu_item: idx, ..old })
            } else {
                &&& changed == (old.hovered_menu_item != Some(idx))
                &&& new == (Menu { hovered_menu_item: Some(idx), ..old })
            },
            _ => {
                &&& changed == (old.hovered_menu_item is Some)
                &&& new == (Menu { hovered_menu_item: None, ..old })
            },
        }
    }

    /// Reacts to the pointer at column `x`, row `y`: a click when `is_click`, a move
    /// otherwise. Returns whether the palette must be drawn again.
    pub fn handle_mouse(&mut self, x: u16, y: u16, is_click: bool) -> (changed: bool)
        requires
            pointer_ready(old(self).menu_area, old(self).menu_item_areas@, old(self).scroll_offset as int),
        ensures
            Menu::after_pointer(*old(self), *final(self), x as int, y as int, is_click, changed),
            old(self).wf() && old(self).areas_current() ==> final(self).wf()
                && final(self).areas_current(),
    {
        proof {
            crate::menu::lemma_pointer_row_listed(self.menu_area, self.menu_item_areas@, self.scroll_offset as int, x as int, y as int);
        }
        match pointer_target(&self.menu_area, &self.menu_item_areas, self.scroll_offset, x, y) {
            PointerTarget::Row(actual_idx) => {
                if is_click {
                    self.selected_menu_item = actual_idx;
                    true
                } else {
                    if self.hovered_menu_item != Some(actual_idx) {
                        self.hovered_menu_item = Some(actual_idx);
                        true
                    } else {
                        false
                    }
                }
            },
            _ => {
                if self.hovered_menu_item.is_some() {
                    self.hovered_menu_item = None;
                    true
                } else {
                    false
                }
            },
        }
    }
}

} // verus!
