use vstd::prelude::*;

use crate::keys::{format_key_event, key_label, KeyCode, KeyEvent};
use crate::menu::pointer_ready;
use crate::menu_navigation::{toggle_mode_tag, toggle_recording_tag, Menu};
use crate::nav::{next_index, page_down_index, page_up_index, prev_index};

verus! {

/// Which screen of the application has the keyboard.
#[derive(Debug, Clone, Copy, PartialEq, Eq, Structural)]
pub enum AppMode {
    Chat,
    FilePicker,
    Other,
}

/// The commands that a keyboard shortcut can open.
#[derive(Debug, Clone, Copy, PartialEq, Eq, Structural)]
pub enum MenuAction {
    ContextControlPanel,
    Theme,
    KeyboardShortcuts,
    Providers,
    PluginsApps,
    Skills,
    Sandbox,
    WebSearch,
    McpServers,
    MemoryHistory,
    MultiAgent,
    Notifications,
    VoiceRealtime,
    ImageVision,
    Profiles,
    Worktree,
    Authentication,
    NetworkProxy,
    HooksEvents,
    SessionResume,
    ApprovalPolicy,
    ShellEnvironment,
    ExecutionRules,
    ProjectTrust,
    DeveloperInstructions,
    FeatureFlags,
}

/// The submenu that a shortcut's command opens.
pub open spec fn submenu_of(action: MenuAction) -> usize {
    match action {
        MenuAction::ContextControlPanel => 0,
        MenuAction::Theme => 0,
        MenuAction::KeyboardShortcuts => 1,
        MenuAction::Providers => 2,
        MenuAction::PluginsApps => 3,
        MenuAction::Skills => 4,
        MenuAction::Sandbox => 5,
        MenuAction::WebSearch => 6,
        MenuAction::McpServers => 7,
        MenuAction::MemoryHistory => 8,
        MenuAction::MultiAgent => 9,
        MenuAction::Notifications => 10,
        MenuAction::VoiceRealtime => 11,
        MenuAction::ImageVision => 12,
        MenuAction::Profiles => 13,
        MenuAction::Worktree => 14,
        MenuAction::Authentication => 15,
        MenuAction::NetworkProxy => 16,
        MenuAction::HooksEvents => 17,
        MenuAction::SessionResume => 18,
        MenuAction::ApprovalPolicy => 19,
        MenuAction::ShellEnvironment => 20,
        MenuAction::ExecutionRules => 21,
        MenuAction::ProjectTrust => 22,
        MenuAction::DeveloperInstructions => 23,
        MenuAction::FeatureFlags => 24,
    }
}

/// The submenu that a shortcut's command opens.
pub fn submenu_index(action: MenuAction) -> (index: usize)
    ensures
        index == submenu_of(action),
{
    match action {
        MenuAction::ContextControlPanel => 0,
        MenuAction::Theme => 0,
        MenuAction::KeyboardShortcuts => 1,
        MenuAction::Providers => 2,
        MenuAction::PluginsApps => 3,
        MenuAction::Skills => 4,
        MenuAction::Sandbox => 5,
        MenuAction::WebSearch => 6,
        MenuAction::McpServers => 7,
        MenuAction::MemoryHistory => 8,
        MenuAction::MultiAgent => 9,
        MenuAction::Notifications => 10,
        MenuAction::VoiceRealtime => 11,
        MenuAction::ImageVision => 12,
        MenuAction::Profiles => 13,
        MenuAction::Worktree => 14,
        MenuAction::Authentication => 15,
        MenuAction::NetworkProxy => 16,
        MenuAction::HooksEvents => 17,
        MenuAction::SessionResume => 18,
        MenuAction::ApprovalPolicy => 19,
        MenuAction::ShellEnvironment => 20,
        MenuAction::ExecutionRules => 21,
        MenuAction::ProjectTrust => 22,
        MenuAction::DeveloperInstructions => 23,
        MenuAction::FeatureFlags => 24,
    }
}

/// Work that the decisions leave to the application, in the order to do it.
#[derive(Debug, Clone, PartialEq, Eq)]
pub enum UiAction {
    /// Draw the screen again.
    Render,
    /// Draw again only what changed, unless a full drawing is already due.
    RenderPartial,
    /// Restart the clock of the animation on show.
    RestartAnimationClock,
    /// Apply (or preview) the theme of this name in the current light/dark mode.
    ApplyTheme(String),
    /// Switch between the light and dark variants of the theme.
    ToggleThemeMode,
    /// Pick a random opening effect for the palette.
    PickOpeningEffect,
    /// Pick a random closing effect for the palette.
    PickClosingEffect,
    /// Hand the key to the chat input; its answer goes to `dispatch_input`.
    ForwardKeyToInput,
    /// Hand the key to the file browser.
    ForwardKeyToBrowser,
    /// Hand the pointer event to the file browser.
    ForwardMouseToBrowser,
    /// Add this message to the chat as the user's.
    AddUserMessage(String),
    /// Show the farewell animation and end the program.
    ExitWithFarewell,
    /// Let the chat take in the model's replies.
    UpdateChat,
    /// Restart the clock of the splash font cycle.
    RestartFontClock,
    /// Give the palette the time since the last frame and restart that clock.
    TickMenu,
    /// Lay the file browser out again for the new terminal size.
    ReflowBrowser,
    /// Tell the file browser that the terminal got the focus.
    FocusBrowser,
    /// Type this text into the file browser's input.
    TypeIntoInput(String),
    /// Overwrite the file browser's input with this text from the cursor on.
    ReplaceInInput(String),
}

/// What the chat input made of a key.
#[derive(Debug, Clone, PartialEq, Eq)]
pub enum InputAction {
    Submit(String),
    Exit,
    Changed,
    PreviousHistory,
    NextHistory,
    NoOp,
}

/// What the pointer did.
#[derive(Debug, Clone, Copy, PartialEq, Eq, Structural)]
pub enum MouseKind {
    Moved,
    Down,
    ScrollUp,
    ScrollDown,
    Other,
}

/// A pointer event at a cell.
#[derive(Debug, Clone, Copy, PartialEq, Eq, Structural)]
pub struct MouseEvent {
    pub kind: MouseKind,
    pub column: u16,
    pub row: u16,
}

/// How the file browser's input takes typed text.
#[derive(Debug, Clone, Copy, PartialEq, Eq, Structural)]
pub enum InputMode {
    Normal,
    Insert,
    Replace,
}

/// An event for the dispatcher.
#[derive(Debug, Clone, PartialEq, Eq)]
pub enum Event {
    /// The screen must be drawn: only the changed part when `true`.
    Render(bool),
    Key(KeyEvent),
    Mouse(MouseEvent),
    Resize,
    Focus,
    /// Pasted text, with whether the browser's input is shown and how it types.
    Paste(String, bool, InputMode),
    /// A timer tick; the flag tells whether the splash font has been shown long enough.
    Timer(bool),
}

/// The part of the chat interface's state that key and pointer handling decide on.
pub struct ChatState {
    pub menu: Menu,
    pub show_tachyon_menu: bool,
    pub menu_is_closing: bool,
    pub animation_mode: bool,
    pub current_animation_index: usize,
    pub animation_count: usize,
    pub splash_animation_index: usize,
    pub splash_font_index: usize,
    pub shortcuts: Vec<(MenuAction, String)>,
    pub mode: AppMode,
    pub has_messages: bool,
    pub input_empty: bool,
    pub chat_scroll_offset: usize,
}

/// Number of fonts that the splash screen cycles through.
pub const SPLASH_FONT_COUNT: usize = 113;

/// Rows that one page of the palette moves.
pub const MENU_PAGE: usize = 10;

impl ChatState {
    /// Writes `shortcut` as the shortcut of entry `index` of the table, where there
    /// is such an entry.
    pub fn update_keyboard_shortcut(&mut self, index: usize, shortcut: String)
        ensures
            *final(self) == (ChatState { shortcuts: final(self).shortcuts, ..*old(self) }),
            final(self).shortcuts@ == shortcut_recorded(old(self).shortcuts@, index as int, shortcut),
    {
        if index < self.shortcuts.len() {
            let action = self.shortcuts[index].0;
            self.shortcuts.set(index, (action, shortcut));
        }
    }

    /// Holds when the palette is well formed and has the shortcut submenu, the
    /// animation carousel shows one of its animations, and the splash font is one
    /// of the fonts.
    pub open spec fn wf(&self) -> bool {
        &&& self.menu.wf()
        &&& self.menu.submenus@.len() > 1
        &&& 0 < self.animation_count
        &&& self.current_animation_index < self.animation_count
        &&& self.splash_font_index < SPLASH_FONT_COUNT
    }

    /// The state with the palette closing.
    pub open spec fn closed(self) -> ChatState {
        ChatState { menu_is_closing: true, show_tachyon_menu: false, ..self }
    }

    /// The state with the palette opening.
    pub open spec fn opened(self) -> ChatState {
        ChatState { menu_is_closing: false, show_tachyon_menu: true, ..self }
    }

    /// Holds when `key` can be handled in `usize` arithmetic: where it scrolls the
    /// chat down, one more row of scrolling stays within `usize`.
    pub open spec fn key_ready(&self, key: KeyEvent) -> bool {
        key_route(*self, key) == KeyRoute::ScrollChatDown ==> self.chat_scroll_offset < usize::MAX
    }

    /// Holds when a pointer event can be handled: the palette's row areas are those
    /// of its current list and hit-testing stays within `u16` and `usize`.
    pub open spec fn pointer_ok(&self) -> bool {
        &&& pointer_ready(self.menu.menu_area, self.menu.menu_item_areas@, self.menu.scroll_offset as int)
        &&& self.menu.areas_current()
    }

    /// The state with `menu` as its palette.
    pub open spec fn with_menu(self, menu: Menu) -> ChatState {
        ChatState { menu, ..self }
    }
}

/// The command of the first shortcut, from position `i` on, written as `label`.
pub open spec fn shortcut_from(shortcuts: Seq<(MenuAction, String)>, label: Seq<char>, i: int) -> Option<
    MenuAction,
>
    decreases shortcuts.len() - i,
{
    if i < 0 || i >= shortcuts.len() {
        None
    } else if shortcuts[i].1@ == label {
        Some(shortcuts[i].0)
    } else {
        shortcut_from(shortcuts, label, i + 1)
    }
}

/// The shortcut table with shortcut `index`, where there is one, written as `label`.
pub open spec fn shortcut_recorded(shortcuts: Seq<(MenuAction, String)>, index: int, label: String) -> Seq<
    (MenuAction, String),
> {
    if 0 <= index < shortcuts.len() {
        shortcuts.update(index, (shortcuts[index].0, label))
    } else {
        shortcuts
    }
}

/// Keys that move through the palette, which shortcut recording leaves alone.
pub open spec fn is_navigation_key(code: KeyCode) -> bool {
    ||| code == KeyCode::Up
    ||| code == KeyCode::Down
    ||| code == KeyCode::PageUp
    ||| code == KeyCode::PageDown
    ||| code == KeyCode::Home
    ||| code == KeyCode::End
    ||| code == KeyCode::Esc
    ||| code == KeyCode::Enter
    ||| code == KeyCode::Char('j')
    ||| code == KeyCode::Char('k')
    ||| code == KeyCode::Char('g')
    ||| code == KeyCode::Char('G')
}

/// Where a key press goes.
#[derive(Debug, Clone, Copy, PartialEq, Eq, Structural)]
pub enum KeyRoute {
    AnimationPrev,
    AnimationNext,
    RecordShortcut(usize),
    MenuUp,
    MenuDown,
    MenuPageUp,
    MenuPageDown,
    MenuTop,
    MenuBottom,
    ThemeModeToggle,
    MenuEnter,
    MenuEsc,
    ToggleMenu,
    OpenShortcut(MenuAction),
    ScrollChatUp,
    ScrollChatDown,
    ToInput,
    ToBrowser,
}

/// Where `key` goes in state `st`: the animation carousel takes Left and Right;
/// an open palette takes shortcut recording, its navigation keys, `t` in the
/// theme submenu, Enter, and Esc or Backspace to go back; `0` opens or closes the palette; with the palette
/// closed, a recorded shortcut opens its submenu; the chat takes Up and Down to
/// scroll a conversation whose input is empty, and every other key in the chat or
/// file picker; the file browser takes the rest.
pub open spec fn key_route(st: ChatState, key: KeyEvent) -> KeyRoute {
    let code = key.code;
    let menu = st.menu;
    let open = st.show_tachyon_menu;
    if st.animation_mode && code == KeyCode::Left {
        KeyRoute::AnimationPrev
    } else if st.animation_mode && code == KeyCode::Right {
        KeyRoute::AnimationNext
    } else if open && menu.recording_mode && menu.current_submenu == Some(1usize)
        && menu.selected_shortcut() is Some && !is_navigation_key(code) {
        KeyRoute::RecordShortcut(menu.selected_shortcut()->0)
    } else if open && (code == KeyCode::Up || code == KeyCode::Char('k')) {
        KeyRoute::MenuUp
    } else if open && (code == KeyCode::Down || code == KeyCode::Char('j')) {
        KeyRoute::MenuDown
    } else if open && code == KeyCode::PageUp {
        KeyRoute::MenuPageUp
    } else if open && code == KeyCode::PageDown {
        KeyRoute::MenuPageDown
    } else if open && (code == KeyCode::Home || code == KeyCode::Char('g')) {
        KeyRoute::MenuTop
    } else if open && (code == KeyCode::End || code == KeyCode::Char('G')) {
        KeyRoute::MenuBottom
    } else if open && (code == KeyCode::Char('t') || code == KeyCode::Char('T'))
        && menu.current_submenu == Some(0usize) {
        KeyRoute::ThemeModeToggle
    } else if open && code == KeyCode::Enter {
        KeyRoute::MenuEnter
    } else if open && (code == KeyCode::Esc || code == KeyCode::Backspace) {
        KeyRoute::MenuEsc
    } else if code == KeyCode::Char('0') {
        KeyRoute::ToggleMenu
    } else if !open && shortcut_from(st.shortcuts@, key_label(key), 0) is Some {
        KeyRoute::OpenShortcut(shortcut_from(st.shortcuts@, key_label(key), 0)->0)
    } else if (st.mode == AppMode::Chat || st.mode == AppMode::FilePicker) && st.has_messages
        && st.input_empty && code == KeyCode::Up {
        KeyRoute::ScrollChatUp
    } else if (st.mode == AppMode::Chat || st.mode == AppMode::FilePicker) && st.has_messages
        && st.input_empty && code == KeyCode::Down {
        KeyRoute::ScrollChatDown
    } else if st.mode == AppMode::Chat || st.mode == AppMode::FilePicker {
        KeyRoute::ToInput
    } else {
        KeyRoute::ToBrowser
    }
}

/// The command of the first shortcut written as `label`.
pub fn find_shortcut(shortcuts: &Vec<(MenuAction, String)>, label: &String) -> (found: Option<MenuAction>)
    ensures
        found == shortcut_from(shortcuts@, label@, 0),
{
    let mut i: usize = 0;
    while i < shortcuts.len()
        invariant
            i <= shortcuts@.len(),
            shortcut_from(shortcuts@, label@, 0) == shortcut_from(shortcuts@, label@, i as int),
        decreases shortcuts@.len() - i,
    {
        if shortcuts[i].1 == *label {
            return Some(shortcuts[i].0);
        }
        i = i + 1;
    }
    None
}

/// The palette with its selection moved to `sel`.
pub open spec fn menu_at(menu: Menu, sel: int) -> Menu {
    Menu { selected_menu_item: sel as usize, ..menu }
}

/// The preview that a palette asks for: its highlighted theme, if any, then a redraw.
pub open spec fn preview_then_render(menu: Menu) -> Seq<UiAction> {
    match menu.highlighted_theme() {
        Some(name) => seq![UiAction::ApplyTheme(name), UiAction::Render],
        None => seq![UiAction::Render],
    }
}

/// `new` and `actions` follow from acting on the palette's selected item in `old`:
/// the toggles flip the light/dark mode or shortcut recording; any other item is
/// selected, and choosing a theme closes the palette.
pub open spec fn selection_outcome(old: ChatState, new: ChatState, actions: Seq<UiAction>) -> bool {
    if old.menu.selected_tagged(0, toggle_mode_tag()) {
        &&& new == old
        &&& actions == seq![UiAction::ToggleThemeMode, UiAction::Render]
    } else if old.menu.selected_tagged(1, toggle_recording_tag()) {
        &&& new == old.with_menu(Menu { recording_mode: !old.menu.recording_mode, ..old.menu })
        &&& actions == seq![UiAction::Render]
    } else {
        &&& Menu::item_selected(old.menu, new.menu)
        &&& if old.menu.selected_theme() is Some {
            &&& new == old.with_menu(new.menu).closed()
            &&& actions == seq![UiAction::PickClosingEffect, UiAction::Render]
        } else {
            &&& new == old.with_menu(new.menu)
            &&& actions == seq![UiAction::Render]
        }
    }
}

/// `new` and `actions` are what key `key` makes of `old`, by the route it takes.
pub open spec fn key_outcome(old: ChatState, new: ChatState, key: KeyEvent, actions: Seq<UiAction>) -> bool {
    let menu = old.menu;
    let sel = menu.selected_menu_item as int;
    let len = menu.menu_items@.len() as int;
    let moved = seq![UiAction::RestartAnimationClock, UiAction::Render];
    match key_route(old, key) {
        KeyRoute::AnimationPrev => {
            &&& new == (ChatState {
                current_animation_index: prev_index(
                    old.current_animation_index as int,
                    old.animation_count as int,
                ) as usize,
                ..old
            })
            &&& actions == moved
        },
        KeyRoute::AnimationNext => {
            &&& new == (ChatState {
                current_animation_index: next_index(
                    old.current_animation_index as int,
                    old.animation_count as int,
                ) as usize,
                ..old
            })
            &&& actions == moved
        },
        KeyRoute::RecordShortcut(index) => {
            &&& new == (ChatState { shortcuts: new.shortcuts, ..old })
            &&& exists|label: String|
                label@ == key_label(key) && new.shortcuts@ == shortcut_recorded(
                    old.shortcuts@,
                    index as int,
                    label,
                )
            &&& actions == seq![UiAction::Render]
        },
        KeyRoute::MenuUp => {
            &&& new == old.with_menu(menu_at(menu, prev_index(sel, len)))
            &&& actions == preview_then_render(new.menu)
        },
        KeyRoute::MenuDown => {
            &&& new == old.with_menu(menu_at(menu, next_index(sel, len)))
            &&& actions == preview_then_render(new.menu)
        },
        KeyRoute::MenuPageUp => {
            &&& new == old.with_menu(menu_at(menu, page_up_index(sel, MENU_PAGE as int)))
            &&& actions == preview_then_render(new.menu)
        },
        KeyRoute::MenuPageDown => {
            &&& new == old.with_menu(menu_at(menu, page_down_index(sel, MENU_PAGE as int, len)))
            &&& actions == preview_then_render(new.menu)
        },
        KeyRoute::MenuTop => {
            &&& new == old.with_menu(menu_at(menu, 0))
            &&& actions == preview_then_render(new.menu)
        },
        KeyRoute::MenuBottom => {
            &&& new == old.with_menu(menu_at(menu, len - 1))
            &&& actions == preview_then_render(new.menu)
        },
        KeyRoute::ThemeModeToggle => {
            &&& new == old
            &&& actions == seq![UiAction::ToggleThemeMode, UiAction::Render]
        },
        KeyRoute::MenuEnter => selection_outcome(old, new, actions),
        KeyRoute::MenuEsc => if menu.current_submenu is Some {
            &&& Menu::returned_to_main(menu, new.menu)
            &&& new == old.with_menu(new.menu)
            &&& actions == seq![UiAction::Render]
        } else {
            &&& new == old.closed()
            &&& actions == seq![UiAction::PickClosingEffect, UiAction::Render]
        },
        KeyRoute::ToggleMenu => if old.show_tachyon_menu {
            &&& new == old.closed()
            &&& actions == seq![UiAction::PickClosingEffect, UiAction::Render]
        } else {
            &&& new == old.opened()
            &&& actions == seq![UiAction::PickOpeningEffect, UiAction::Render]
        },
        KeyRoute::OpenShortcut(action) => {
            &&& if action == MenuAction::ContextControlPanel {
                new == old.opened()
            } else {
                &&& Menu::entered(menu, new.menu, submenu_of(action))
                &&& new == old.opened().with_menu(new.menu)
            }
            &&& actions == seq![UiAction::PickOpeningEffect, UiAction::Render]
        },
        KeyRoute::ScrollChatUp => {
            &&& new == (ChatState {
                chat_scroll_offset: page_up_index(old.chat_scroll_offset as int, 1) as usize,
                ..old
            })
            &&& actions == seq![UiAction::Render]
        },
        KeyRoute::ScrollChatDown => {
            &&& new == (ChatState { chat_scroll_offset: (old.chat_scroll_offset + 1) as usize, ..old })
            &&& actions == seq![UiAction::Render]
        },
        KeyRoute::ToInput => {
            &&& new == old
            &&& actions == seq![UiAction::ForwardKeyToInput]
        },
        KeyRoute::ToBrowser => {
            &&& new == old
            &&& actions == seq![UiAction::ForwardKeyToBrowser]
        },
    }
}

/// `new` and `actions` are what pointer event `mouse` makes of `old`. With the
/// palette open: a move hovers (previewing a hovered theme where something changed),
/// a press acts on the clicked item as Enter does, and the wheel moves the
/// selection; moves, presses and other events then also go to the file browser.
pub open spec fn mouse_outcome(old: ChatState, new: ChatState, mouse: MouseEvent, actions: Seq<UiAction>) -> bool {
    let col = mouse.column as int;
    let row = mouse.row as int;
    let menu = old.menu;
    let sel = menu.selected_menu_item as int;
    let len = menu.menu_items@.len() as int;
    let forward = seq![UiAction::ForwardMouseToBrowser];
    if !old.show_tachyon_menu {
        new == old && actions == forward
    } else {
        match mouse.kind {
            MouseKind::Moved => exists|changed: bool|
                {
                    &&& Menu::after_pointer(menu, new.menu, col, row, false, changed)
                    &&& new == old.with_menu(new.menu)
                    &&& actions == (if changed && new.menu.hovered_theme() is Some {
                        seq![UiAction::ApplyTheme(new.menu.hovered_theme()->0)]
                    } else {
                        seq![]
                    }) + seq![UiAction::Render] + forward
                },
            MouseKind::Down => exists|clicked: ChatState, changed: bool|
                {
                    &&& Menu::after_pointer(menu, clicked.menu, col, row, true, changed)
                    &&& clicked == old.with_menu(clicked.menu)
                    &&& if !changed {
                        new == clicked && actions == forward
                    } else if clicked.menu.selected_tagged(0, toggle_mode_tag())
                        || clicked.menu.selected_tagged(1, toggle_recording_tag()) {
                        selection_outcome(clicked, new, actions)
                    } else {
                        exists|picked: Seq<UiAction>|
                            selection_outcome(clicked, new, picked) && actions == picked + forward
                    }
                },
            MouseKind::ScrollUp => {
                &&& new == old.with_menu(menu_at(menu, prev_index(sel, len)))
                &&& actions == seq![UiAction::Render]
            },
            MouseKind::ScrollDown => {
                &&& new == old.with_menu(menu_at(menu, next_index(sel, len)))
                &&& actions == seq![UiAction::Render]
            },
            MouseKind::Other => new == old && actions == forward,
        }
    }
}

/// The render request flag after a request: a partial request marks partial
/// drawing (2) only where nothing was requested (0); a full request marks full
/// drawing (1).
pub open spec fn render_flag_spec(current: u8, partial: bool) -> u8 {
    if partial {
        if current == 0 {
            2
        } else {
            current
        }
    } else {
        1
    }
}

/// The render request flag after a request for drawing, partial or full.
pub fn render_flag_after(current: u8, partial: bool) -> (flag: u8)
    ensures
        flag == render_flag_spec(current, partial),
{
    if partial {
        if current == 0 {
            2
        } else {
            current
        }
    } else {
        1
    }
}

/// `new` and `actions` are what a timer tick makes of `old`: the chat takes in
/// replies; on the splash animation, once its font has been shown long enough,
/// the next font is chosen and its clock restarted; the palette's clock ticks and
/// the screen is drawn.
pub open spec fn timer_outcome(old: ChatState, new: ChatState, font_due: bool, actions: Seq<UiAction>) -> bool {
    if old.animation_mode && font_due && old.current_animation_index == old.splash_animation_index {
        &&& new == (ChatState {
            splash_font_index: ((old.splash_font_index + 1) % (SPLASH_FONT_COUNT as int)) as usize,
            ..old
        })
        &&& actions == seq![
            UiAction::UpdateChat,
            UiAction::RestartFontClock,
            UiAction::TickMenu,
            UiAction::Render,
        ]
    } else {
        &&& new == old
        &&& actions == seq![UiAction::UpdateChat, UiAction::TickMenu, UiAction::Render]
    }
}

/// Splits a sequence of calls into the last one, to run now, and the others, to
/// send again as a sequence when there are any.
pub fn split_seq<T>(actions: Vec<T>) -> (split: (Option<T>, Option<Vec<T>>))
    ensures
        actions@.len() == 0 ==> split.0 is None && split.1 is None,
        actions@.len() > 0 ==> split.0 == Some(actions@.last()),
        actions@.len() > 1 ==> (split.1 matches Some(rest) && rest@ == actions@.drop_last()),
        actions@.len() <= 1 ==> split.1 is None,
{
    let mut actions = actions;
    let last = actions.pop();
    if actions.len() > 0 {
        (last, Some(actions))
    } else {
        (last, None)
    }
}

/// What pasting `text` does: type it into the browser's input in insert mode,
/// overwrite with it in replace mode, nothing otherwise or where the input is hidden.
pub open spec fn paste_outcome(text: String, input_visible: bool, mode: InputMode) -> Seq<UiAction> {
    if input_visible && mode == InputMode::Insert {
        seq![UiAction::TypeIntoInput(text)]
    } else if input_visible && mode == InputMode::Replace {
        seq![UiAction::ReplaceInInput(text)]
    } else {
        seq![]
    }
}

/// What the chat input's answer `action` asks for: a submitted message joins the
/// chat, exiting ends the program, history moves ask for nothing, anything else
/// redraws.
pub open spec fn input_outcome(action: InputAction) -> Seq<UiAction> {
    match action {
        InputAction::Submit(msg) => seq![UiAction::AddUserMessage(msg), UiAction::Render],
        InputAction::Exit => seq![UiAction::ExitWithFarewell],
        InputAction::Changed => seq![UiAction::Render],
        InputAction::PreviousHistory => seq![],
        InputAction::NextHistory => seq![],
        InputAction::NoOp => seq![UiAction::Render],
    }
}

/// The single piece of work `a`.
fn one_action(a: UiAction) -> (actions: Vec<UiAction>)
    ensures
        actions@ == seq![a],
{
    vec![a]
}

/// The work `a`, then `b`.
fn two_actions(a: UiAction, b: UiAction) -> (actions: Vec<UiAction>)
    ensures
        actions@ == seq![a, b],
{
    vec![a, b]
}

/// The work `a`, `b`, `c`, in order.
fn three_actions(a: UiAction, b: UiAction, c: UiAction) -> (actions: Vec<UiAction>)
    ensures
        actions@ == seq![a, b, c],
{
    vec![a, b, c]
}

/// The work `a`, `b`, `c`, `d`, in order.
fn four_actions(a: UiAction, b: UiAction, c: UiAction, d: UiAction) -> (actions: Vec<UiAction>)
    ensures
        actions@ == seq![a, b, c, d],
{
    vec![a, b, c, d]
}

/// Turns terminal events into changes of the chat state and work for the application.
pub struct Dispatcher {
    pub app: ChatState,
}

impl Dispatcher {
    /// A dispatcher over `app`.
    pub fn new(app: ChatState) -> (dispatcher: Self)
        ensures
            dispatcher.app == app,
    {
        Self { app }
    }

    /// Where `key` goes in the current state.
    pub fn route_key(&self, key: &KeyEvent) -> (route: KeyRoute)
        ensures
            route == key_route(self.app, *key),
    {
        let st = &self.app;
        let code = key.code;
        let open = st.show_tachyon_menu;
        if st.animation_mode && code == KeyCode::Left {
            return KeyRoute::AnimationPrev;
        }
        if st.animation_mode && code == KeyCode::Right {
            return KeyRoute::AnimationNext;
        }
        if open && st.menu.recording_mode && st.menu.current_submenu == Some(1) {
            if let Some(index) = st.menu.get_selected_shortcut_index() {
                let navigation = code == KeyCode::Up || code == KeyCode::Down || code == KeyCode::PageUp
                    || code == KeyCode::PageDown || code == KeyCode::Home || code == KeyCode::End
                    || code == KeyCode::Esc || code == KeyCode::Enter || code == KeyCode::Char('j')
                    || code == KeyCode::Char('k') || code == KeyCode::Char('g') || code
                    == KeyCode::Char('G');
                if !navigation {
                    return KeyRoute::RecordShortcut(index);
                }
            }
        }
        if open {
            if code == KeyCode::Up || code == KeyCode::Char('k') {
                return KeyRoute::MenuUp;
            }
            if code == KeyCode::Down || code == KeyCode::Char('j') {
                return KeyRoute::MenuDown;
            }
            if code == KeyCode::PageUp {
                return KeyRoute::MenuPageUp;
            }
            if code == KeyCode::PageDown {
                return KeyRoute::MenuPageDown;
            }
            if code == KeyCode::Home || code == KeyCode::Char('g') {
                return KeyRoute::MenuTop;
            }
            if code == KeyCode::End || code == KeyCode::Char('G') {
                return KeyRoute::MenuBottom;
            }
            if (code == KeyCode::Char('t') || code == KeyCode::Char('T')) && st.menu.current_submenu
                == Some(0) {
                return KeyRoute::ThemeModeToggle;
            }
            if code == KeyCode::Enter {
                return KeyRoute::MenuEnter;
            }
            if code == KeyCode::Esc || code == KeyCode::Backspace {
                return KeyRoute::MenuEsc;
            }
        }
        if code == KeyCode::Char('0') {
            return KeyRoute::ToggleMenu;
        }
        if !open {
            let pressed = format_key_event(key);
            if let Some(action) = find_shortcut(&st.shortcuts, &pressed) {
                return KeyRoute::OpenShortcut(action);
            }
        }
        let chat_screen = st.mode == AppMode::Chat || st.mode == AppMode::FilePicker;
        if chat_screen && st.has_messages && st.input_empty && code == KeyCode::Up {
            return KeyRoute::ScrollChatUp;
        }
        if chat_screen && st.has_messages && st.input_empty && code == KeyCode::Down {
            return KeyRoute::ScrollChatDown;
        }
        if chat_screen {
            KeyRoute::ToInput
        } else {
            KeyRoute::ToBrowser
        }
    }

    fn preview_actions(menu: &Menu) -> (actions: Vec<UiAction>)
        requires
            menu.current_submenu == Some(0usize) ==> menu.selected_menu_item < menu.menu_items@.len(),
        ensures
            actions@ == preview_then_render(*menu),
    {
        let mut actions: Vec<UiAction> = Vec::new();
        if let Some(name) = menu.get_highlighted_theme_name() {
            actions.push(UiAction::ApplyTheme(name));
        }
        actions.push(UiAction::Render);
        actions
    }

    fn act_on_selection(&mut self) -> (actions: Vec<UiAction>)
        requires
            old(self).app.wf(),
        ensures
            selection_outcome(old(self).app, final(self).app, actions@),
            final(self).app.wf(),
    {
        if self.app.menu.is_toggle_mode_selected() {
            return two_actions(UiAction::ToggleThemeMode, UiAction::Render);
        }
        if self.app.menu.is_toggle_recording_selected() {
            self.app.menu.toggle_recording_mode();
            return one_action(UiAction::Render);
        }
        let theme_name = self.app.menu.get_selected_theme_name();
        let _ = self.app.menu.select_current_item();
        if theme_name.is_some() {
            self.app.menu_is_closing = true;
            self.app.show_tachyon_menu = false;
            return two_actions(UiAction::PickClosingEffect, UiAction::Render);
        }
        one_action(UiAction::Render)
    }

    /// Handles a key press: changes the state as the key's route says and returns
    /// the work left to the application.
    pub fn dispatch_key(&mut self, key: KeyEvent) -> (actions: Vec<UiAction>)
        requires
            old(self).app.wf(),
            old(self).app.key_ready(key),
        ensures
            key_outcome(old(self).app, final(self).app, key, actions@),
            final(self).app.wf(),
    {
        match self.route_key(&key) {
            KeyRoute::AnimationPrev => {
                if self.app.current_animation_index == 0 {
                    self.app.current_animation_index = self.app.animation_count - 1;
                } else {
                    self.app.current_animation_index -= 1;
                }
                two_actions(UiAction::RestartAnimationClock, UiAction::Render)
            },
            KeyRoute::AnimationNext => {
                proof {
                    crate::nav::lemma_moves_stay_in_list(
                        self.app.current_animation_index as int,
                        self.app.animation_count as int,
                    );
                }
                self.app.current_animation_index = (self.app.current_animation_index + 1)
                    % self.app.animation_count;
                two_actions(UiAction::RestartAnimationClock, UiAction::Render)
            },
            KeyRoute::RecordShortcut(index) => {
                let shortcut = format_key_event(&key);
                let ghost label = shortcut;
                self.app.update_keyboard_shortcut(index, shortcut);
                assert(label@ == key_label(key) && self.app.shortcuts@ == shortcut_recorded(
                    old(self).app.shortcuts@,
                    index as int,
                    label,
                ));
                one_action(UiAction::Render)
            },
            KeyRoute::MenuUp => {
                self.app.menu.select_prev_menu_item();
                Self::preview_actions(&self.app.menu)
            },
            KeyRoute::MenuDown => {
                assert(self.app.menu.menu_items@.len() == self.app.menu.menu_items.len());
                self.app.menu.select_next_menu_item();
                Self::preview_actions(&self.app.menu)
            },
            KeyRoute::MenuPageUp => {
                self.app.menu.page_up(MENU_PAGE);
                Self::preview_actions(&self.app.menu)
            },
            KeyRoute::MenuPageDown => {
                self.app.menu.page_down(MENU_PAGE);
                Self::preview_actions(&self.app.menu)
            },
            KeyRoute::MenuTop => {
                self.app.menu.jump_to_top();
                Self::preview_actions(&self.app.menu)
            },
            KeyRoute::MenuBottom => {
                self.app.menu.jump_to_bottom();
                Self::preview_actions(&self.app.menu)
            },
            KeyRoute::ThemeModeToggle => two_actions(UiAction::ToggleThemeMode, UiAction::Render),
            KeyRoute::MenuEnter => self.act_on_selection(),
            KeyRoute::MenuEsc => {
                if self.app.menu.current_submenu.is_some() {
                    self.app.menu.go_back_to_main();
                    one_action(UiAction::Render)
                } else {
                    self.app.menu_is_closing = true;
                    self.app.show_tachyon_menu = false;
                    two_actions(UiAction::PickClosingEffect, UiAction::Render)
                }
            },
            KeyRoute::ToggleMenu => {
                if self.app.show_tachyon_menu {
                    self.app.menu_is_closing = true;
                    self.app.show_tachyon_menu = false;
                    two_actions(UiAction::PickClosingEffect, UiAction::Render)
                } else {
                    self.app.menu_is_closing = false;
                    self.app.show_tachyon_menu = true;
                    two_actions(UiAction::PickOpeningEffect, UiAction::Render)
                }
            },
            KeyRoute::OpenShortcut(action) => {
                self.app.menu_is_closing = false;
                self.app.show_tachyon_menu = true;
                if action != MenuAction::ContextControlPanel {
                    self.app.menu.enter_submenu(submenu_index(action));
                }
                two_actions(UiAction::PickOpeningEffect, UiAction::Render)
            },
            KeyRoute::ScrollChatUp => {
                self.app.chat_scroll_offset = self.app.chat_scroll_offset.saturating_sub(1);
                one_action(UiAction::Render)
            },
            KeyRoute::ScrollChatDown => {
                self.app.chat_scroll_offset = self.app.chat_scroll_offset + 1;
                one_action(UiAction::Render)
            },
            KeyRoute::ToInput => one_action(UiAction::ForwardKeyToInput),
            KeyRoute::ToBrowser => one_action(UiAction::ForwardKeyToBrowser),
        }
    }

    /// Handles the chat input's answer to a key.
    pub fn dispatch_input(&self, action: InputAction) -> (actions: Vec<UiAction>)
        ensures
            actions@ == input_outcome(action),
    {
        match action {
            InputAction::Submit(msg) => two_actions(UiAction::AddUserMessage(msg), UiAction::Render),
            InputAction::Exit => one_action(UiAction::ExitWithFarewell),
            InputAction::Changed => one_action(UiAction::Render),
            InputAction::PreviousHistory => Vec::new(),
            InputAction::NextHistory => Vec::new(),
            InputAction::NoOp => one_action(UiAction::Render),
        }
    }

    /// Handles a pointer event: changes the state as `mouse_outcome` says and
    /// returns the work left to the application.
    pub fn dispatch_mouse(&mut self, mouse: MouseEvent) -> (actions: Vec<UiAction>)
        requires
            old(self).app.wf(),
            old(self).app.show_tachyon_menu && (mouse.kind == MouseKind::Moved || mouse.kind
                == MouseKind::Down) ==> old(self).app.pointer_ok(),
        ensures
            mouse_outcome(old(self).app, final(self).app, mouse, actions@),
            final(self).app.wf(),
    {
        if !self.app.show_tachyon_menu {
            return one_action(UiAction::ForwardMouseToBrowser);
        }
        let ghost start = self.app;
        match mouse.kind {
            MouseKind::Moved => {
                let changed = self.app.menu.handle_mouse(mouse.column, mouse.row, false);
                let mut actions: Vec<UiAction> = Vec::new();
                if changed {
                    if let Some(name) = self.app.menu.get_hovered_theme_name() {
                        actions.push(UiAction::ApplyTheme(name));
                    }
                }
                actions.push(UiAction::Render);
                actions.push(UiAction::ForwardMouseToBrowser);
                proof {
                    assert(self.app == start.with_menu(self.app.menu));
                    assert(actions@ =~= (if changed && self.app.menu.hovered_theme() is Some {
                        seq![UiAction::ApplyTheme(self.app.menu.hovered_theme()->0)]
                    } else {
                        seq![]
                    }) + seq![UiAction::Render] + seq![UiAction::ForwardMouseToBrowser]);
                }
                actions
            },
            MouseKind::Down => {
                let changed = self.app.menu.handle_mouse(mouse.column, mouse.row, true);
                let ghost clicked = self.app;
                assert(clicked == start.with_menu(clicked.menu));
                if changed {
                    let toggles = self.app.menu.is_toggle_mode_selected()
                        || self.app.menu.is_toggle_recording_selected();
                    let mut actions = self.act_on_selection();
                    if !toggles {
                        let ghost picked = actions@;
                        actions.push(UiAction::ForwardMouseToBrowser);
                        assert(actions@ =~= picked + seq![UiAction::ForwardMouseToBrowser]);
                    }
                    return actions;
                }
                one_action(UiAction::ForwardMouseToBrowser)
            },
            MouseKind::ScrollUp => {
                self.app.menu.select_prev_menu_item();
                one_action(UiAction::Render)
            },
            MouseKind::ScrollDown => {
                assert(self.app.menu.menu_items@.len() == self.app.menu.menu_items.len());
                self.app.menu.select_next_menu_item();
                one_action(UiAction::Render)
            },
            MouseKind::Other => one_action(UiAction::ForwardMouseToBrowser),
        }
    }

    /// Handles a timer tick; `font_due` tells whether the splash font has been shown
    /// long enough.
    pub fn dispatch_timer(&mut self, font_due: bool) -> (actions: Vec<UiAction>)
        requires
            old(self).app.wf(),
        ensures
            timer_outcome(old(self).app, final(self).app, font_due, actions@),
            final(self).app.wf(),
    {
        if self.app.animation_mode && font_due {
            if self.app.current_animation_index == self.app.splash_animation_index {
                self.app.splash_font_index = (self.app.splash_font_index + 1) % SPLASH_FONT_COUNT;
                return four_actions(UiAction::UpdateChat, UiAction::RestartFontClock, UiAction::TickMenu, UiAction::Render);
            }
        }
        three_actions(UiAction::UpdateChat, UiAction::TickMenu, UiAction::Render)
    }

    /// Handles pasted text for the file browser's input.
    pub fn dispatch_paste(&self, text: String, input_visible: bool, mode: InputMode) -> (actions: Vec<
        UiAction,
    >)
        ensures
            actions@ == paste_outcome(text, input_visible, mode),
    {
        if input_visible {
            if mode == InputMode::Insert {
                return one_action(UiAction::TypeIntoInput(text));
            } else if mode == InputMode::Replace {
                return one_action(UiAction::ReplaceInInput(text));
            }
        }
        Vec::new()
    }

    /// Handles any event: routes it to the handler of its kind.
    pub fn dispatch(&mut self, event: Event) -> (actions: Vec<UiAction>)
        requires
            old(self).app.wf(),
            event matches Event::Key(key) ==> old(self).app.key_ready(key),
            event matches Event::Mouse(mouse) ==> (old(self).app.show_tachyon_menu && (mouse.kind
                == MouseKind::Moved || mouse.kind == MouseKind::Down) ==> old(self).app.pointer_ok()),
        ensures
            final(self).app.wf(),
            match event {
                Event::Render(partial) => final(self).app == old(self).app && actions@ == seq![
                    if partial { UiAction::RenderPartial } else { UiAction::Render },
                ],
                Event::Key(key) => key_outcome(old(self).app, final(self).app, key, actions@),
                Event::Mouse(mouse) => mouse_outcome(old(self).app, final(self).app, mouse, actions@),
                Event::Resize => final(self).app == old(self).app && actions@ == seq![
                    UiAction::ReflowBrowser,
                ],
                Event::Focus => final(self).app == old(self).app && actions@ == seq![
                    UiAction::FocusBrowser,
                ],
                Event::Paste(text, visible, mode) => final(self).app == old(self).app && actions@
                    == paste_outcome(text, visible, mode),
                Event::Timer(font_due) => timer_outcome(old(self).app, final(self).app, font_due, actions@),
            },
    {
        match event {
            Event::Render(partial) => {
                if partial {
                    one_action(UiAction::RenderPartial)
                } else {
                    one_action(UiAction::Render)
                }
            },
            Event::Key(key) => self.dispatch_key(key),
            Event::Mouse(mouse) => self.dispatch_mouse(mouse),
            Event::Resize => one_action(UiAction::ReflowBrowser),
            Event::Focus => one_action(UiAction::FocusBrowser),
            Event::Paste(text, visible, mode) => self.dispatch_paste(text, visible, mode),
            Event::Timer(font_due) => self.dispatch_timer(font_due),
        }
    }
}

} // verus!
