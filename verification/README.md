# yazi_fm

The command palette, themes and event dispatch of a terminal file manager with a
chat pane, written in Verus. Everything in `src/` is verified; its public
operations carry contracts that state what they return and how they change their
arguments, and the properties that span several operations are proved as lemmas.

## Layout

- `src/theme.rs`: theme definitions, the registry they are read into, and the
  resolved chat theme with its built-in dark and light fallbacks.
- `src/menu.rs`: the command palette with its categories and submenus, the
  opening and closing effects (through tachyonfx), pointer hit-testing and the
  layout of one drawing.
- `src/menu_navigation.rs`: the palette variant whose first submenu lists the
  themes and whose second records keyboard shortcuts.
- `src/nav.rs`: wrap-around and paging arithmetic on list selections.
- `src/keys.rs`: key events and their shortcut labels (`Ctrl+Shift+K`).
- `src/text.rs`: the string helpers behind titles and list rows.
- `src/dispatcher.rs`: the decisions taken on each terminal event, as a function
  from state and event to the next state and the work left to the application.
- `src/effects.rs`, `src/style.rs`: the trusted boundary to tachyonfx and ratatui.
- `src/laws.rs`: properties that span several operations, proved.
- `app/lib.rs`: what stays outside verification: reading the theme file with
  serde, converting crossterm events, floating-point colours, drawing with
  ratatui, and the shared render flag.
- `tests/`: tests on concrete values, run against the real outside crates.
