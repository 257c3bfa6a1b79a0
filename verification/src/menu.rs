use vstd::prelude::*;

use crate::effects::{
    clone_effect, duration_from_millis, expand_fx, fx_coalesce, fx_expand, fx_shrink,
    fx_slide_in, fx_slide_out, fx_sweep_in, fx_sweep_out, millis_duration, rng_next, shrink_fx,
    sweep_in_fx, sweep_out_fx, FxAxis, FxEasing, FxMotion,
};
use crate::nav::{next_index, page_down_index, page_up_index, prev_index};
use crate::text::{
    decimal, item_line, item_line_cuttable, item_line_text, push_decimal, push_spaces, spaces,
    trim_numbering, trimmed_numbering,
};
use crate::theme::{ChatTheme, Color, ThemeVariant};
use tachyonfx::{Duration, Effect, SimpleRng};

verus! {

/// A rectangle of terminal cells.
#[derive(Debug, Clone, Copy, PartialEq, Eq, Structural)]
pub struct Rect {
    pub x: u16,
    pub y: u16,
    pub width: u16,
    pub height: u16,
}

impl Rect {
    /// Holds when the right and bottom edges are still `u16` coordinates.
    pub open spec fn fits(self) -> bool {
        &&& self.x + self.width <= u16::MAX
        &&& self.y + self.height <= u16::MAX
    }

    /// Holds when the cell at column `col`, row `row` lies inside the rectangle.
    pub open spec fn covers(self, col: int, row: int) -> bool {
        &&& self.x <= col < self.x + self.width
        &&& self.y <= row < self.y + self.height
    }

    /// Whether the cell at column `col`, row `row` lies inside the rectangle.
    pub fn contains_cell(&self, col: u16, row: u16) -> (inside: bool)
        requires
            self.fits(),
        ensures
            inside == self.covers(col as int, row as int),
    {
        !(col < self.x || col >= self.x + self.width || row < self.y || row >= self.y + self.height)
    }
}

/// Where a pointer falls on a drawn list.
#[derive(Debug, Clone, Copy, PartialEq, Eq, Structural)]
pub enum PointerTarget {
    /// Outside the list's box.
    Outside,
    /// Inside the box but over no row.
    Gap,
    /// Over the row of the item with this index.
    Row(usize),
}

/// Holds when area `k` is the first of `areas` that covers the cell.
pub open spec fn first_hit(areas: Seq<Rect>, col: int, row: int, k: int) -> bool {
    &&& 0 <= k < areas.len()
    &&& areas[k].covers(col, row)
    &&& forall|j: int| 0 <= j < k ==> !(#[trigger] areas[j]).covers(col, row)
}

/// Where the cell at column `col`, row `row` falls on a list drawn in `area` whose
/// rows, from item `scroll` on, lie in `areas`: the first row area that covers it
/// gives the item.
pub open spec fn pointer_target_of(area: Rect, areas: Seq<Rect>, scroll: int, col: int, row: int) -> PointerTarget {
    if !area.covers(col, row) {
        PointerTarget::Outside
    } else if exists|k: int| first_hit(areas, col, row, k) {
        PointerTarget::Row((scroll + choose|k: int| first_hit(areas, col, row, k)) as usize)
    } else {
        PointerTarget::Gap
    }
}

/// Holds when hit-testing a list can be done in `u16` and `usize` arithmetic.
pub open spec fn pointer_ready(area: Rect, areas: Seq<Rect>, scroll: int) -> bool {
    &&& area.fits()
    &&& forall|k: int| 0 <= k < areas.len() ==> (#[trigger] areas[k]).fits()
    &&& scroll + areas.len() <= usize::MAX
}

/// A row that the pointer hits is one of the rows drawn, counted from `scroll`.
pub proof fn lemma_pointer_row_listed(area: Rect, areas: Seq<Rect>, scroll: int, col: int, row: int)
    requires
        pointer_ready(area, areas, scroll),
        0 <= scroll,
    ensures
        pointer_target_of(area, areas, scroll, col, row) matches PointerTarget::Row(idx) ==> scroll
            <= idx < scroll + areas.len(),
{
}

/// Where the cell at column `col`, row `row` falls on the list drawn in `area`.
pub fn pointer_target(area: &Rect, areas: &Vec<Rect>, scroll: usize, col: u16, row: u16) -> (target: PointerTarget)
    requires
        pointer_ready(*area, areas@, scroll as int),
    ensures
        target == pointer_target_of(*area, areas@, scroll as int, col as int, row as int),
{
    if !area.contains_cell(col, row) {
        return PointerTarget::Outside;
    }
    let mut i: usize = 0;
    while i < areas.len()
        invariant
            i <= areas@.len(),
            pointer_ready(*area, areas@, scroll as int),
            area.covers(col as int, row as int),
            forall|j: int| 0 <= j < i ==> !(#[trigger] areas@[j]).covers(col as int, row as int),
        decreases areas@.len() - i,
    {
        if areas[i].contains_cell(col, row) {
            proof {
                assert(first_hit(areas@, col as int, row as int, i as int));
                let k = choose|k: int| first_hit(areas@, col as int, row as int, k);
                assert(k == i) by {
                    if k < i {
                        assert(!areas@[k].covers(col as int, row as int));
                    } else if k > i {
                        assert(!areas@[i as int].covers(col as int, row as int));
                    }
                }
            }
            return PointerTarget::Row(scroll + i);
        }
        i = i + 1;
    }
    proof {
        assert(!(exists|k: int| first_hit(areas@, col as int, row as int, k)));
    }
    PointerTarget::Gap
}

/// The text of a palette entry given as two static strings.
pub open spec fn entry_text(entry: (&'static str, &'static str)) -> (Seq<char>, Seq<char>) {
    (entry.0@, entry.1@)
}

/// The text of a list of palette entries.
pub open spec fn entries_text(entries: Seq<(&'static str, &'static str)>) -> Seq<(Seq<char>, Seq<char>)> {
    entries.map_values(|e: (&'static str, &'static str)| entry_text(e))
}

/// The text of a list of owned menu items.
pub open spec fn items_text(items: Seq<(String, String)>) -> Seq<(Seq<char>, Seq<char>)> {
    items.map_values(|e: (String, String)| (e.0@, e.1@))
}

/// The entry that leads from a submenu back to the main palette.
pub open spec fn back_entry() -> (Seq<char>, Seq<char>) {
    ("Back"@, Seq::<char>::empty())
}

/// Owned copies of `entries`, in order.
pub fn owned_entries(entries: &Vec<(&'static str, &'static str)>) -> (items: Vec<(String, String)>)
    ensures
        items_text(items@) == entries_text(entries@),
{
    let mut items: Vec<(String, String)> = Vec::new();
    let mut i: usize = 0;
    while i < entries.len()
        invariant
            i <= entries@.len(),
            items_text(items@) == entries_text(entries@.subrange(0, i as int)),
        decreases entries@.len() - i,
    {
        let (title, description) = entries[i];
        let ghost before = items@;
        let pair = (title.to_owned(), description.to_owned());
        assert(pair.0@ == entries@[i as int].0@ && pair.1@ == entries@[i as int].1@);
        items.push(pair);
        assert(items@ == before.push(pair));
        assert(entries@.subrange(0, i + 1) =~= entries@.subrange(0, i as int).push(entries@[i as int]));
        assert(items_text(items@) =~= items_text(before).push((pair.0@, pair.1@)));
        assert(items_text(items@) =~= entries_text(entries@.subrange(0, i + 1)));
        i = i + 1;
    }
    assert(entries@.subrange(0, entries@.len() as int) =~= entries@);
    items
}

/// The names of the opening effects, in order.
pub open spec fn opening_effect_names() -> Seq<Seq<char>> {
    seq![
        "sweep in left to right"@,
        "sweep in right to left"@,
        "sweep in top to bottom"@,
        "sweep in bottom to top"@,
        "slide in from bottom"@,
        "slide in from top"@,
        "slide in from left"@,
        "slide in from right"@,
        "expand vertical"@,
        "expand horizontal"@,
        "coalesce"@,
    ]
}

/// The names of the closing effects, in order.
pub open spec fn closing_effect_names() -> Seq<Seq<char>> {
    seq![
        "sweep out down to up"@,
        "sweep out up to down"@,
        "sweep out left to right"@,
        "sweep out right to left"@,
        "slide out to right"@,
        "slide out to left"@,
        "slide out to top"@,
        "slide out to bottom"@,
        "shrink vertical"@,
        "shrink horizontal"@,
    ]
}

/// The effects the palette opens and closes with, each under its name.
pub struct EffectsRepository {
    opening_effects: Vec<(&'static str, Effect)>,
    closing_effects: Vec<(&'static str, Effect)>,
}

impl EffectsRepository {
    /// The opening effects, each with its name.
    pub closed spec fn opening(&self) -> Seq<(&'static str, Effect)> {
        self.opening_effects@
    }

    /// The closing effects, each with its name.
    pub closed spec fn closing(&self) -> Seq<(&'static str, Effect)> {
        self.closing_effects@
    }

    /// Holds when the repository holds the eleven opening and ten closing effects under
    /// their names, made over the screen background `bg` with the accent colours
    /// `accents`. Sweeps, expansions and shrinks are given exactly; slides and the
    /// coalesce carry a generator seeded from the clock and are only named.
    pub open spec fn built_from(&self, bg: Color, accents: Seq<Color>) -> bool {
        let open = self.opening();
        let close = self.closing();
        &&& open.len() == 11
        &&& close.len() == 10
        &&& forall|i: int| 0 <= i < 11 ==> (#[trigger] open[i]).0@ == opening_effect_names()[i]
        &&& forall|i: int| 0 <= i < 10 ==> (#[trigger] close[i]).0@ == closing_effect_names()[i]
        &&& open[0].1 == sweep_in_fx(FxMotion::LeftToRight, 30, 0, bg, 2000, FxEasing::QuadOut)
        &&& open[1].1 == sweep_in_fx(FxMotion::RightToLeft, 30, 0, bg, 2000, FxEasing::QuadOut)
        &&& open[2].1 == sweep_in_fx(FxMotion::DownToUp, 30, 0, bg, 2000, FxEasing::QuadOut)
        &&& open[3].1 == sweep_in_fx(FxMotion::UpToDown, 30, 0, bg, 2000, FxEasing::QuadOut)
        &&& open[8].1 == expand_fx(FxAxis::Vertical, accents[0], bg, 1200)
        &&& open[9].1 == expand_fx(FxAxis::Horizontal, accents[1], bg, 1200)
        &&& close[0].1 == sweep_out_fx(FxMotion::DownToUp, 45, 0, accents[0], 2000, FxEasing::QuadOut)
        &&& close[1].1 == sweep_out_fx(FxMotion::UpToDown, 45, 0, accents[1], 2000, FxEasing::QuadOut)
        &&& close[2].1 == sweep_out_fx(FxMotion::LeftToRight, 45, 0, accents[2], 2000, FxEasing::QuadOut)
        &&& close[3].1 == sweep_out_fx(FxMotion::RightToLeft, 45, 0, accents[3], 2000, FxEasing::QuadOut)
        &&& close[8].1 == shrink_fx(FxAxis::Vertical, accents[1], bg, 1200)
        &&& close[9].1 == shrink_fx(FxAxis::Horizontal, accents[2], bg, 1200)
    }

    /// Holds when the repository has opening and closing effects to pick from.
    pub open spec fn wf(&self) -> bool {
        &&& self.opening().len() == 11
        &&& self.closing().len() == 10
    }

    /// Makes the effects over the screen background `screen_bg`; `accents` are the
    /// four random colours that the expansions, shrinks and closing sweeps use.
    pub fn new(screen_bg: Color, accents: [Color; 4]) -> (repo: Self)
        ensures
            repo.built_from(screen_bg, accents@),
            repo.wf(),
    {
        let slow: u32 = 2000;
        let medium: u32 = 1200;
        let color1 = accents[0];
        let color2 = accents[1];
        let color3 = accents[2];
        let color4 = accents[3];
        let opening_effects: Vec<(&'static str, Effect)> = vec![
            ("sweep in left to right", fx_sweep_in(FxMotion::LeftToRight, 30, 0, screen_bg, slow, FxEasing::QuadOut)),
            ("sweep in right to left", fx_sweep_in(FxMotion::RightToLeft, 30, 0, screen_bg, slow, FxEasing::QuadOut)),
            ("sweep in top to bottom", fx_sweep_in(FxMotion::DownToUp, 30, 0, screen_bg, slow, FxEasing::QuadOut)),
            ("sweep in bottom to top", fx_sweep_in(FxMotion::UpToDown, 30, 0, screen_bg, slow, FxEasing::QuadOut)),
            ("slide in from bottom", fx_slide_in(FxMotion::UpToDown, 20, 0, screen_bg, medium, FxEasing::QuadOut)),
            ("slide in from top", fx_slide_in(FxMotion::DownToUp, 20, 0, screen_bg, medium, FxEasing::QuadOut)),
            ("slide in from left", fx_slide_in(FxMotion::LeftToRight, 20, 0, screen_bg, medium, FxEasing::QuadOut)),
            ("slide in from right", fx_slide_in(FxMotion::RightToLeft, 20, 0, screen_bg, medium, FxEasing::QuadOut)),
            ("expand vertical", fx_expand(FxAxis::Vertical, color1, screen_bg, 1200)),
            ("expand horizontal", fx_expand(FxAxis::Horizontal, color2, screen_bg, 1200)),
            ("coalesce", fx_coalesce(medium, FxEasing::CubicOut)),
        ];
        let closing_effects: Vec<(&'static str, Effect)> = vec![
            ("sweep out down to up", fx_sweep_out(FxMotion::DownToUp, 45, 0, color1, slow, FxEasing::QuadOut)),
            ("sweep out up to down", fx_sweep_out(FxMotion::UpToDown, 45, 0, color2, slow, FxEasing::QuadOut)),
            ("sweep out left to right", fx_sweep_out(FxMotion::LeftToRight, 45, 0, color3, slow, FxEasing::QuadOut)),
            ("sweep out right to left", fx_sweep_out(FxMotion::RightToLeft, 45, 0, color4, slow, FxEasing::QuadOut)),
            ("slide out to right", fx_slide_out(FxMotion::LeftToRight, 80, 0, screen_bg, medium, FxEasing::QuadIn)),
            ("slide out to left", fx_slide_out(FxMotion::RightToLeft, 80, 0, screen_bg, medium, FxEasing::QuadIn)),
            ("slide out to top", fx_slide_out(FxMotion::DownToUp, 80, 0, screen_bg, medium, FxEasing::QuadIn)),
            ("slide out to bottom", fx_slide_out(FxMotion::UpToDown, 80, 0, screen_bg, medium, FxEasing::QuadIn)),
            ("shrink vertical", fx_shrink(FxAxis::Vertical, color2, screen_bg, 1200)),
            ("shrink horizontal", fx_shrink(FxAxis::Horizontal, color3, screen_bg, 1200)),
        ];
        let repo = EffectsRepository { opening_effects, closing_effects };
        assert(forall|i: int| 0 <= i < 11 ==> (#[trigger] repo.opening()[i]).0@ == opening_effect_names()[i]);
        assert(forall|i: int| 0 <= i < 10 ==> (#[trigger] repo.closing()[i]).0@ == closing_effect_names()[i]);
        repo
    }

    /// The opening effect that the random draw `draw` selects: the one at `draw` modulo
    /// the number of opening effects.
    pub fn opening_effect_for(&self, draw: u32) -> (picked: (&'static str, Effect))
        requires
            self.wf(),
        ensures
            picked == self.opening()[draw as int % 11],
    {
        let idx = (draw % (self.opening_effects.len() as u32)) as usize;
        let entry = &self.opening_effects[idx];
        (entry.0, clone_effect(&entry.1))
    }

    /// The closing effect that the random draw `draw` selects: the one at `draw` modulo
    /// the number of closing effects.
    pub fn closing_effect_for(&self, draw: u32) -> (picked: (&'static str, Effect))
        requires
            self.wf(),
        ensures
            picked == self.closing()[draw as int % 10],
    {
        let idx = (draw % (self.closing_effects.len() as u32)) as usize;
        let entry = &self.closing_effects[idx];
        (entry.0, clone_effect(&entry.1))
    }

    /// A random opening effect, drawn from `rng`.
    pub fn get_random_opening_effect(&self, rng: &mut SimpleRng) -> (picked: (&'static str, Effect))
        requires
            self.wf(),
        ensures
            exists|i: int| 0 <= i < 11 && picked == self.opening()[i],
    {
        let draw = rng_next(rng);
        self.opening_effect_for(draw)
    }

    /// A random closing effect, drawn from `rng`.
    pub fn get_random_closing_effect(&self, rng: &mut SimpleRng) -> (picked: (&'static str, Effect))
        requires
            self.wf(),
        ensures
            exists|i: int| 0 <= i < 10 && picked == self.closing()[i],
    {
        let draw = rng_next(rng);
        self.closing_effect_for(draw)
    }
}

/// The hue in degrees, below 360, that the random draw `draw` gives.
pub fn hue_of_draw(draw: u32) -> (hue: u16)
    ensures
        hue == draw % 360,
{
    (draw % 360) as u16
}

/// A random hue in degrees for an accent colour, drawn from `rng`.
pub fn accent_hue(rng: &mut SimpleRng) -> (hue: u16)
    ensures
        hue < 360,
{
    hue_of_draw(rng_next(rng))
}

/// The four hues in degrees, each below 360, of the accent colours that one set of
/// effects uses: four draws from `rng`, in order.
pub fn accent_hues(rng: &mut SimpleRng) -> (hues: [u16; 4])
    ensures
        forall|i: int| 0 <= i < 4 ==> #[trigger] hues@[i] < 360,
{
    let first = accent_hue(rng);
    let second = accent_hue(rng);
    let third = accent_hue(rng);
    let fourth = accent_hue(rng);
    [first, second, third, fourth]
}

/// Titles and descriptions of the main palette, in order.
pub open spec fn palette_main_menu() -> Seq<(Seq<char>, Seq<char>)> {
    seq![
        ("1. Theme"@, ""@),
        ("2. Keyboard Shortcuts"@, ""@),
        ("3. Providers"@, ""@),
        ("4. Worktree"@, ""@),
        ("5. Sandbox"@, ""@),
        ("6. Model Configuration"@, ""@),
        ("7. Approval Policy"@, ""@),
        ("8. Web Search"@, ""@),
        ("9. MCP Servers"@, ""@),
        ("10. Profiles"@, ""@),
        ("11. Feature Flags"@, ""@),
        ("12. Voice / Realtime"@, ""@),
        ("13. Notifications"@, ""@),
        ("14. Memory & History"@, ""@),
        ("15. Shell Environment"@, ""@),
        ("16. Multi-Agent"@, ""@),
        ("17. Skills"@, ""@),
        ("18. Execution Rules"@, ""@),
        ("19. Authentication"@, ""@),
        ("20. Developer Instructions"@, ""@),
        ("21. Image & Vision"@, ""@),
        ("22. Project Trust"@, ""@),
        ("23. Plugins & Apps"@, ""@),
        ("24. Session Resume"@, ""@),
        ("25. Network & Proxy"@, ""@),
        ("26. Hooks & Events"@, ""@),
    ]
}

/// Titles and descriptions of each submenu, indexed by the main palette's position.
pub open spec fn palette_submenus() -> Seq<Seq<(Seq<char>, Seq<char>)>> {
    seq![
        seq![
            ("1. Theme Selector"@, ""@),
            ("2. Dark Themes"@, ""@),
            ("3. Light Themes"@, ""@),
            ("4. Custom Theme"@, ""@),
            ("5. Syntax Highlighting"@, ""@),
            ("6. UI Colors"@, ""@),
            ("7. Font Settings"@, ""@),
            ("8. Icon Theme"@, ""@),
            ("9. Transparency"@, ""@),
        ],
        seq![
            ("1. View Shortcuts"@, ""@),
            ("2. Edit Shortcuts"@, ""@),
            ("3. Reset Shortcuts"@, ""@),
            ("4. Import Keybindings"@, ""@),
            ("5. Export Keybindings"@, ""@),
            ("6. Vim Mode"@, ""@),
            ("7. Emacs Mode"@, ""@),
            ("8. Shortcut Conflicts"@, ""@),
        ],
        seq![
            ("1. OpenAI Provider"@, ""@),
            ("2. Anthropic Provider"@, ""@),
            ("3. Local LLM Provider"@, ""@),
            ("4. Custom Provider"@, ""@),
            ("5. Provider Priority"@, ""@),
            ("6. API Key Management"@, ""@),
            ("7. Model Selection"@, ""@),
            ("8. Token Limits"@, ""@),
            ("9. Rate Limiting"@, ""@),
        ],
        seq![
            ("1. Worktree Manager"@, ""@),
            ("2. Create Worktree"@, ""@),
            ("3. Switch Worktree"@, ""@),
            ("4. Remove Worktree"@, ""@),
            ("5. Worktree Status"@, ""@),
            ("6. Branch Management"@, ""@),
            ("7. Worktree Settings"@, ""@),
        ],
        seq![
            ("1. Sandbox Environment"@, ""@),
            ("2. Container Settings"@, ""@),
            ("3. Resource Limits"@, ""@),
            ("4. Network Access"@, ""@),
            ("5. File System Access"@, ""@),
            ("6. Security Policies"@, ""@),
            ("7. Execution Timeout"@, ""@),
            ("8. Language Runtimes"@, ""@),
        ],
        seq![
            ("1. Default Model"@, ""@),
            ("2. Reasoning Effort"@, ""@),
            ("3. Model Personality"@, ""@),
            ("4. Review Model"@, ""@),
            ("5. Service Tier"@, ""@),
            ("6. Model Catalog JSON"@, ""@),
        ],
        seq![
            ("1. Policy Mode"@, ""@),
            ("2. Untrusted Mode"@, ""@),
            ("3. On-Request Mode"@, ""@),
            ("4. Never Mode"@, ""@),
            ("5. Granular Permissions"@, ""@),
        ],
        seq![
            ("1. Search Mode"@, ""@),
            ("2. Context Size"@, ""@),
            ("3. Allowed Domains"@, ""@),
            ("4. User Location"@, ""@),
        ],
        seq![
            ("1. STDIO Servers"@, ""@),
            ("2. HTTP Servers"@, ""@),
            ("3. OAuth Credentials"@, ""@),
            ("4. OAuth Callback Port"@, ""@),
            ("5. Server Management"@, ""@),
        ],
        seq![
            ("1. Active Profile"@, ""@),
            ("2. Create Profile"@, ""@),
            ("3. Edit Profile"@, ""@),
            ("4. Delete Profile"@, ""@),
            ("5. Profile Settings"@, ""@),
        ],
        seq![
            ("1. Unified Exec"@, ""@),
            ("2. Shell Snapshot"@, ""@),
            ("3. Request Rule"@, ""@),
            ("4. Undo Support"@, ""@),
            ("5. Search Tool"@, ""@),
            ("6. Git Commit"@, ""@),
            ("7. Runtime Metrics"@, ""@),
            ("8. SQLite State"@, ""@),
            ("9. Child Agents MD"@, ""@),
            ("10. Image Detail Original"@, ""@),
            ("11. Request Compression"@, ""@),
            ("12. Collaboration"@, ""@),
            ("13. Spawn CSV"@, ""@),
            ("14. Apps & Connectors"@, ""@),
            ("15. Tool Suggest"@, ""@),
            ("16. Plugins"@, ""@),
            ("17. Image Generation"@, ""@),
            ("18. MCP Dependency Install"@, ""@),
            ("19. Env Var Prompt"@, ""@),
            ("20. Steer Mode"@, ""@),
            ("21. PowerShell UTF8"@, ""@),
            ("22. Windows Sandbox"@, ""@),
            ("23. Windows Sandbox Elevated"@, ""@),
            ("24. JS REPL"@, ""@),
            ("25. Auto Approval Agent"@, ""@),
            ("26. Prevent Sleep"@, ""@),
            ("27. Suppress Warnings"@, ""@),
        ],
        seq![
            ("1. Microphone Device"@, ""@),
            ("2. Speaker Device"@, ""@),
            ("3. Audio Format"@, ""@),
            ("4. Voice Pipeline"@, ""@),
            ("5. TTS Voice"@, ""@),
            ("6. Realtime Mode"@, ""@),
        ],
        seq![
            ("1. Notify Script"@, ""@),
            ("2. TUI Notifications"@, ""@),
            ("3. Turn Completion"@, ""@),
        ],
        seq![
            ("1. Memories Path"@, ""@),
            ("2. Tool Output Budget"@, ""@),
            ("3. Session Persistence"@, ""@),
            ("4. Clear Memories"@, ""@),
        ],
        seq![
            ("1. Policy Type"@, ""@),
            ("2. Exclude List"@, ""@),
            ("3. Include Only"@, ""@),
        ],
        seq![
            ("1. Max Threads"@, ""@),
            ("2. Max Depth"@, ""@),
            ("3. Job Max Runtime"@, ""@),
            ("4. Role Definitions"@, ""@),
        ],
        seq![
            ("1. Per-Skill Toggle"@, ""@),
            ("2. Skill Path"@, ""@),
            ("3. Scan Directories"@, ""@),
        ],
        seq![
            ("1. Prefix Rules"@, ""@),
            ("2. Justification"@, ""@),
            ("3. Rule Management"@, ""@),
        ],
        seq![
            ("1. Credential Store"@, ""@),
            ("2. Auth File Path"@, ""@),
        ],
        seq![
            ("1. Inline Instructions"@, ""@),
            ("2. Instructions File"@, ""@),
            ("3. Project Instructions"@, ""@),
        ],
        seq![
            ("1. View Image Tool"@, ""@),
            ("2. Image Generation"@, ""@),
            ("3. Image Detail Original"@, ""@),
        ],
        seq![
            ("1. Root Markers"@, ""@),
            ("2. Trust Mode"@, ""@),
        ],
        seq![
            ("1. Plugin Management"@, ""@),
            ("2. Marketplace Discovery"@, ""@),
            ("3. Connector Apps"@, ""@),
            ("4. Suggestion Allowlist"@, ""@),
        ],
        seq![
            ("1. Resume Last"@, ""@),
            ("2. Resume All"@, ""@),
            ("3. Fork Session"@, ""@),
        ],
        seq![
            ("1. OpenAI Base URL"@, ""@),
            ("2. Sandbox Network"@, ""@),
            ("3. Custom Providers"@, ""@),
        ],
        seq![
            ("1. User Prompt Submit"@, ""@),
            ("2. Notify Hook"@, ""@),
            ("3. Request Permissions"@, ""@),
        ],
    ]
}

/// The entries of the main palette.
fn main_menu_table() -> (table: Vec<(&'static str, &'static str)>)
    ensures
        entries_text(table@) == palette_main_menu(),
{
    let table: Vec<(&'static str, &'static str)> = vec![
        ("1. Theme", ""),
        ("2. Keyboard Shortcuts", ""),
        ("3. Providers", ""),
        ("4. Worktree", ""),
        ("5. Sandbox", ""),
        ("6. Model Configuration", ""),
        ("7. Approval Policy", ""),
        ("8. Web Search", ""),
        ("9. MCP Servers", ""),
        ("10. Profiles", ""),
        ("11. Feature Flags", ""),
        ("12. Voice / Realtime", ""),
        ("13. Notifications", ""),
        ("14. Memory & History", ""),
        ("15. Shell Environment", ""),
        ("16. Multi-Agent", ""),
        ("17. Skills", ""),
        ("18. Execution Rules", ""),
        ("19. Authentication", ""),
        ("20. Developer Instructions", ""),
        ("21. Image & Vision", ""),
        ("22. Project Trust", ""),
        ("23. Plugins & Apps", ""),
        ("24. Session Resume", ""),
        ("25. Network & Proxy", ""),
        ("26. Hooks & Events", ""),
    ];
    assert(entries_text(table@) =~= palette_main_menu());
    table
}

/// The entries of every submenu, in the order of the main palette.
fn submenu_table() -> (table: Vec<Vec<(&'static str, &'static str)>>)
    ensures
        table@.len() == palette_submenus().len(),
        forall|i: int| 0 <= i < table@.len() ==> #[trigger] entries_text(table@[i]@) == palette_submenus()[i],
{
    let s0: Vec<(&'static str, &'static str)> = vec![
        ("1. Theme Selector", ""),
        ("2. Dark Themes", ""),
        ("3. Light Themes", ""),
        ("4. Custom Theme", ""),
        ("5. Syntax Highlighting", ""),
        ("6. UI Colors", ""),
        ("7. Font Settings", ""),
        ("8. Icon Theme", ""),
        ("9. Transparency", ""),
    ];
    assert(entries_text(s0@) =~= palette_submenus()[0]);
    let s1: Vec<(&'static str, &'static str)> = vec![
        ("1. View Shortcuts", ""),
        ("2. Edit Shortcuts", ""),
        ("3. Reset Shortcuts", ""),
        ("4. Import Keybindings", ""),
        ("5. Export Keybindings", ""),
        ("6. Vim Mode", ""),
        ("7. Emacs Mode", ""),
        ("8. Shortcut Conflicts", ""),
    ];
    assert(entries_text(s1@) =~= palette_submenus()[1]);
    let s2: Vec<(&'static str, &'static str)> = vec![
        ("1. OpenAI Provider", ""),
        ("2. Anthropic Provider", ""),
        ("3. Local LLM Provider", ""),
        ("4. Custom Provider", ""),
        ("5. Provider Priority", ""),
        ("6. API Key Management", ""),
        ("7. Model Selection", ""),
        ("8. Token Limits", ""),
        ("9. Rate Limiting", ""),
    ];
    assert(entries_text(s2@) =~= palette_submenus()[2]);
    let s3: Vec<(&'static str, &'static str)> = vec![
        ("1. Worktree Manager", ""),
        ("2. Create Worktree", ""),
        ("3. Switch Worktree", ""),
        ("4. Remove Worktree", ""),
        ("5. Worktree Status", ""),
        ("6. Branch Management", ""),
        ("7. Worktree Settings", ""),
    ];
    assert(entries_text(s3@) =~= palette_submenus()[3]);
    let s4: Vec<(&'static str, &'static str)> = vec![
        ("1. Sandbox Environment", ""),
        ("2. Container Settings", ""),
        ("3. Resource Limits", ""),
        ("4. Network Access", ""),
        ("5. File System Access", ""),
        ("6. Security Policies", ""),
        ("7. Execution Timeout", ""),
        ("8. Language Runtimes", ""),
    ];
    assert(entries_text(s4@) =~= palette_submenus()[4]);
    let s5: Vec<(&'static str, &'static str)> = vec![
        ("1. Default Model", ""),
        ("2. Reasoning Effort", ""),
        ("3. Model Personality", ""),
        ("4. Review Model", ""),
        ("5. Service Tier", ""),
        ("6. Model Catalog JSON", ""),
    ];
    assert(entries_text(s5@) =~= palette_submenus()[5]);
    let s6: Vec<(&'static str, &'static str)> = vec![
        ("1. Policy Mode", ""),
        ("2. Untrusted Mode", ""),
        ("3. On-Request Mode", ""),
        ("4. Never Mode", ""),
        ("5. Granular Permissions", ""),
    ];
    assert(entries_text(s6@) =~= palette_submenus()[6]);
    let s7: Vec<(&'static str, &'static str)> = vec![
        ("1. Search Mode", ""),
        ("2. Context Size", ""),
        ("3. Allowed Domains", ""),
        ("4. User Location", ""),
    ];
    assert(entries_text(s7@) =~= palette_submenus()[7]);
    let s8: Vec<(&'static str, &'static str)> = vec![
        ("1. STDIO Servers", ""),
        ("2. HTTP Servers", ""),
        ("3. OAuth Credentials", ""),
        ("4. OAuth Callback Port", ""),
        ("5. Server Management", ""),
    ];
    assert(entries_text(s8@) =~= palette_submenus()[8]);
    let s9: Vec<(&'static str, &'static str)> = vec![
        ("1. Active Profile", ""),
        ("2. Create Profile", ""),
        ("3. Edit Profile", ""),
        ("4. Delete Profile", ""),
        ("5. Profile Settings", ""),
    ];
    assert(entries_text(s9@) =~= palette_submenus()[9]);
    let s10: Vec<(&'static str, &'static str)> = vec![
        ("1. Unified Exec", ""),
        ("2. Shell Snapshot", ""),
        ("3. Request Rule", ""),
        ("4. Undo Support", ""),
        ("5. Search Tool", ""),
        ("6. Git Commit", ""),
        ("7. Runtime Metrics", ""),
        ("8. SQLite State", ""),
        ("9. Child Agents MD", ""),
        ("10. Image Detail Original", ""),
        ("11. Request Compression", ""),
        ("12. Collaboration", ""),
        ("13. Spawn CSV", ""),
        ("14. Apps & Connectors", ""),
        ("15. Tool Suggest", ""),
        ("16. Plugins", ""),
        ("17. Image Generation", ""),
        ("18. MCP Dependency Install", ""),
        ("19. Env Var Prompt", ""),
        ("20. Steer Mode", ""),
        ("21. PowerShell UTF8", ""),
        ("22. Windows Sandbox", ""),
        ("23. Windows Sandbox Elevated", ""),
        ("24. JS REPL", ""),
        ("25. Auto Approval Agent", ""),
        ("26. Prevent Sleep", ""),
        ("27. Suppress Warnings", ""),
    ];
    assert(entries_text(s10@) =~= palette_submenus()[10]);
    let s11: Vec<(&'static str, &'static str)> = vec![
        ("1. Microphone Device", ""),
        ("2. Speaker Device", ""),
        ("3. Audio Format", ""),
        ("4. Voice Pipeline", ""),
        ("5. TTS Voice", ""),
        ("6. Realtime Mode", ""),
    ];
    assert(entries_text(s11@) =~= palette_submenus()[11]);
    let s12: Vec<(&'static str, &'static str)> = vec![
        ("1. Notify Script", ""),
        ("2. TUI Notifications", ""),
        ("3. Turn Completion", ""),
    ];
    assert(entries_text(s12@) =~= palette_submenus()[12]);
    let s13: Vec<(&'static str, &'static str)> = vec![
        ("1. Memories Path", ""),
        ("2. Tool Output Budget", ""),
        ("3. Session Persistence", ""),
        ("4. Clear Memories", ""),
    ];
    assert(entries_text(s13@) =~= palette_submenus()[13]);
    let s14: Vec<(&'static str, &'static str)> = vec![
        ("1. Policy Type", ""),
        ("2. Exclude List", ""),
        ("3. Include Only", ""),
    ];
    assert(entries_text(s14@) =~= palette_submenus()[14]);
    let s15: Vec<(&'static str, &'static str)> = vec![
        ("1. Max Threads", ""),
        ("2. Max Depth", ""),
        ("3. Job Max Runtime", ""),
        ("4. Role Definitions", ""),
    ];
    assert(entries_text(s15@) =~= palette_submenus()[15]);
    let s16: Vec<(&'static str, &'static str)> = vec![
        ("1. Per-Skill Toggle", ""),
        ("2. Skill Path", ""),
        ("3. Scan Directories", ""),
    ];
    assert(entries_text(s16@) =~= palette_submenus()[16]);
    let s17: Vec<(&'static str, &'static str)> = vec![
        ("1. Prefix Rules", ""),
        ("2. Justification", ""),
        ("3. Rule Management", ""),
    ];
    assert(entries_text(s17@) =~= palette_submenus()[17]);
    let s18: Vec<(&'static str, &'static str)> = vec![
        ("1. Credential Store", ""),
        ("2. Auth File Path", ""),
    ];
    assert(entries_text(s18@) =~= palette_submenus()[18]);
    let s19: Vec<(&'static str, &'static str)> = vec![
        ("1. Inline Instructions", ""),
        ("2. Instructions File", ""),
        ("3. Project Instructions", ""),
    ];
    assert(entries_text(s19@) =~= palette_submenus()[19]);
    let s20: Vec<(&'static str, &'static str)> = vec![
        ("1. View Image Tool", ""),
        ("2. Image Generation", ""),
        ("3. Image Detail Original", ""),
    ];
    assert(entries_text(s20@) =~= palette_submenus()[20]);
    let s21: Vec<(&'static str, &'static str)> = vec![
        ("1. Root Markers", ""),
        ("2. Trust Mode", ""),
    ];
    assert(entries_text(s21@) =~= palette_submenus()[21]);
    let s22: Vec<(&'static str, &'static str)> = vec![
        ("1. Plugin Management", ""),
        ("2. Marketplace Discovery", ""),
        ("3. Connector Apps", ""),
        ("4. Suggestion Allowlist", ""),
    ];
    assert(entries_text(s22@) =~= palette_submenus()[22]);
    let s23: Vec<(&'static str, &'static str)> = vec![
        ("1. Resume Last", ""),
        ("2. Resume All", ""),
        ("3. Fork Session", ""),
    ];
    assert(entries_text(s23@) =~= palette_submenus()[23]);
    let s24: Vec<(&'static str, &'static str)> = vec![
        ("1. OpenAI Base URL", ""),
        ("2. Sandbox Network", ""),
        ("3. Custom Providers", ""),
    ];
    assert(entries_text(s24@) =~= palette_submenus()[24]);
    let s25: Vec<(&'static str, &'static str)> = vec![
        ("1. User Prompt Submit", ""),
        ("2. Notify Hook", ""),
        ("3. Request Permissions", ""),
    ];
    assert(entries_text(s25@) =~= palette_submenus()[25]);
    let table: Vec<Vec<(&'static str, &'static str)>> = vec![s0, s1, s2, s3, s4, s5, s6, s7, s8, s9, s10, s11, s12, s13, s14, s15, s16, s17, s18, s19, s20, s21, s22, s23, s24, s25];
    table
}
/// One row of the drawn palette: its text and how it is painted.
pub struct MenuLine {
    pub text: String,
    pub fg: Option<Color>,
    pub bg: Color,
    pub bold: bool,
}

/// What one drawing of the palette puts on screen: a rounded, bordered box over
/// `content_area` with `title` in its top border, and `lines` inside `padded_area`.
pub struct MenuFrame {
    pub content_area: Rect,
    pub padded_area: Rect,
    pub title: String,
    pub border: Color,
    pub title_fg: Color,
    pub background: Color,
    pub lines: Vec<MenuLine>,
}

/// Width of the palette box in an area: seven tenths of it, at most 80 cells.
pub open spec fn content_width(area: Rect) -> int {
    let w = area.width * 7 / 10;
    if w <= 80 {
        w
    } else {
        80
    }
}

/// Height of the palette box in an area: three quarters of it, at most 32 rows.
pub open spec fn content_height(area: Rect) -> int {
    let h = area.height * 75 / 100;
    if h <= 32 {
        h
    } else {
        32
    }
}

/// The palette box, centred in `area`.
pub open spec fn content_rect(area: Rect) -> Rect {
    let w = content_width(area);
    let h = content_height(area);
    Rect {
        x: (area.x + (area.width - w) / 2) as u16,
        y: (area.y + (area.height - h) / 2) as u16,
        width: w as u16,
        height: h as u16,
    }
}

/// The list area inside the box: two columns and one row of padding on each side.
pub open spec fn padded_rect(content: Rect) -> Rect {
    Rect {
        x: (content.x + 2) as u16,
        y: (content.y + 1) as u16,
        width: (if content.width >= 4 { content.width - 4 } else { 0 }) as u16,
        height: (if content.height >= 2 { content.height - 2 } else { 0 }) as u16,
    }
}

/// Holds when the palette's geometry in `area` stays within `u16` cells.
pub open spec fn drawable(area: Rect) -> bool {
    &&& area.width * 7 <= u16::MAX
    &&& area.height * 75 <= u16::MAX
    &&& area.fits()
    &&& area.x + (area.width - content_width(area)) / 2 + 2 <= u16::MAX
    &&& area.y + (area.height - content_height(area)) / 2 + 1 <= u16::MAX
}

/// The first listed item after scrolling so that `selected` is among the
/// `visible` rows starting at `offset`.
pub open spec fn scrolled_offset(offset: int, selected: int, visible: int) -> int {
    if selected < offset {
        selected
    } else if selected >= offset + visible {
        selected - visible + 1
    } else {
        offset
    }
}

/// The command palette: a main list of categories, each of which opens a submenu
/// whose first entry leads back.
pub struct Menu {
    pub active_effect: (&'static str, Effect),
    pub last_tick: Duration,
    pub auto_cycle_timer: Duration,
    pub effects: EffectsRepository,
    pub theme: ChatTheme,
    pub rng: SimpleRng,
    pub selected_menu_item: usize,
    pub hovered_menu_item: Option<usize>,
    pub menu_items: Vec<(String, String)>,
    pub scroll_offset: usize,
    pub menu_item_areas: Vec<Rect>,
    pub menu_area: Rect,
    pub current_submenu: Option<usize>,
    pub main_menu: Vec<(&'static str, &'static str)>,
    pub submenus: Vec<Vec<(&'static str, &'static str)>>,
}

impl Menu {
    /// The text of the items that the palette lists now.
    pub open spec fn items(&self) -> Seq<(Seq<char>, Seq<char>)> {
        items_text(self.menu_items@)
    }

    /// The text of the main palette's entries.
    pub open spec fn main_entries(&self) -> Seq<(Seq<char>, Seq<char>)> {
        entries_text(self.main_menu@)
    }

    /// The text of the entries of submenu `i`.
    pub open spec fn submenu_entries(&self, i: int) -> Seq<(Seq<char>, Seq<char>)> {
        entries_text(self.submenus@[i]@)
    }

    /// Holds when the palette lists at least one item, the selection is one of them,
    /// every submenu has its entry in the main palette, the submenu being shown
    /// exists, and there are effects to pick from.
    pub open spec fn wf(&self) -> bool {
        &&& self.menu_items@.len() > 0
        &&& self.selected_menu_item < self.menu_items@.len()
        &&& self.main_menu@.len() > 0
        &&& self.submenus@.len() <= self.main_menu@.len()
        &&& (self.current_submenu matches Some(i) ==> i < self.submenus@.len())
        &&& self.effects.wf()
    }

    /// Holds when the clickable item areas, from the scroll offset on, name items
    /// that the palette still lists (as they do right after drawing).
    pub open spec fn areas_current(&self) -> bool {
        self.scroll_offset + self.menu_item_areas@.len() <= self.menu_items@.len()
    }

    /// `new` is `old` after entering submenu `index`: the submenu's entries behind
    /// a leading back entry, selection and scroll at the top, nothing hovered; or
    /// `old` itself where there is no such submenu.
    pub open spec fn entered(old: Menu, new: Menu, index: usize) -> bool {
        if index < old.submenus@.len() {
            &&& new.items() == seq![back_entry()] + old.submenu_entries(index as int)
            &&& new == (Menu {
                current_submenu: Some(index),
                menu_items: new.menu_items,
                selected_menu_item: 0,
                scroll_offset: 0,
                hovered_menu_item: None,
                ..old
            })
        } else {
            new == old
        }
    }

    /// `new` is `old` after going back to the main palette: its entries listed,
    /// selection and scroll at the top, nothing hovered, no submenu shown.
    pub open spec fn returned_to_main(old: Menu, new: Menu) -> bool {
        &&& new.items() == old.main_entries()
        &&& new == (Menu {
            current_submenu: None,
            menu_items: new.menu_items,
            selected_menu_item: 0,
            scroll_offset: 0,
            hovered_menu_item: None,
            ..old
        })
    }

    /// `new` is `old` after acting on its selected item: the selected category's
    /// submenu opened in the main palette, the main palette listed again from a
    /// submenu's back entry, and no change for any other entry.
    pub open spec fn item_selected(old: Menu, new: Menu) -> bool {
        if old.current_submenu is None {
            Menu::entered(old, new, old.selected_menu_item)
        } else if old.selected_menu_item == 0 {
            Menu::returned_to_main(old, new)
        } else {
            new == old
        }
    }

    /// The palette over `theme`, showing the main entries with the first selected.
    /// `rng` draws the opening effect; `accents` are the four random accent colours
    /// of the effects.
    pub fn new(theme: ChatTheme, rng: SimpleRng, accents: [Color; 4]) -> (menu: Self)
        ensures
            menu.wf(),
            menu.theme == theme,
            menu.effects.built_from(theme.bg, accents@),
            exists|i: int| 0 <= i < 11 && menu.active_effect == menu.effects.opening()[i],
            menu.last_tick == millis_duration(0),
            menu.auto_cycle_timer == millis_duration(0),
            menu.selected_menu_item == 0,
            menu.hovered_menu_item is None,
            menu.scroll_offset == 0,
            menu.menu_item_areas@.len() == 0,
            menu.menu_area == (Rect { x: 0, y: 0, width: 0, height: 0 }),
            menu.current_submenu is None,
            menu.main_entries() == palette_main_menu(),
            menu.submenus@.len() == palette_submenus().len(),
            forall|i: int|
                0 <= i < menu.submenus@.len() ==> #[trigger] menu.submenu_entries(i)
                    == palette_submenus()[i],
            menu.items() == palette_main_menu(),
    {
        let mut rng = rng;
        let effects = EffectsRepository::new(theme.bg, accents);
        let active_effect = effects.get_random_opening_effect(&mut rng);
        let main_menu = main_menu_table();
        let submenus = submenu_table();
        let menu_items = owned_entries(&main_menu);
        assert(palette_main_menu().len() == 26);
        assert(palette_submenus().len() == 26);
        assert(menu_items@.len() == items_text(menu_items@).len());
        assert(main_menu@.len() == entries_text(main_menu@).len());
        Menu {
            active_effect,
            last_tick: duration_from_millis(0),
            auto_cycle_timer: duration_from_millis(0),
            effects,
            theme,
            rng,
            selected_menu_item: 0,
            hovered_menu_item: None,
            menu_items,
            scroll_offset: 0,
            menu_item_areas: Vec::new(),
            menu_area: Rect { x: 0, y: 0, width: 0, height: 0 },
            current_submenu: None,
            main_menu,
            submenus,
        }
    }

    /// Records `elapsed_millis` milliseconds as the last frame's tick, cut to `u32`.
    pub fn update(&mut self, elapsed_millis: u128)
        ensures
            *final(self) == (Menu {
                last_tick: millis_duration(elapsed_millis as u32),
                ..*old(self)
            }),
    {
        #[verifier::truncate]
        let millis = elapsed_millis as u32;
        self.last_tick = duration_from_millis(millis);
    }

    /// A random hue for one of the accent colours that the next effects use.
    pub fn next_accent_hue(&mut self) -> (hue: u16)
        ensures
            hue < 360,
            *final(self) == (Menu { rng: final(self).rng, ..*old(self) }),
    {
        accent_hue(&mut self.rng)
    }

    /// The hues of the four accent colours that the next effects use, drawn from the
    /// palette's generator.
    pub fn next_accent_hues(&mut self) -> (hues: [u16; 4])
        ensures
            forall|i: int| 0 <= i < 4 ==> #[trigger] hues@[i] < 360,
            *final(self) == (Menu { rng: final(self).rng, ..*old(self) }),
    {
        accent_hues(&mut self.rng)
    }

    /// Remakes the effects with the accent colours `accents` and picks a random
    /// opening effect; the cycle timer restarts.
    pub fn pick_opening_effect(&mut self, accents: [Color; 4])
        ensures
            final(self).effects.built_from(old(self).theme.bg, accents@),
            exists|i: int|
                0 <= i < 11 && final(self).active_effect == final(self).effects.opening()[i],
            *final(self) == (Menu {
                effects: final(self).effects,
                active_effect: final(self).active_effect,
                auto_cycle_timer: millis_duration(0),
                rng: final(self).rng,
                ..*old(self)
            }),
            old(self).wf() ==> final(self).wf(),
    {
        self.effects = EffectsRepository::new(self.theme.bg, accents);
        self.active_effect = self.effects.get_random_opening_effect(&mut self.rng);
        self.auto_cycle_timer = duration_from_millis(0);
    }

    /// Remakes the effects with the accent colours `accents` and picks a random
    /// closing effect; the cycle timer restarts.
    pub fn pick_closing_effect(&mut self, accents: [Color; 4])
        ensures
            final(self).effects.built_from(old(self).theme.bg, accents@),
            exists|i: int|
                0 <= i < 10 && final(self).active_effect == final(self).effects.closing()[i],
            *final(self) == (Menu {
                effects: final(self).effects,
                active_effect: final(self).active_effect,
                auto_cycle_timer: millis_duration(0),
                rng: final(self).rng,
                ..*old(self)
            }),
            old(self).wf() ==> final(self).wf(),
    {
        self.effects = EffectsRepository::new(self.theme.bg, accents);
        self.active_effect = self.effects.get_random_closing_effect(&mut self.rng);
        self.auto_cycle_timer = duration_from_millis(0);
    }

    /// Selects the next item, from the last back to the first.
    pub fn select_next_menu_item(&mut self)
        requires
            old(self).menu_items@.len() > 0,
            old(self).selected_menu_item < usize::MAX,
        ensures
            *final(self) == (Menu {
                selected_menu_item: next_index(
                    old(self).selected_menu_item as int,
                    old(self).menu_items@.len() as int,
                ) as usize,
                ..*old(self)
            }),
            old(self).wf() ==> final(self).wf(),
    {
        proof {
            if self.wf() {
                crate::nav::lemma_moves_stay_in_list(
                    self.selected_menu_item as int,
                    self.menu_items@.len() as int,
                );
            }
        }
        self.selected_menu_item = (self.selected_menu_item + 1) % self.menu_items.len();
    }

    /// Selects the previous item, from the first back to the last.
    pub fn select_prev_menu_item(&mut self)
        requires
            old(self).selected_menu_item == 0 ==> old(self).menu_items@.len() > 0,
        ensures
            *final(self) == (Menu {
                selected_menu_item: prev_index(
                    old(self).selected_menu_item as int,
                    old(self).menu_items@.len() as int,
                ) as usize,
                ..*old(self)
            }),
            old(self).wf() ==> final(self).wf(),
    {
        if self.selected_menu_item == 0 {
            self.selected_menu_item = self.menu_items.len() - 1;
        } else {
            self.selected_menu_item -= 1;
        }
    }

    /// Opens submenu `index` where there is one; otherwise changes nothing.
    pub fn enter_submenu(&mut self, index: usize)
        ensures
            Menu::entered(*old(self), *final(self), index),
            old(self).wf() ==> final(self).wf(),
    {
        if index < self.submenus.len() {
            self.current_submenu = Some(index);
            let mut submenu_items: Vec<(String, String)> = vec![("Back".to_owned(), String::new())];
            let mut rest = owned_entries(&self.submenus[index]);
            submenu_items.append(&mut rest);
            assert(items_text(submenu_items@) =~= seq![back_entry()] + entries_text(
                self.submenus@[index as int]@,
            ));
            self.menu_items = submenu_items;
            self.selected_menu_item = 0;
            self.scroll_offset = 0;
            self.hovered_menu_item = None;
        }
    }

    /// Lists the main palette again.
    pub fn go_back_to_main(&mut self)
        ensures
            Menu::returned_to_main(*old(self), *final(self)),
            old(self).wf() ==> final(self).wf(),
    {
        self.current_submenu = None;
        self.menu_items = owned_entries(&self.main_menu);
        assert(self.menu_items@.len() == items_text(self.menu_items@).len());
        assert(self.main_menu@.len() == entries_text(self.main_menu@).len());
        self.selected_menu_item = 0;
        self.scroll_offset = 0;
        self.hovered_menu_item = None;
    }

    /// Acts on the selected item: in the main palette it opens that item's submenu
    /// and returns `true`; in a submenu the back entry returns to the main palette
    /// (`true`), and any other entry changes nothing and returns `false`, asking the
    /// caller to act on it.
    pub fn select_current_item(&mut self) -> (handled: bool)
        ensures
            old(self).current_submenu is None ==> handled && Menu::entered(
                *old(self),
                *final(self),
                old(self).selected_menu_item,
            ),
            old(self).current_submenu is Some && old(self).selected_menu_item == 0 ==> handled
                && Menu::returned_to_main(*old(self), *final(self)),
            old(self).current_submenu is Some && old(self).selected_menu_item != 0 ==> !handled
                && *final(self) == *old(self),
            Menu::item_selected(*old(self), *final(self)),
            old(self).wf() ==> final(self).wf(),
    {
        if self.current_submenu.is_none() {
            self.enter_submenu(self.selected_menu_item);
            true
        } else {
            if self.selected_menu_item == 0 {
                self.go_back_to_main();
                true
            } else {
                false
            }
        }
    }

    /// Moves the selection `visible_items` rows down, stopping at the last item.
    pub fn page_down(&mut self, visible_items: usize)
        requires
            old(self).menu_items@.len() > 0,
        ensures
            *final(self) == (Menu {
                selected_menu_item: page_down_index(
                    old(self).selected_menu_item as int,
                    visible_items as int,
                    old(self).menu_items@.len() as int,
                ) as usize,
                ..*old(self)
            }),
            old(self).wf() ==> final(self).wf(),
    {
        let target = self.selected_menu_item.saturating_add(visible_items);
        let last = self.menu_items.len() - 1;
        self.selected_menu_item = if target <= last {
            target
        } else {
            last
        };
    }

    /// Moves the selection `visible_items` rows up, stopping at the first item.
    pub fn page_up(&mut self, visible_items: usize)
        ensures
            *final(self) == (Menu {
                selected_menu_item: page_up_index(
                    old(self).selected_menu_item as int,
                    visible_items as int,
                ) as usize,
                ..*old(self)
            }),
            old(self).wf() ==> final(self).wf(),
    {
        self.selected_menu_item = self.selected_menu_item.saturating_sub(visible_items);
    }

    /// Selects the first item.
    pub fn jump_to_top(&mut self)
        ensures
            *final(self) == (Menu { selected_menu_item: 0, ..*old(self) }),
            old(self).wf() ==> final(self).wf(),
    {
        self.selected_menu_item = 0;
    }

    /// Selects the last item.
    pub fn jump_to_bottom(&mut self)
        requires
            old(self).menu_items@.len() > 0,
        ensures
            *final(self) == (Menu {
                selected_menu_item: (old(self).menu_items@.len() - 1) as usize,
                ..*old(self)
            }),
            old(self).wf() ==> final(self).wf(),
    {
        self.selected_menu_item = self.menu_items.len() - 1;
    }

    /// `new` and `changed` are what the pointer at column `col`, row `row` makes of
    /// `old`: over a listed row, a click selects that item and a move hovers it (a
    /// change only where another item or none was hovered); anywhere else it clears
    /// the hover (a change only where something was hovered).
    pub open spec fn after_pointer(
        old: Menu,
        new: Menu,
        col: int,
        row: int,
        is_click: bool,
        changed: bool,
    ) -> bool {
        match pointer_target_of(old.menu_area, old.menu_item_areas@, old.scroll_offset as int, col, row) {
            PointerTarget::Row(idx) => if is_click {
                &&& changed
                &&& new == (Menu { selected_menu_item: idx, ..old })
            } else {
                &&& changed == (old.hovered_menu_item != Some(idx))
                &&& new == (Menu { hovered_menu_item: Some(idx), ..old })
            },
            _ => {
                &&& changed == (old.hovered_menu_item is Some)
                &&& new == (Menu { hovered_menu_item: None, ..old })
            },
        }
    }

    /// Reacts to the pointer at column `x`, row `y`: a click when `is_click`, a move
    /// otherwise. Returns whether the palette must be drawn again.
    pub fn handle_mouse(&mut self, x: u16, y: u16, is_click: bool) -> (changed: bool)
        requires
            pointer_ready(old(self).menu_area, old(self).menu_item_areas@, old(self).scroll_offset as int),
        ensures
            Menu::after_pointer(*old(self), *final(self), x as int, y as int, is_click, changed),
            old(self).wf() && old(self).areas_current() ==> final(self).wf()
                && final(self).areas_current(),
    {
        proof {
            lemma_pointer_row_listed(self.menu_area, self.menu_item_areas@, self.scroll_offset as int, x as int, y as int);
        }
        match pointer_target(&self.menu_area, &self.menu_item_areas, self.scroll_offset, x, y) {
            PointerTarget::Row(actual_idx) => {
                if is_click {
                    self.selected_menu_item = actual_idx;
                    true
                } else {
                    if self.hovered_menu_item != Some(actual_idx) {
                        self.hovered_menu_item = Some(actual_idx);
                        true
                    } else {
                        false
                    }
                }
            },
            _ => {
                if self.hovered_menu_item.is_some() {
                    self.hovered_menu_item = None;
                    true
                } else {
                    false
                }
            },
        }
    }

    /// The title of the palette: in the theme submenu, `Theme` and the light or dark
    /// mode of the current theme; in another submenu, the category's name without
    /// its numbering and the number of entries other than the back entry; in the
    /// main palette, the number of categories.
    pub open spec fn palette_title(&self) -> Seq<char> {
        match self.current_submenu {
            Some(0) => match self.theme.variant {
                ThemeVariant::Dark => "Theme - Dark Mode"@,
                ThemeVariant::Light => "Theme - Light Mode"@,
            },
            Some(i) => trim_numbering(self.main_menu@[i as int].0@) + " ("@ + decimal(
                (self.menu_items@.len() - 1) as nat,
            ) + " items)"@,
            None => "Command Palette ("@ + decimal(self.menu_items@.len()) + " items)"@,
        }
    }

    /// The first listed item once the palette is drawn in `area`.
    pub open spec fn scroll_after_draw(&self, area: Rect) -> int {
        scrolled_offset(
            self.scroll_offset as int,
            self.selected_menu_item as int,
            padded_rect(content_rect(area)).height as int,
        )
    }

    /// How many items the palette shows once it is drawn in `area`.
    pub open spec fn shown_after_draw(&self, area: Rect) -> int {
        let first = self.scroll_after_draw(area);
        let end = first + padded_rect(content_rect(area)).height;
        (if end <= self.menu_items@.len() { end } else { self.menu_items@.len() as int }) - first
    }

    /// Foreground, background and boldness of the row of item `idx`: the selected
    /// item inverted on the accent colour and bold, a hovered one inverted on the
    /// primary colour, any other in the text colour on the card colour.
    pub open spec fn line_colors(&self, idx: int) -> (Option<Color>, Color, bool) {
        if idx == self.selected_menu_item {
            (Some(self.theme.bg), self.theme.accent, true)
        } else if self.hovered_menu_item == Some(idx as usize) {
            (Some(self.theme.bg), self.theme.primary, false)
        } else {
            (Some(self.theme.fg), self.theme.card, false)
        }
    }

    /// Holds when drawing `old` in `area` yields `new` and `frame`: the box is
    /// recorded as the palette's area, the list scrolls to show the selection, one
    /// clickable row area is recorded per item shown, and the frame holds the
    /// title, one line per shown item and blank lines for the remaining rows.
    pub open spec fn drawn(old: Menu, new: Menu, area: Rect, frame: MenuFrame) -> bool {
        let content = content_rect(area);
        let padded = padded_rect(content);
        let first = old.scroll_after_draw(area);
        let shown = old.shown_after_draw(area);
        let width = padded.width as int;
        let lines = frame.lines@;
        &&& new == (Menu {
            menu_area: content,
            scroll_offset: first as usize,
            menu_item_areas: new.menu_item_areas,
            ..old
        })
        &&& new.menu_item_areas@ == Seq::new(
            shown as nat,
            |k: int| Rect { x: padded.x, y: (padded.y + k) as u16, width: padded.width, height: 1 },
        )
        &&& frame.content_area == content
        &&& frame.padded_area == padded
        &&& frame.title@ == " "@ + old.palette_title() + " "@
        &&& frame.border == old.theme.border
        &&& frame.title_fg == old.theme.accent
        &&& frame.background == old.theme.card
        &&& lines.len() == padded.height
        &&& forall|k: int|
            0 <= k < shown ==> (#[trigger] lines[k]).text@ == item_line(
                old.menu_items@[first + k].0@,
                width,
            ) && (lines[k].fg, lines[k].bg, lines[k].bold) == old.line_colors(first + k)
        &&& forall|k: int|
            shown <= k < padded.height ==> (#[trigger] lines[k]).text@ == spaces(width as nat)
                && lines[k].fg is None && lines[k].bg == old.theme.card && !lines[k].bold
    }

    fn title_text(&self) -> (title: String)
        requires
            self.wf(),
        ensures
            title@ == " "@ + self.palette_title() + " "@,
    {
        let mut title = String::from_str(" ");
        match self.current_submenu {
            Some(0) => match self.theme.variant {
                ThemeVariant::Dark => title.append("Theme - Dark Mode"),
                ThemeVariant::Light => title.append("Theme - Light Mode"),
            },
            Some(i) => {
                let parent = trimmed_numbering(self.main_menu[i].0);
                title.append(parent);
                title.append(" (");
                push_decimal(&mut title, self.menu_items.len() - 1);
                title.append(" items)");
            },
            None => {
                title.append("Command Palette (");
                push_decimal(&mut title, self.menu_items.len());
                title.append(" items)");
            },
        }
        title.append(" ");
        proof {
            assert(title@ =~= " "@ + self.palette_title() + " "@);
        }
        title
    }

    /// Lays the palette out in `area`: a centred box, the list scrolled to show the
    /// selection, the rows' clickable areas recorded; returns what to draw.
    pub fn render_in_area(&mut self, area: Rect) -> (frame: MenuFrame)
        requires
            old(self).wf(),
            drawable(area),
            old(self).menu_items@.len() + u16::MAX <= usize::MAX,
            forall|idx: int|
                old(self).scroll_after_draw(area) <= idx < old(self).scroll_after_draw(area)
                    + old(self).shown_after_draw(area) ==> item_line_cuttable(
                    #[trigger] old(self).menu_items@[idx].0@,
                    padded_rect(content_rect(area)).width as int,
                ),
        ensures
            Menu::drawn(*old(self), *final(self), area, frame),
            final(self).wf(),
            final(self).areas_current(),
    {
        let content_bg = self.theme.card;
        let w7 = area.width * 7 / 10;
        let content_width: u16 = if w7 <= 80 { w7 } else { 80 };
        let h75 = area.height * 75 / 100;
        let content_height: u16 = if h75 <= 32 { h75 } else { 32 };
        let x_offset = (area.width - content_width) / 2;
        let y_offset = (area.height - content_height) / 2;
        let content_area = Rect {
            x: area.x + x_offset,
            y: area.y + y_offset,
            width: content_width,
            height: content_height,
        };
        let title = self.title_text();
        self.menu_area = content_area;
        let padded_area = Rect {
            x: content_area.x + 2,
            y: content_area.y + 1,
            width: content_area.width.saturating_sub(4),
            height: content_area.height.saturating_sub(2),
        };
        let visible_items = padded_area.height as usize;
        if self.selected_menu_item < self.scroll_offset {
            self.scroll_offset = self.selected_menu_item;
        } else if self.selected_menu_item >= self.scroll_offset + visible_items {
            self.scroll_offset = self.selected_menu_item - visible_items + 1;
        }
        let first = self.scroll_offset;
        let end_idx = if first + visible_items <= self.menu_items.len() {
            first + visible_items
        } else {
            self.menu_items.len()
        };
        let exact_width = padded_area.width as usize;
        let ghost shown = end_idx - first;
        let mut lines: Vec<MenuLine> = Vec::new();
        let mut areas: Vec<Rect> = Vec::new();
        let mut current_y = padded_area.y;
        let mut idx = first;
        while idx < end_idx
            invariant
                first <= idx <= end_idx <= self.menu_items@.len(),
                end_idx - first <= visible_items,
                visible_items == padded_area.height,
                exact_width == padded_area.width,
                padded_area.y + padded_area.height <= u16::MAX,
                current_y == padded_area.y + (idx - first),
                lines@.len() == idx - first,
                areas@.len() == idx - first,
                forall|k: int| first <= k < end_idx ==> item_line_cuttable(
                    #[trigger] self.menu_items@[k].0@,
                    exact_width as int,
                ),
                forall|k: int|
                    0 <= k < idx - first ==> #[trigger] areas@[k] == (Rect {
                        x: padded_area.x,
                        y: (padded_area.y + k) as u16,
                        width: padded_area.width,
                        height: 1,
                    }),
                forall|k: int|
                    0 <= k < idx - first ==> (#[trigger] lines@[k]).text@ == item_line(
                        self.menu_items@[first + k].0@,
                        exact_width as int,
                    ) && (lines@[k].fg, lines@[k].bg, lines@[k].bold) == self.line_colors(first + k),
                content_bg == self.theme.card,
            decreases end_idx - idx,
        {
            let text = item_line_text(&self.menu_items[idx].0, exact_width);
            let line = if idx == self.selected_menu_item {
                MenuLine { text, fg: Some(self.theme.bg), bg: self.theme.accent, bold: true }
            } else if self.hovered_menu_item == Some(idx) {
                MenuLine { text, fg: Some(self.theme.bg), bg: self.theme.primary, bold: false }
            } else {
                MenuLine { text, fg: Some(self.theme.fg), bg: content_bg, bold: false }
            };
            lines.push(line);
            areas.push(Rect { x: padded_area.x, y: current_y, width: padded_area.width, height: 1 });
            current_y = current_y + 1;
            idx = idx + 1;
        }
        let mut k = end_idx - first;
        while k < visible_items
            invariant
                first <= end_idx,
                end_idx - first <= k <= visible_items,
                lines@.len() == k,
                forall|j: int|
                    0 <= j < end_idx - first ==> (#[trigger] lines@[j]).text@ == item_line(
                        self.menu_items@[first + j].0@,
                        exact_width as int,
                    ) && (lines@[j].fg, lines@[j].bg, lines@[j].bold) == self.line_colors(first + j),
                forall|j: int|
                    end_idx - first <= j < k ==> (#[trigger] lines@[j]).text@ == spaces(
                        exact_width as nat,
                    ) && lines@[j].fg is None && lines@[j].bg == content_bg && !lines@[j].bold,
            decreases visible_items - k,
        {
            let mut blank = String::new();
            push_spaces(&mut blank, exact_width);
            assert(blank@ =~= spaces(exact_width as nat));
            let ghost before = lines@;
            lines.push(MenuLine { text: blank, fg: None, bg: content_bg, bold: false });
            assert(forall|j: int| 0 <= j < k ==> lines@[j] == before[j]);
            k = k + 1;
        }
        self.menu_item_areas = areas;
        proof {
            assert(self.menu_item_areas@ =~= Seq::new(
                (end_idx - first) as nat,
                |k: int| Rect { x: padded_area.x, y: (padded_area.y + k) as u16, width: padded_area.width, height: 1 },
            ));
        }
        MenuFrame {
            content_area,
            padded_area,
            title,
            border: self.theme.border,
            title_fg: self.theme.accent,
            background: content_bg,
            lines,
        }
    }
}

} // verus!
