//! The application shell's state, and how input moves it.
//!
//! Controls respond and dispatch to the command sink, which does nothing in
//! this feature. A control that partly acts cannot be told apart from a defect
//! by the feature that later owns the behaviour.
//!
//! Drawing, pointer geometry and frame timing belong to the renderer, which
//! holds one of these and asks it what to show.

use vstd::prelude::*;

use crate::fixture;
use crate::fixture::{tree_table, TreeRow};
use crate::icons::Icon;
use crate::palette::{Mode, Tint};
use crate::props::{looseness, Overlay, PerfReadout, Props, RailTab, ToolSide};
use crate::rendering::Density;
use crate::text::same_text;
use crate::tokens::Palette;

verus! {

/// A file's version-control state, shown as the letter beside its name.
#[derive(Debug, Clone, Copy, PartialEq, Eq, Structural)]
pub enum Vcs {
    Added,
    Modified,
}

/// A row of the tool window: depth, glyph, label, whether it is selected, and
/// the version-control state of a file that has one.
pub type PanelRow = (u8, &'static str, &'static str, bool, Option<Vcs>);

/// Where every control activation goes in this feature: nowhere. The feature
/// that owns the behaviour replaces the implementation, not the call site.
#[derive(Clone, Default)]
pub struct NoOpCommandSink;

impl NoOpCommandSink {
    pub fn dispatch(&self, _command: &'static str) {
    }
}

pub struct Shell {
    props: Props,
    commands: NoOpCommandSink,
}

impl View for Shell {
    type V = Props;

    closed spec fn view(&self) -> Props {
        self.props
    }
}

/// The density after `density` in the cycle compact, default, roomy.
pub open spec fn next_density(density: Density) -> Density {
    match density {
        Density::Compact => Density::Default,
        Density::Default => Density::Roomy,
        Density::Roomy => Density::Compact,
    }
}

/// `toggleHud` in the prototype: the frame panel shows and hides, and a hidden
/// readout comes back as the panel.
pub open spec fn toggled_readout(readout: PerfReadout) -> PerfReadout {
    match readout {
        PerfReadout::Hud => PerfReadout::Status,
        PerfReadout::Status => PerfReadout::Hud,
        PerfReadout::Off => PerfReadout::Hud,
    }
}

/// The palette, open on `mode`.
pub open spec fn palette_opened(props: Props, mode: Mode) -> Props {
    Props { overlay: Overlay::Palette, palette_mode: mode, ..props }
}

/// No overlay open.
pub open spec fn overlay_closed(props: Props) -> Props {
    Props { overlay: Overlay::Closed, ..props }
}

pub open spec fn other_side(side: ToolSide) -> ToolSide {
    match side {
        ToolSide::Left => ToolSide::Right,
        ToolSide::Right => ToolSide::Left,
    }
}

/// Selecting the rail destination that is already showing collapses the tool
/// window; selecting any other, or the same one while collapsed, shows it.
pub open spec fn rail_selected(props: Props, tab: RailTab) -> Props {
    if props.rail_tab == tab && !props.side_collapsed {
        Props { side_collapsed: true, ..props }
    } else {
        Props { rail_tab: tab, side_collapsed: false, ..props }
    }
}

/// The dock's tab strip behaves the same way: the open panel's tab closes it.
pub open spec fn dock_panel_selected(props: Props, index: usize) -> Props {
    if props.dock_panel == index && !props.dock_collapsed {
        Props { dock_collapsed: true, ..props }
    } else {
        Props { dock_panel: index, dock_collapsed: false, ..props }
    }
}

/// Packs is a view rather than a panel: the tool window keeps the project
/// panel while packs replaces the editor.
pub open spec fn panel_for(tab: RailTab) -> RailTab {
    match tab {
        RailTab::Packs => RailTab::Project,
        other => other,
    }
}

pub open spec fn shell_vcs(vcs: Option<fixture::Vcs>) -> Option<Vcs> {
    match vcs {
        Some(fixture::Vcs::Modified) => Some(Vcs::Modified),
        Some(fixture::Vcs::Added) => Some(Vcs::Added),
        None => None,
    }
}

/// A tree row as the tool window shows it: selected when it is the selected file.
pub open spec fn panel_row_of(row: TreeRow) -> PanelRow {
    (row.depth, row.glyph, row.name, row.name@ == fixture::SELECTED_FILE@, shell_vcs(row.vcs))
}

/// The rows the tool window shows for a panel.
pub open spec fn panel_table(tab: RailTab) -> Seq<PanelRow> {
    match tab {
        RailTab::Project => tree_table().map_values(|row: TreeRow| panel_row_of(row)),
        RailTab::Structure => structure_rows(),
        RailTab::Commit => commit_rows(),
        RailTab::Find => find_rows(),
        RailTab::History => history_rows(),
        RailTab::Packs => Seq::empty(),
    }
}

/// The rail, as the prototype declares it.
pub open spec fn rail_table() -> Seq<(RailTab, &'static str)> {
    seq![
        (RailTab::Project, Icon::FOLDER_OPEN),
        (RailTab::Structure, Icon::LIST_DASHES),
        (RailTab::Commit, Icon::GIT_BRANCH),
        (RailTab::Find, Icon::MAGNIFYING_GLASS),
        (RailTab::History, Icon::CLOCK_COUNTER_CLOCKWISE),
        (RailTab::Packs, Icon::PUZZLE_PIECE),
    ]
}

impl Shell {
    pub fn new(props: Props) -> (r: Self)
        ensures
            r@ == props,
    {
        Shell { props, commands: NoOpCommandSink }
    }

    pub fn props(&self) -> (r: &Props)
        ensures
            *r == self@,
    {
        &self.props
    }

    /// Density drives every dimension, so the renderer re-resolves what it
    /// draws from the density this records.
    pub fn set_density(&mut self, density: Density)
        ensures
            final(self)@ == (Props { density, ..old(self)@ }),
    {
        self.props.density = density;
        self.commands.dispatch("density.set");
    }

    pub fn cycle_density(&mut self)
        ensures
            final(self)@ == (Props { density: next_density(old(self)@.density), ..old(self)@ }),
    {
        let next = match self.props.density {
            Density::Compact => Density::Default,
            Density::Default => Density::Roomy,
            Density::Roomy => Density::Compact,
        };
        self.set_density(next);
    }

    /// `toggleHud` in the prototype: the status bar's latency readout is the
    /// control that shows and hides the frame-timing panel.
    pub fn toggle_hud(&mut self)
        ensures
            final(self)@ == (Props {
                perf_readout: toggled_readout(old(self)@.perf_readout),
                ..old(self)@
            }),
    {
        self.props.perf_readout = match self.props.perf_readout {
            PerfReadout::Hud => PerfReadout::Status,
            PerfReadout::Status => PerfReadout::Hud,
            PerfReadout::Off => PerfReadout::Hud,
        };
        self.commands.dispatch("perf.toggle");
    }

    /// Selecting the rail destination that is already showing collapses the
    /// tool window, which is how the prototype's rail behaves.
    pub fn select_rail(&mut self, tab: RailTab)
        ensures
            final(self)@ == rail_selected(old(self)@, tab),
    {
        if self.props.rail_tab == tab && !self.props.side_collapsed {
            self.props.side_collapsed = true;
        } else {
            self.props.rail_tab = tab;
            self.props.side_collapsed = false;
        }
        self.commands.dispatch("rail.select");
    }

    /// The dock's tab strip behaves the same way: the open panel's tab closes it.
    pub fn select_dock_panel(&mut self, index: usize)
        ensures
            final(self)@ == dock_panel_selected(old(self)@, index),
    {
        if self.props.dock_panel == index && !self.props.dock_collapsed {
            self.props.dock_collapsed = true;
        } else {
            self.props.dock_panel = index;
            self.props.dock_collapsed = false;
        }
        self.commands.dispatch("dock.panel");
    }

    pub fn open_palette(&mut self, mode: Mode)
        ensures
            final(self)@ == palette_opened(old(self)@, mode),
    {
        self.props.overlay = Overlay::Palette;
        self.props.palette_mode = mode;
        self.commands.dispatch("palette.open");
    }

    pub fn close_overlay(&mut self)
        ensures
            final(self)@ == overlay_closed(old(self)@),
    {
        self.props.overlay = Overlay::Closed;
        self.commands.dispatch("overlay.close");
    }

    pub fn select_tab(&mut self, index: usize)
        ensures
            final(self)@ == (Props { active_tab: index, ..old(self)@ }),
    {
        self.props.active_tab = index;
        self.commands.dispatch("editor.tab");
    }

    pub fn toggle_tool_side(&mut self)
        ensures
            final(self)@ == (Props { tool_side: other_side(old(self)@.tool_side), ..old(self)@ }),
    {
        self.props.tool_side = match self.props.tool_side {
            ToolSide::Left => ToolSide::Right,
            ToolSide::Right => ToolSide::Left,
        };
        self.commands.dispatch("tool.side");
    }

    pub fn collapse_tool_window(&mut self, collapsed: bool)
        ensures
            final(self)@ == (Props { side_collapsed: collapsed, ..old(self)@ }),
    {
        self.props.side_collapsed = collapsed;
        self.commands.dispatch("tool.collapse");
    }

    pub fn set_dock_collapsed(&mut self, collapsed: bool)
        ensures
            final(self)@ == (Props { dock_collapsed: collapsed, ..old(self)@ }),
    {
        self.props.dock_collapsed = collapsed;
        self.commands.dispatch("dock.collapse");
    }

    pub fn set_dock_panel(&mut self, index: usize)
        ensures
            final(self)@ == (Props { dock_panel: index, ..old(self)@ }),
    {
        self.props.dock_panel = index;
        self.commands.dispatch("dock.panel");
    }

    /// The rail, as the prototype declares it.
    pub fn rail_items() -> (r: Vec<(RailTab, &'static str)>)
        ensures
            r@ == rail_table(),
    {
        vec![
            (RailTab::Project, Icon::FOLDER_OPEN),
            (RailTab::Structure, Icon::LIST_DASHES),
            (RailTab::Commit, Icon::GIT_BRANCH),
            (RailTab::Find, Icon::MAGNIFYING_GLASS),
            (RailTab::History, Icon::CLOCK_COUNTER_CLOCKWISE),
            (RailTab::Packs, Icon::PUZZLE_PIECE),
        ]
    }

    /// Which panel the tool window shows. Packs is a view rather than a panel:
    /// selecting it moves the rail highlight and replaces the editor, while the
    /// tool window keeps the panel it already had, as the prototype does with
    /// `activeRail = view === 'plugins' ? 'plugins' : tool`.
    pub fn tool_panel(tab: RailTab) -> (r: RailTab)
        ensures
            r == panel_for(tab),
    {
        match tab {
            RailTab::Packs => RailTab::Project,
            other => other,
        }
    }

    pub fn panel_title(tab: RailTab) -> (r: &'static str)
        ensures
            r@ == match tab {
                RailTab::Project => "Project"@,
                RailTab::Structure => "Structure"@,
                RailTab::Commit => "Commit"@,
                RailTab::Find => "Find in project"@,
                RailTab::History => "Local history"@,
                RailTab::Packs => "Packs and extensions"@,
            },
    {
        match tab {
            RailTab::Project => "Project",
            RailTab::Structure => "Structure",
            RailTab::Commit => "Commit",
            RailTab::Find => "Find in project",
            RailTab::History => "Local history",
            RailTab::Packs => "Packs and extensions",
        }
    }

    /// Rows for the selected panel: depth, glyph, label, selected, state letter.
    pub fn panel_rows(tab: RailTab) -> (r: Vec<PanelRow>)
        ensures
            r@ == panel_table(tab),
    {
        match tab {
            RailTab::Project => Self::tree_rows(),
            RailTab::Structure => structure_panel(),
            RailTab::Commit => commit_panel(),
            RailTab::Find => find_panel(),
            RailTab::History => history_panel(),
            RailTab::Packs => Vec::new(),
        }
    }

    /// The project tree the prototype composes: depth, glyph, label, selection,
    /// and version-control state where the file has one.
    pub fn tree_rows() -> (r: Vec<PanelRow>)
        ensures
            r@ == tree_table().map_values(|row: TreeRow| panel_row_of(row)),
    {
        let tree = fixture::tree();
        let mut rows: Vec<PanelRow> = Vec::new();
        let mut i: usize = 0;
        while i < tree.len()
            invariant
                tree@ == tree_table(),
                i <= tree@.len(),
                rows@ == tree@.take(i as int).map_values(|row: TreeRow| panel_row_of(row)),
            decreases tree@.len() - i,
        {
            let row = tree[i];
            let vcs = match row.vcs {
                Some(fixture::Vcs::Modified) => Some(Vcs::Modified),
                Some(fixture::Vcs::Added) => Some(Vcs::Added),
                None => None,
            };
            let selected = same_text(row.name, fixture::SELECTED_FILE);
            rows.push((row.depth, row.glyph, row.name, selected, vcs));
            assert(tree@.take(i + 1).map_values(|row: TreeRow| panel_row_of(row)) =~= tree@.take(
                i as int,
            ).map_values(|row: TreeRow| panel_row_of(row)).push(panel_row_of(row)));
            i = i + 1;
        }
        assert(tree@.take(tree@.len() as int) =~= tree@);
        rows
    }

    /// A tool window row's label takes the colour of its version-control state,
    /// as the prototype documents its warning colour for modified marks; a row
    /// without one is full-strength text when selected and muted otherwise.
    pub fn row_colour(selected: bool, status: Option<Vcs>) -> (r: u32)
        ensures
            r == match status {
                Some(Vcs::Added) => 0x7fa98fu32,
                Some(Vcs::Modified) => 0xc9a96au32,
                None => if selected {
                    0xe9e9edu32
                } else {
                    0x75798cu32
                },
            },
    {
        match status {
            Some(Vcs::Added) => Palette::success(),
            Some(Vcs::Modified) => Palette::warning(),
            None => if selected {
                Palette::text()
            } else {
                Palette::muted()
            },
        }
    }

    /// The letter a row's version-control state shows.
    pub fn vcs_letter(status: Vcs) -> (r: &'static str)
        ensures
            r@ == match status {
                Vcs::Added => "A"@,
                Vcs::Modified => "M"@,
            },
    {
        match status {
            Vcs::Added => "A",
            Vcs::Modified => "M",
        }
    }

    /// The glyph before each breadcrumb: the first is a folder, the second a
    /// package, the last the function, and the ones between are files.
    pub fn crumb_glyph(index: usize) -> (r: &'static str)
        ensures
            r == if index == 0 {
                Icon::FOLDER
            } else if index == 1 {
                Icon::PACKAGE
            } else if index == 4 {
                Icon::FUNCTION
            } else {
                Icon::FILE_CODE
            },
    {
        if index == 0 {
            Icon::FOLDER
        } else if index == 1 {
            Icon::PACKAGE
        } else if index == 4 {
            Icon::FUNCTION
        } else {
            Icon::FILE_CODE
        }
    }

    /// A dock tab's badge is accent when it reads `paused` and warning
    /// otherwise, as a count of problems is.
    pub fn badge_colour(badge: &str) -> (r: u32)
        ensures
            r == if badge@ == "paused"@ {
                0x9184d9u32
            } else {
                0xc9a96au32
            },
    {
        if same_text(badge, "paused") {
            Palette::accent()
        } else {
            Palette::warning()
        }
    }

    /// The prototype tints a palette glyph by what the row is, not by where it
    /// sits in the list.
    pub fn tint(tint: Tint) -> (r: u32)
        ensures
            r == match tint {
                Tint::Accent => 0x9184d9u32,
                Tint::Go => 0x8fb3a5u32,
                Tint::Warning => 0xc9a96au32,
                Tint::Modified => 0xc9a96au32,
            },
    {
        match tint {
            Tint::Accent => Palette::accent(),
            Tint::Go => Palette::go_tint(),
            Tint::Warning => Palette::warning(),
            Tint::Modified => Palette::warning(),
        }
    }
}

/// The rows of the structure panel, as the prototype composes them.
pub open spec fn structure_rows() -> Seq<PanelRow> {
    seq![
        (0u8, Icon::BRACKETS_CURLY, "Shell", true, None),
        (1u8, Icon::DATABASE, "props: Props", false, None),
        (1u8, Icon::DATABASE, "profile: DensityProfile", false, None),
        (1u8, Icon::FUNCTION, "new(props)", false, None),
        (1u8, Icon::FUNCTION, "toolbar()", false, None),
        (1u8, Icon::FUNCTION, "rail()", false, None),
        (1u8, Icon::FUNCTION, "tool_window()", false, None),
        (1u8, Icon::FUNCTION, "editor()", false, None),
        (1u8, Icon::FUNCTION, "dock(height)", false, None),
        (1u8, Icon::FUNCTION, "status_bar()", false, None),
        (0u8, Icon::BRACKETS_CURLY, "NoOpCommandSink", false, None),
        (1u8, Icon::FUNCTION, "dispatch(command)", false, None),
    ]
}

/// The rows of the commit panel, as the prototype composes them.
pub open spec fn commit_rows() -> Seq<PanelRow> {
    seq![
        (0u8, Icon::GIT_BRANCH, "Changes", true, None),
        (1u8, Icon::FILE_CODE, "shell.rs", false, Some(Vcs::Modified)),
        (1u8, Icon::FILE_CODE, "props.rs", false, Some(Vcs::Modified)),
        (1u8, Icon::FILE_CODE, "icons.rs", false, Some(Vcs::Added)),
        (1u8, Icon::FILE_TEXT, "Cargo.toml", false, Some(Vcs::Modified)),
        (0u8, Icon::FOLDER, "Unversioned", false, None),
        (1u8, Icon::FILE_CODE, "gate-fidelity", false, Some(Vcs::Added)),
    ]
}

/// The rows of the find panel, as the prototype composes them.
pub open spec fn find_rows() -> Seq<PanelRow> {
    seq![
        (0u8, Icon::MAGNIFYING_GLASS, "Chrome::toolbar", true, None),
        (1u8, Icon::FILE_CODE, "shell.rs:59", false, None),
        (1u8, Icon::FILE_CODE, "layout.rs:8", false, None),
        (1u8, Icon::FILE_CODE, "tokens.rs:31", false, None),
        (0u8, Icon::MAGNIFYING_GLASS, "CHROME_TOOLBAR", false, None),
        (1u8, Icon::FILE_CODE, "generated_tokens.rs:14", false, None),
    ]
}

/// The rows of the history panel, as the prototype composes them.
pub open spec fn history_rows() -> Seq<PanelRow> {
    seq![
        (0u8, Icon::CLOCK_COUNTER_CLOCKWISE, "today 21:43", true, None),
        (1u8, Icon::PENCIL_SIMPLE, "shell.rs — dock tabs moved", false, None),
        (0u8, Icon::CLOCK_COUNTER_CLOCKWISE, "today 21:12", false, None),
        (1u8, Icon::PENCIL_SIMPLE, "shell.rs — icons added", false, None),
        (0u8, Icon::CLOCK_COUNTER_CLOCKWISE, "today 20:48", false, None),
        (1u8, Icon::PLUS, "icons.rs — created", false, None),
    ]
}

fn structure_panel() -> (r: Vec<PanelRow>)
    ensures
        r@ == structure_rows(),
{
    vec![
        (0u8, Icon::BRACKETS_CURLY, "Shell", true, None),
        (1u8, Icon::DATABASE, "props: Props", false, None),
        (1u8, Icon::DATABASE, "profile: DensityProfile", false, None),
        (1u8, Icon::FUNCTION, "new(props)", false, None),
        (1u8, Icon::FUNCTION, "toolbar()", false, None),
        (1u8, Icon::FUNCTION, "rail()", false, None),
        (1u8, Icon::FUNCTION, "tool_window()", false, None),
        (1u8, Icon::FUNCTION, "editor()", false, None),
        (1u8, Icon::FUNCTION, "dock(height)", false, None),
        (1u8, Icon::FUNCTION, "status_bar()", false, None),
        (0u8, Icon::BRACKETS_CURLY, "NoOpCommandSink", false, None),
        (1u8, Icon::FUNCTION, "dispatch(command)", false, None),
    ]
}

fn commit_panel() -> (r: Vec<PanelRow>)
    ensures
        r@ == commit_rows(),
{
    vec![
        (0u8, Icon::GIT_BRANCH, "Changes", true, None),
        (1u8, Icon::FILE_CODE, "shell.rs", false, Some(Vcs::Modified)),
        (1u8, Icon::FILE_CODE, "props.rs", false, Some(Vcs::Modified)),
        (1u8, Icon::FILE_CODE, "icons.rs", false, Some(Vcs::Added)),
        (1u8, Icon::FILE_TEXT, "Cargo.toml", false, Some(Vcs::Modified)),
        (0u8, Icon::FOLDER, "Unversioned", false, None),
        (1u8, Icon::FILE_CODE, "gate-fidelity", false, Some(Vcs::Added)),
    ]
}

fn find_panel() -> (r: Vec<PanelRow>)
    ensures
        r@ == find_rows(),
{
    vec![
        (0u8, Icon::MAGNIFYING_GLASS, "Chrome::toolbar", true, None),
        (1u8, Icon::FILE_CODE, "shell.rs:59", false, None),
        (1u8, Icon::FILE_CODE, "layout.rs:8", false, None),
        (1u8, Icon::FILE_CODE, "tokens.rs:31", false, None),
        (0u8, Icon::MAGNIFYING_GLASS, "CHROME_TOOLBAR", false, None),
        (1u8, Icon::FILE_CODE, "generated_tokens.rs:14", false, None),
    ]
}

fn history_panel() -> (r: Vec<PanelRow>)
    ensures
        r@ == history_rows(),
{
    vec![
        (0u8, Icon::CLOCK_COUNTER_CLOCKWISE, "today 21:43", true, None),
        (1u8, Icon::PENCIL_SIMPLE, "shell.rs — dock tabs moved", false, None),
        (0u8, Icon::CLOCK_COUNTER_CLOCKWISE, "today 21:12", false, None),
        (1u8, Icon::PENCIL_SIMPLE, "shell.rs — icons added", false, None),
        (0u8, Icon::CLOCK_COUNTER_CLOCKWISE, "today 20:48", false, None),
        (1u8, Icon::PLUS, "icons.rs — created", false, None),
    ]
}

/// Selecting a rail destination always leaves it the rail's destination; the
/// tool window ends collapsed exactly when that destination was already
/// showing; nothing else changes.
pub proof fn law_select_rail_shows_or_collapses(props: Props, tab: RailTab)
    ensures
        rail_selected(props, tab).rail_tab == tab,
        rail_selected(props, tab).side_collapsed == (props.rail_tab == tab && !props.side_collapsed),
        (Props {
            rail_tab: props.rail_tab,
            side_collapsed: props.side_collapsed,
            ..rail_selected(props, tab)
        }) == props,
{
}

/// Selecting the destination that is showing twice closes the tool window and
/// opens it again on the same destination.
pub proof fn law_select_rail_twice_restores(props: Props, tab: RailTab)
    requires
        props.rail_tab == tab,
        !props.side_collapsed,
    ensures
        rail_selected(props, tab).side_collapsed,
        rail_selected(rail_selected(props, tab), tab) == props,
{
}

/// The dock's tab strip: the selected panel is always the one asked for, the
/// dock ends collapsed exactly when that panel was already open, selecting the
/// open panel twice closes the dock and opens it again, and nothing else
/// changes.
pub proof fn law_select_dock_panel_toggles(props: Props, index: usize)
    ensures
        dock_panel_selected(props, index).dock_panel == index,
        dock_panel_selected(props, index).dock_collapsed == (props.dock_panel == index
            && !props.dock_collapsed),
        props.dock_panel == index && !props.dock_collapsed ==> dock_panel_selected(
            dock_panel_selected(props, index),
            index,
        ) == props,
        (Props {
            dock_panel: props.dock_panel,
            dock_collapsed: props.dock_collapsed,
            ..dock_panel_selected(props, index)
        }) == props,
{
}

/// Moving the tool window to the other side twice puts it back.
pub proof fn law_tool_side_round_trip(side: ToolSide)
    ensures
        other_side(side) != side,
        other_side(other_side(side)) == side,
{
}

/// Cycling density three times returns to the start, passing through all three.
pub proof fn law_density_cycle(density: Density)
    ensures
        next_density(next_density(next_density(density))) == density,
        density != next_density(density),
        density != next_density(next_density(density)),
        next_density(density) != next_density(next_density(density)),
{
}

/// Cycling density moves to the next looser density, and from the loosest,
/// roomy, back to the tightest, compact.
pub proof fn law_cycle_loosens(density: Density)
    ensures
        density != Density::Roomy ==> looseness(next_density(density)) == looseness(density) + 1,
        density == Density::Roomy ==> looseness(next_density(density)) == 0,
{
}

/// The latency readout shows and hides the frame panel: toggling twice returns
/// the readout it started from unless it started hidden, and a toggle never
/// hides it.
pub proof fn law_hud_toggle(readout: PerfReadout)
    ensures
        toggled_readout(readout) != PerfReadout::Off,
        readout != PerfReadout::Off ==> toggled_readout(toggled_readout(readout)) == readout,
{
}

/// The palette opens on the mode asked for, switching modes keeps it open on
/// the last one, and closing it leaves everything else as it was before it
/// opened, the mode it was last open on included.
pub proof fn law_palette_open_then_close(props: Props, first: Mode, second: Mode)
    ensures
        palette_opened(props, first).overlay == Overlay::Palette,
        palette_opened(palette_opened(props, first), second) == palette_opened(props, second),
        overlay_closed(palette_opened(props, second)) == (Props {
            overlay: Overlay::Closed,
            palette_mode: second,
            ..props
        }),
{
}

/// Packs selects a view, so the tool window's panel is never packs.
pub proof fn law_tool_panel_is_never_packs(tab: RailTab)
    ensures
        panel_for(tab) != RailTab::Packs,
        tab != RailTab::Packs ==> panel_for(tab) == tab,
{
}

} // verus!
