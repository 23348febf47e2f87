//! Which regions and overlays the window composes for a set of properties.
//!
//! The renderer draws exactly what this says, so the rules that decide what
//! appears, and what replaces what, are stated and checked here rather than
//! spread through drawing code.

use vstd::prelude::*;

use crate::props::{CompletionStyle, Overlay, PerfReadout, Props, RailTab, ToolSide};
use crate::shell::{dock_panel_selected, panel_for};

verus! {

/// What the window shows.
#[derive(Debug, Clone, Copy, PartialEq, Eq)]
pub struct Composition {
    /// The rail and tool window come before the editor column, on the left.
    pub rail_leading: bool,
    /// The tool window is open beside the rail.
    pub tool_window: bool,
    /// The panel the tool window shows.
    pub tool_panel: RailTab,
    /// The tool window's header carries the project's file count.
    pub file_count: bool,
    /// Packs and extensions replaces the editor.
    pub packs_view: bool,
    /// The dock is open; when it is not, its tab strip stands alone.
    pub dock_open: bool,
    /// The completion popup is drawn over the editor.
    pub completion: bool,
    /// The popup carries the documentation panel beside its list.
    pub documentation: bool,
    /// The run configuration dropdown hangs under its control.
    pub run_config_dropdown: bool,
    /// The status bar carries the latency readout.
    pub status_readout: bool,
    /// The frame-timing panel is drawn.
    pub latency_hud: bool,
    /// The palette is drawn over everything.
    pub palette: bool,
}

/// The composition the prototype gives these properties.
pub open spec fn composition_of(props: Props) -> Composition {
    Composition {
        rail_leading: props.tool_side == ToolSide::Left,
        tool_window: !props.side_collapsed,
        tool_panel: panel_for(props.rail_tab),
        file_count: panel_for(props.rail_tab) == RailTab::Project,
        packs_view: props.rail_tab == RailTab::Packs,
        dock_open: !props.dock_collapsed,
        completion: props.rail_tab != RailTab::Packs && props.completion_open && props.overlay
            != Overlay::Palette,
        documentation: props.completion_style == CompletionStyle::Detail,
        run_config_dropdown: props.overlay == Overlay::RunConfig,
        status_readout: props.perf_readout != PerfReadout::Off,
        latency_hud: props.perf_readout == PerfReadout::Hud,
        palette: props.overlay == Overlay::Palette,
    }
}

/// Decides what the window shows.
pub fn compose(props: &Props) -> (r: Composition)
    ensures
        r == composition_of(*props),
{
    let packs = props.rail_tab == RailTab::Packs;
    let panel = match props.rail_tab {
        RailTab::Packs => RailTab::Project,
        other => other,
    };
    Composition {
        rail_leading: props.tool_side == ToolSide::Left,
        tool_window: !props.side_collapsed,
        tool_panel: panel,
        file_count: panel == RailTab::Project,
        packs_view: packs,
        dock_open: !props.dock_collapsed,
        completion: !packs && props.completion_open && props.overlay != Overlay::Palette,
        documentation: props.completion_style == CompletionStyle::Detail,
        run_config_dropdown: props.overlay == Overlay::RunConfig,
        status_readout: props.perf_readout != PerfReadout::Off,
        latency_hud: props.perf_readout == PerfReadout::Hud,
        palette: props.overlay == Overlay::Palette,
    }
}

/// A dock tab is highlighted while the dock is open on it.
pub open spec fn dock_tab_highlighted(props: Props, index: usize) -> bool {
    !props.dock_collapsed && props.dock_panel == index
}

/// A dock tab is highlighted while the dock is open on it; with the dock
/// collapsed none is, because none is showing.
pub fn dock_tab_active(props: &Props, index: usize) -> (r: bool)
    ensures
        r == dock_tab_highlighted(*props, index),
{
    !props.dock_collapsed && props.dock_panel == index
}

/// The rail marks the destination the properties name, whether or not its
/// tool window is collapsed.
pub fn rail_tab_active(props: &Props, tab: RailTab) -> (r: bool)
    ensures
        r == (props.rail_tab == tab),
{
    props.rail_tab == tab
}

/// The editor tab in front is the one the properties name.
pub fn editor_tab_active(props: &Props, index: usize) -> (r: bool)
    ensures
        r == (props.active_tab == index),
{
    props.active_tab == index
}

/// In a list of results, the palette's or the completion popup's, the first
/// row is the one selected.
pub fn result_selected(index: usize) -> (r: bool)
    ensures
        r == (index == 0),
{
    index == 0
}

/// Only the palette takes the completion popup away: with the run
/// configuration dropdown, the completion overlay or nothing over the editor,
/// the popup is drawn exactly as with no overlay, which outside packs is
/// exactly when it is open.
pub proof fn law_other_overlays_keep_completion(props: Props)
    requires
        props.overlay != Overlay::Palette,
    ensures
        composition_of(props).completion == composition_of(
            Props { overlay: Overlay::Closed, ..props },
        ).completion,
        props.rail_tab != RailTab::Packs ==> composition_of(props).completion
            == props.completion_open,
{
}

/// The palette replaces the completion popup rather than stacking over it, and
/// packs, which replaces the editor, takes the popup with it.
pub proof fn law_palette_replaces_completion(props: Props)
    ensures
        composition_of(props).palette ==> !composition_of(props).completion,
        composition_of(props).packs_view ==> !composition_of(props).completion,
{
}

/// The frame-timing panel is gated on the performance readout, and whenever it
/// shows, the status bar readout that hides it shows too.
pub proof fn law_hud_has_its_control(props: Props)
    ensures
        composition_of(props).latency_hud ==> composition_of(props).status_readout,
{
}

/// Only one overlay is composed at a time: the palette and the run
/// configuration dropdown never show together.
pub proof fn law_one_overlay(props: Props)
    ensures
        !(composition_of(props).palette && composition_of(props).run_config_dropdown),
{
}

/// Selecting a dock tab highlights that tab and no other, unless the tab was
/// already the open one, in which case the dock closes and no tab is
/// highlighted.
pub proof fn law_selecting_a_dock_tab_highlights_it(props: Props, index: usize, other: usize)
    ensures
        ({
            let after = dock_panel_selected(props, index);
            let closes = props.dock_panel == index && !props.dock_collapsed;
            &&& dock_tab_highlighted(after, index) == !closes
            &&& other != index ==> !dock_tab_highlighted(after, other)
        }),
{
}

} // verus!
