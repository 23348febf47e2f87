//! What the window composes for a set of properties.

use vulcan_ui::composition::{
    compose, dock_tab_active, editor_tab_active, rail_tab_active, result_selected,
};
use vulcan_ui::props::{CompletionStyle, Overlay, PerfReadout, Props, RailTab, ToolSide};

#[test]
fn the_initial_state_composes_the_prototype() {
    let c = compose(&Props::default());
    assert!(c.rail_leading);
    assert!(c.tool_window);
    assert_eq!(c.tool_panel, RailTab::Project);
    assert!(c.file_count);
    assert!(!c.packs_view);
    assert!(c.dock_open);
    assert!(c.completion);
    assert!(c.documentation);
    assert!(!c.run_config_dropdown);
    assert!(c.status_readout);
    assert!(c.latency_hud);
    assert!(!c.palette);
}

#[test]
fn the_palette_replaces_the_completion_popup() {
    let c = compose(&Props { overlay: Overlay::Palette, ..Props::default() });
    assert!(c.palette);
    assert!(!c.completion);
}

#[test]
fn packs_replaces_the_editor_and_keeps_the_project_panel() {
    let c = compose(&Props { rail_tab: RailTab::Packs, ..Props::default() });
    assert!(c.packs_view);
    assert!(!c.completion);
    assert_eq!(c.tool_panel, RailTab::Project);
    assert!(c.file_count);
    let find = compose(&Props { rail_tab: RailTab::Find, ..Props::default() });
    assert!(!find.file_count);
}

#[test]
fn the_readout_gates_the_frame_panel() {
    let status = compose(&Props { perf_readout: PerfReadout::Status, ..Props::default() });
    assert!(status.status_readout && !status.latency_hud);
    let off = compose(&Props { perf_readout: PerfReadout::Off, ..Props::default() });
    assert!(!off.status_readout && !off.latency_hud);
}

#[test]
fn side_style_and_dropdown_follow_their_properties() {
    let c = compose(&Props {
        tool_side: ToolSide::Right,
        side_collapsed: true,
        dock_collapsed: true,
        completion_style: CompletionStyle::Compact,
        overlay: Overlay::RunConfig,
        ..Props::default()
    });
    assert!(!c.rail_leading);
    assert!(!c.tool_window);
    assert!(!c.dock_open);
    assert!(!c.documentation);
    assert!(c.run_config_dropdown);
}

#[test]
fn a_collapsed_dock_highlights_no_tab() {
    let open = Props { dock_panel: 2, ..Props::default() };
    assert!(dock_tab_active(&open, 2));
    assert!(!dock_tab_active(&open, 0));
    let collapsed = Props { dock_collapsed: true, ..open };
    assert!(!dock_tab_active(&collapsed, 2));
}

#[test]
fn the_rail_and_tab_strip_mark_what_the_properties_name() {
    let mut props = Props::default();
    props.rail_tab = RailTab::Commit;
    props.side_collapsed = true;
    assert!(rail_tab_active(&props, RailTab::Commit));
    assert!(!rail_tab_active(&props, RailTab::Project));
    props.active_tab = 2;
    assert!(editor_tab_active(&props, 2));
    assert!(!editor_tab_active(&props, 0));
    assert!(result_selected(0));
    assert!(!result_selected(1));
}
