//! The sample project, as the prototype composes it.

use vulcan_ui::fixture::{
    breadcrumbs, buffer, completions, dock_tabs, frame_histogram_steps, packs, row_indent,
    run_configs, servers, tabs, terminal, tree, Output, Syntax, TabTint, Vcs, CARET, HISTOGRAM_BARS, SELECTED_FILE,
};
use vulcan_ui::icons::Icon;

#[test]
fn the_tree_is_the_prototypes() {
    let rows = tree();
    assert_eq!(rows.len(), 14);
    assert_eq!(rows[0].name, "payments-platform");
    assert_eq!(rows[0].glyph, Icon::CUBE);
    assert_eq!(rows[3].name, "OrderService.java");
    assert_eq!(rows[3].depth, 3);
    assert_eq!(rows[3].vcs, Some(Vcs::Modified));
    assert_eq!(rows[10].vcs, Some(Vcs::Added));
    assert_eq!(rows[13].name, "README.md");
    assert_eq!(rows.iter().filter(|row| row.vcs.is_some()).count(), 3);
}

#[test]
fn vcs_markers_carry_their_letter_and_colour() {
    assert_eq!(Vcs::Modified.marker(), "M");
    assert_eq!(Vcs::Added.marker(), "A");
    assert_eq!(Vcs::Modified.colour(), 0xc9a96a);
    assert_eq!(Vcs::Added.colour(), 0x7fa98f);
}

#[test]
fn the_tabs_and_their_tints() {
    let tabs = tabs();
    assert_eq!(tabs.len(), 3);
    assert_eq!(tabs[0].name, SELECTED_FILE);
    assert!(tabs[0].dirty);
    assert!(!tabs[1].dirty);
    assert_eq!(TabTint::Accent.colour(), 0x9184d9);
    assert_eq!(TabTint::Go.colour(), 0x8fb3a5);
    assert_eq!(TabTint::Toml.colour(), 0xc9a96a);
    assert_eq!(tabs[2].tint.colour(), 0xc9a96a);
}

#[test]
fn the_breadcrumb_trail_ends_at_the_function() {
    assert_eq!(
        breadcrumbs(),
        ["services", "orders", "src/main/java", "OrderService", "confirm()"]
    );
}

#[test]
fn the_buffer_is_lines_126_to_145() {
    let lines = buffer();
    assert_eq!(lines.len(), 20);
    for (offset, line) in lines.iter().enumerate() {
        assert_eq!(line.number, 126 + offset as u32);
    }
    let current: Vec<u32> = lines.iter().filter(|line| line.current).map(|line| line.number).collect();
    assert_eq!(current, vec![137]);
    assert!(CARET.starts_with("137:"));
    let breakpoints: Vec<u32> =
        lines.iter().filter(|line| line.breakpoint).map(|line| line.number).collect();
    assert_eq!(breakpoints, vec![140]);
    let changed: Vec<u32> = lines.iter().filter(|line| line.changed).map(|line| line.number).collect();
    assert_eq!(changed, vec![127, 128, 132, 133, 134, 135]);
    assert_eq!(lines[3].spans[2], (Syntax::Inlay, "  : Order"));
    assert_eq!(lines[0].spans[0].0, Syntax::Comment);
}

#[test]
fn syntax_colours_follow_the_manifest() {
    assert_eq!(Syntax::Plain.colour(), 0xcfd3e5);
    assert_eq!(Syntax::Keyword.colour(), 0xb5abfc);
    assert_eq!(Syntax::Type.colour(), 0xd2cefd);
    assert_eq!(Syntax::Function.colour(), 0xe4e7f5);
    assert_eq!(Syntax::Punctuation.colour(), 0x9397ab);
    assert_eq!(Syntax::Comment.colour(), 0x75798c);
    assert_eq!(Syntax::Inlay.colour(), 0xe6e6ea);
}

#[test]
fn the_terminal_and_its_colours() {
    let lines = terminal();
    assert_eq!(lines.len(), 8);
    assert_eq!(lines[6].1, "BUILD SUCCESSFUL in 6s");
    assert_eq!(Output::Muted.colour(), 0x75798c);
    assert_eq!(Output::Text.colour(), 0xe9e9ed);
    assert_eq!(Output::Task.colour(), 0xb2b6ca);
    assert_eq!(Output::Pass.colour(), 0x7fa98f);
}

#[test]
fn the_dock_tabs_carry_their_badges() {
    let tabs = dock_tabs();
    assert_eq!(tabs.len(), 4);
    assert_eq!(tabs[2], (Icon::WARNING_CIRCLE, "Problems", "1"));
    assert_eq!(tabs[0].2, "");
}

#[test]
fn completions_and_servers() {
    let entries = completions();
    assert_eq!(entries.len(), 6);
    assert_eq!(entries[0].name, "capture");
    assert!(!entries[5].certain);
    assert_eq!(entries[5].source, "sql pack");
    assert_eq!(servers(), vec![("jdtls", "1.14 GB"), ("gopls", "214 MB")]);
}

#[test]
fn the_histogram_is_seeded_as_the_prototype_seeds_it() {
    let steps = frame_histogram_steps();
    assert_eq!(steps.len(), HISTOGRAM_BARS);
    assert_eq!(&steps[..5], &[0, 7, 3, 10, 6]);
    assert_eq!(steps.iter().copied().max(), Some(10));
    let mut sorted = steps.clone();
    sorted.sort();
    // The 17th and 18th of 34 are the median pair: 2.4 + 5/4 = 3.65 ms.
    assert_eq!((sorted[16], sorted[17]), (5, 5));
}

#[test]
fn tree_rows_indent_thirteen_pixels_a_level() {
    assert_eq!(row_indent(0), 10);
    assert_eq!(row_indent(1), 23);
    assert_eq!(row_indent(3), 49);
}

#[test]
fn the_packs_view_lists_two_packs_a_theme_and_a_font() {
    let entries: Vec<(&str, &str)> = packs().iter().map(|pack| (pack.name, pack.kind)).collect();
    assert_eq!(
        entries,
        vec![("Java pack", "Pack"), ("Rust pack", "Pack"), ("Nocturne", "Theme"), ("JetBrains Mono", "Font")]
    );
    assert_eq!(packs()[0].glyph, Icon::COFFEE);
    assert_eq!(packs()[3].detail, "Pinned for deterministic code rendering.");
}

#[test]
fn the_active_run_configuration_is_the_first() {
    let configs = run_configs();
    assert_eq!(configs.len(), 4);
    assert_eq!((configs[0].name, configs[0].meta, configs[0].active), ("PaymentsApp", "java · remote", true));
    assert!(configs[1..].iter().all(|config| !config.active));
    assert_eq!(configs[3].name, "cargo run -p shell-preview");
    assert_eq!(configs[2].glyph, Icon::SHIPPING_CONTAINER);
}
