//! What the rail and the tool window show for each destination.

use vulcan_ui::design_tokens as token;
use vulcan_ui::icons::Icon;
use vulcan_ui::palette::Tint;
use vulcan_ui::props::{DensityTokens, RailTab};
use vulcan_ui::rendering::Density;
use vulcan_ui::shell::{Shell, Vcs};

#[test]
fn the_rail_lists_six_destinations_in_order() {
    let items = Shell::rail_items();
    let tabs: Vec<RailTab> = items.iter().map(|item| item.0).collect();
    assert_eq!(
        tabs,
        vec![
            RailTab::Project,
            RailTab::Structure,
            RailTab::Commit,
            RailTab::Find,
            RailTab::History,
            RailTab::Packs
        ]
    );
    assert_eq!(items[5].1, Icon::PUZZLE_PIECE);
}

#[test]
fn packs_keeps_the_project_panel() {
    assert_eq!(Shell::tool_panel(RailTab::Packs), RailTab::Project);
    assert_eq!(Shell::tool_panel(RailTab::Find), RailTab::Find);
    assert_eq!(Shell::panel_title(RailTab::Find), "Find in project");
    assert_eq!(Shell::panel_title(RailTab::Packs), "Packs and extensions");
    assert!(Shell::panel_rows(RailTab::Packs).is_empty());
}

#[test]
fn the_project_panel_is_the_tree_with_the_selected_file_marked() {
    let rows = Shell::panel_rows(RailTab::Project);
    assert_eq!(rows.len(), 14);
    let selected: Vec<&str> = rows.iter().filter(|row| row.3).map(|row| row.2).collect();
    assert_eq!(selected, vec!["OrderService.java"]);
    assert_eq!(rows[3].4, Some(Vcs::Modified));
    assert_eq!(rows[10].4, Some(Vcs::Added));
    assert_eq!(rows[0].4, None);
}

#[test]
fn the_other_panels_hold_their_rows() {
    assert_eq!(Shell::panel_rows(RailTab::Structure).len(), 12);
    let commit = Shell::panel_rows(RailTab::Commit);
    assert_eq!(commit.len(), 7);
    assert_eq!(commit[3], (1, Icon::FILE_CODE, "icons.rs", false, Some(Vcs::Added)));
    assert_eq!(Shell::panel_rows(RailTab::Find).len(), 6);
    assert_eq!(Shell::panel_rows(RailTab::History)[0].2, "today 21:43");
}

#[test]
fn palette_glyphs_are_tinted_by_what_the_row_is() {
    assert_eq!(Shell::tint(Tint::Accent), 0x9184d9);
    assert_eq!(Shell::tint(Tint::Go), 0x8fb3a5);
    assert_eq!(Shell::tint(Tint::Warning), 0xc9a96a);
    assert_eq!(Shell::tint(Tint::Modified), 0xc9a96a);
}

#[test]
fn each_density_reads_its_own_row_of_the_table() {
    let compact = DensityTokens::resolve(Density::Compact);
    assert_eq!(compact.code_line_height, token::VK_LINE_COMPACT);
    assert_eq!(compact.tool_window_width, "250px");
    assert_eq!(compact.dock_height, "206px");
    let default = DensityTokens::resolve(Density::Default);
    assert_eq!(default.row_height, "25px");
    assert_eq!(default.tool_window_width, "276px");
    let roomy = DensityTokens::resolve(Density::Roomy);
    assert_eq!(roomy.code_line_height, "25px");
    assert_eq!(roomy.dock_height, "268px");
    assert_eq!(Density::ALL, [Density::Compact, Density::Default, Density::Roomy]);
}

#[test]
fn row_labels_take_their_state_colour() {
    assert_eq!(Shell::row_colour(false, Some(Vcs::Added)), 0x7fa98f);
    assert_eq!(Shell::row_colour(true, Some(Vcs::Modified)), 0xc9a96a);
    assert_eq!(Shell::row_colour(true, None), 0xe9e9ed);
    assert_eq!(Shell::row_colour(false, None), 0x75798c);
    assert_eq!(Shell::vcs_letter(Vcs::Added), "A");
    assert_eq!(Shell::vcs_letter(Vcs::Modified), "M");
}

#[test]
fn breadcrumbs_and_badges() {
    assert_eq!(Shell::crumb_glyph(0), Icon::FOLDER);
    assert_eq!(Shell::crumb_glyph(1), Icon::PACKAGE);
    assert_eq!(Shell::crumb_glyph(2), Icon::FILE_CODE);
    assert_eq!(Shell::crumb_glyph(4), Icon::FUNCTION);
    assert_eq!(Shell::badge_colour("paused"), 0x9184d9);
    assert_eq!(Shell::badge_colour("1"), 0xc9a96a);
}

#[test]
fn every_dimension_grows_with_density() {
    let px = |token: &str| -> u32 { vulcan_ui::tokens::pixel_text(token).unwrap().parse().unwrap() };
    let rows: Vec<DensityTokens> = Density::ALL.iter().map(|d| DensityTokens::resolve(*d)).collect();
    for pair in rows.windows(2) {
        assert!(px(pair[1].code_line_height) > px(pair[0].code_line_height));
        assert!(px(pair[1].row_height) > px(pair[0].row_height));
        assert!(px(pair[1].tool_window_width) > px(pair[0].tool_window_width));
        assert!(px(pair[1].dock_height) > px(pair[0].dock_height));
    }
}
