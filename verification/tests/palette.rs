//! Palette filtering, over the prototype's own fixed list.

use vulcan_ui::palette::{count_label, keep_matching, matching, Mode, Row};

fn names(rows: Vec<Row>) -> Vec<&'static str> {
    rows.into_iter().map(|row| row.name).collect()
}

#[test]
fn an_empty_query_shows_every_row() {
    // The palette opens with no query, so this is the state a user sees first.
    let all = Mode::Files.rows();
    assert_eq!(matching(all.clone(), "").len(), all.len());
    assert_eq!(matching(all.clone(), "   ").len(), all.len());
}

#[test]
fn matching_ignores_case() {
    assert_eq!(names(matching(Mode::Files.rows(), "PRICING.GO")), vec!["pricing.go"]);
}

#[test]
fn a_query_matches_the_detail_line_as_well_as_the_name() {
    // "docs/adr/" is a path, not a filename; matching only names would miss it.
    assert_eq!(names(matching(Mode::Files.rows(), "docs/adr")), vec!["orders-ordering.md"]);
}

#[test]
fn a_query_matching_nothing_yields_nothing_rather_than_everything() {
    // A filter that falls back to the full list on no match is worse than an
    // empty result: it reports success for a search that failed.
    assert!(matching(Mode::Files.rows(), "zzz-no-such-symbol").is_empty());
}

#[test]
fn the_row_order_of_the_prototype_is_preserved() {
    let filtered = names(matching(Mode::Files.rows(), "order"));
    assert_eq!(
        filtered,
        vec![
            "OrderService.java",
            "OrderConfirmed.java",
            "order_service_test.go",
            "OrderService.confirm()",
            "orders-ordering.md",
        ]
    );
}

#[test]
fn commands_are_a_separate_list_from_files() {
    assert_eq!(names(matching(Mode::Commands.rows(), "extract")), vec!["Extract method"]);
    assert!(matching(Mode::Files.rows(), "extract").is_empty());
}

#[test]
fn structural_searches_the_same_entries_as_files() {
    // The prototype's ternary is `palette==='commands' ? cmds : files`, so
    // structural shares the file list rather than having one of its own.
    assert_eq!(names(Mode::StructuralSearch.rows()), names(Mode::Files.rows()));
}

#[test]
fn the_count_reads_as_shown_of_total() {
    let all = Mode::Files.rows();
    let shown = matching(all.clone(), "order");
    assert_eq!(count_label(shown.len(), all.len()), "5 of 7");
}

#[test]
fn a_query_is_trimmed_before_it_is_compared() {
    assert_eq!(names(matching(Mode::Files.rows(), "  pricing.go\t")), vec!["pricing.go"]);
}

#[test]
fn matching_lowercases_the_row_text_as_well_as_the_query() {
    // "orderservice" only occurs in a name written with capitals.
    assert_eq!(
        names(matching(Mode::Files.rows(), "orderservice")),
        vec!["OrderService.java", "OrderService.confirm()"]
    );
}

#[test]
fn matching_reaches_past_the_ascii_range() {
    // The detail line holds an em dash, which the query names directly.
    assert_eq!(
        names(matching(Mode::Files.rows(), "— language")),
        vec!["vulcan.toml"]
    );
}

#[test]
fn count_labels_write_their_numbers_in_decimal() {
    assert_eq!(count_label(0, 0), "0 of 0");
    assert_eq!(count_label(10, 120), "10 of 120");
    assert_eq!(count_label(7, 1_000_007), "7 of 1000007");
}

#[test]
fn each_mode_has_the_label_and_glyph_the_prototype_gives_it() {
    assert_eq!(Mode::Files.label(), "Files and Symbols");
    assert_eq!(Mode::Commands.label(), "Commands");
    assert_eq!(Mode::StructuralSearch.label(), "Structural");
    assert_eq!(Mode::Files.glyph(), vulcan_ui::icons::Icon::FILE_CODE);
    assert_eq!(Mode::Commands.glyph(), vulcan_ui::icons::Icon::COMMAND);
    assert_eq!(Mode::StructuralSearch.glyph(), vulcan_ui::icons::Icon::TREE_STRUCTURE);
    assert_eq!(Mode::Commands.rows().len(), 7);
}

#[test]
fn matching_lowercases_beyond_ascii() {
    // The query's capitals outside ASCII are lowered as the row text is.
    let rows = vec![vulcan_ui::palette::Row {
        glyph: vulcan_ui::icons::Icon::FILE_TEXT,
        name: "Übersicht.md",
        detail: "docs/",
        shortcut: "",
        tint: vulcan_ui::palette::Tint::Accent,
    }];
    assert_eq!(names(matching(rows, "ÜBERSICHT")), vec!["Übersicht.md"]);
}

#[test]
fn keeping_by_text_reads_the_texts_given() {
    let rows = Mode::Files.rows();
    let names: Vec<Vec<char>> = rows.iter().map(|row| row.name.to_lowercase().chars().collect()).collect();
    let details: Vec<Vec<char>> = rows.iter().map(|row| row.detail.to_lowercase().chars().collect()).collect();
    let needle: Vec<char> = "order".chars().collect();
    let kept = keep_matching(rows.clone(), &names, &details, &needle);
    assert_eq!(kept, matching(rows.clone(), "ORDER"));
    // Texts that do not hold the needle keep nothing, whatever the rows say.
    let blank: Vec<Vec<char>> = rows.iter().map(|_| Vec::new()).collect();
    assert!(keep_matching(rows.clone(), &blank, &blank, &needle).is_empty());
}
