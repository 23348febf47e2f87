//! The JSON document and the Rust module written for extracted design values.

use vulcan_ui::token_output::{
    constant_name, module_entry, module_entry_for, token_row, tokens_json, underscore_dashes,
};

#[test]
fn a_token_row_quotes_what_it_must() {
    let row = token_row("font-ui", "\"Inter\", sans-serif", "FontFamily", "Stylesheet", "tokens.css:4");
    assert_eq!(
        row,
        "    { \"name\": \"font-ui\", \"value\": \"\\\"Inter\\\", sans-serif\", \"kind\": \"FontFamily\", \"source\": \"Stylesheet\", \"source_location\": \"tokens.css:4\" }"
    );
}

#[test]
fn the_document_joins_rows_with_commas() {
    let rows = vec![
        token_row("a", "1", "K", "S", "x:1"),
        token_row("b", "2", "K", "S", "x:2"),
    ];
    let document = tokens_json(&rows);
    assert_eq!(document, format!("{{\n  \"values\": [\n{},\n{}\n  ]\n}}", rows[0], rows[1]));
}

#[test]
fn an_empty_set_is_an_empty_array() {
    assert_eq!(tokens_json(&Vec::new()), "{\n  \"values\": [\n\n  ]\n}");
}

#[test]
fn constant_names_are_uppercase_with_underscores() {
    assert_eq!(underscore_dashes("color-bg-1"), "color_bg_1");
    assert_eq!(constant_name("color-bg-1"), "COLOR_BG_1");
    assert_eq!(constant_name("radius"), "RADIUS");
}

#[test]
fn a_module_entry_documents_and_declares_the_value() {
    assert_eq!(
        module_entry("color-bg", "tokens.css:2", "COLOR_BG", "#0e0f13"),
        "/// `color-bg` from tokens.css:2\npub const COLOR_BG: &str = \"#0e0f13\";\n\n"
    );
    assert_eq!(
        module_entry_for("font-ui", "tokens.css:4", "\"Inter\""),
        "/// `font-ui` from tokens.css:4\npub const FONT_UI: &str = \"\\\"Inter\\\"\";\n\n"
    );
}
