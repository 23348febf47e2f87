//! The palette's rows and how a query narrows them.
//!
//! Content and filtering come from the prototype: the same seven entries, and
//! the same rule, which is a case-insensitive substring over both the name and
//! the detail line. Matching on the detail as well as the name is what lets
//! "orders" find a file by its path rather than only by its filename.

use vstd::prelude::*;
use vstd::string::*;

use crate::icons::Icon;
use crate::text::{
    chars_of, contains, contains_chars, decimal, lowercase, push_decimal, to_lowercase, trim,
    trimmed,
};

verus! {

#[derive(Debug, Clone, Copy, PartialEq, Eq)]
pub struct Row {
    pub glyph: &'static str,
    pub name: &'static str,
    pub detail: &'static str,
    pub shortcut: &'static str,
    pub tint: Tint,
}

/// Which colour a row's glyph takes. Named rather than numeric so the rows stay
/// free of design values.
#[derive(Debug, Clone, Copy, PartialEq, Eq, Structural)]
pub enum Tint {
    Accent,
    Go,
    Warning,
    Modified,
}

/// `paletteModes` in the prototype.
#[derive(Debug, Clone, Copy, PartialEq, Eq, Structural)]
pub enum Mode {
    Files,
    Commands,
    StructuralSearch,
}

/// The rows a mode searches: commands have their own list, and structural
/// search shares the file list, as the prototype's
/// `palette==='commands' ? cmds : files` does.
pub open spec fn rows_of(mode: Mode) -> Seq<Row> {
    match mode {
        Mode::Files | Mode::StructuralSearch => file_rows(),
        Mode::Commands => command_rows(),
    }
}

impl Mode {
    pub fn label(self) -> (r: &'static str)
        ensures
            r@ == match self {
                Mode::Files => "Files and Symbols"@,
                Mode::Commands => "Commands"@,
                Mode::StructuralSearch => "Structural"@,
            },
    {
        match self {
            Mode::Files => "Files and Symbols",
            Mode::Commands => "Commands",
            Mode::StructuralSearch => "Structural",
        }
    }

    pub fn glyph(self) -> (r: &'static str)
        ensures
            r == match self {
                Mode::Files => Icon::FILE_CODE,
                Mode::Commands => Icon::COMMAND,
                Mode::StructuralSearch => Icon::TREE_STRUCTURE,
            },
    {
        match self {
            Mode::Files => Icon::FILE_CODE,
            Mode::Commands => Icon::COMMAND,
            Mode::StructuralSearch => Icon::TREE_STRUCTURE,
        }
    }

    pub fn rows(self) -> (r: Vec<Row>)
        ensures
            r@ == rows_of(self),
    {
        match self {
            Mode::Files | Mode::StructuralSearch => files(),
            Mode::Commands => commands(),
        }
    }
}

pub open spec fn entry(
    glyph: &'static str,
    name: &'static str,
    detail: &'static str,
    shortcut: &'static str,
    tint: Tint,
) -> Row {
    Row { glyph, name, detail, shortcut, tint }
}

/// The prototype's file and symbol entries, in its order.
pub open spec fn file_rows() -> Seq<Row> {
    seq![
        entry(Icon::FILE_CODE, "OrderService.java", "services/orders/src/main/java/…", "⏎", Tint::Accent),
        entry(Icon::FILE_CODE, "OrderConfirmed.java", "services/orders/src/main/java/events/", "", Tint::Accent),
        entry(Icon::FILE_CODE, "pricing.go", "services/pricing/", "", Tint::Go),
        entry(Icon::FILE_CODE, "order_service_test.go", "services/pricing/internal/", "", Tint::Go),
        entry(Icon::GEAR_SIX, "vulcan.toml", "packs/ — language pack manifest", "", Tint::Warning),
        entry(Icon::FUNCTION, "OrderService.confirm()", "symbol · from tree-sitter tags", "", Tint::Accent),
        entry(Icon::FILE_TEXT, "orders-ordering.md", "docs/adr/", "", Tint::Modified),
    ]
}

/// The prototype's command entries, in its order.
pub open spec fn command_rows() -> Seq<Row> {
    seq![
        entry(Icon::ARROWS_CLOCKWISE, "Reload language pack", "packs/vulcan.toml — no restart", "⌘⇧R", Tint::Accent),
        entry(Icon::POWER, "Restart language server", "jdtls · 1.14 GB", "", Tint::Accent),
        entry(Icon::TREE_STRUCTURE, "Structural search and replace", "tree-sitter query across packs", "⌘⇧S", Tint::Accent),
        entry(Icon::CLOCK_COUNTER_CLOCKWISE, "Toggle local history", "per-file rope snapshots", "", Tint::Accent),
        entry(Icon::CLOUD, "Attach to remote host", "build-01.euw1 · SSH", "⌘⇧H", Tint::Accent),
        entry(Icon::GAUGE, "Show frame timings", "keystroke → paint p99", "", Tint::Accent),
        entry(Icon::SCISSORS, "Extract method", "jdtls refactoring", "⌘⌥M", Tint::Accent),
    ]
}

fn files() -> (r: Vec<Row>)
    ensures
        r@ == file_rows(),
{
    vec![
        row(Icon::FILE_CODE, "OrderService.java", "services/orders/src/main/java/…", "⏎", Tint::Accent),
        row(Icon::FILE_CODE, "OrderConfirmed.java", "services/orders/src/main/java/events/", "", Tint::Accent),
        row(Icon::FILE_CODE, "pricing.go", "services/pricing/", "", Tint::Go),
        row(Icon::FILE_CODE, "order_service_test.go", "services/pricing/internal/", "", Tint::Go),
        row(Icon::GEAR_SIX, "vulcan.toml", "packs/ — language pack manifest", "", Tint::Warning),
        row(Icon::FUNCTION, "OrderService.confirm()", "symbol · from tree-sitter tags", "", Tint::Accent),
        row(Icon::FILE_TEXT, "orders-ordering.md", "docs/adr/", "", Tint::Modified),
    ]
}

fn commands() -> (r: Vec<Row>)
    ensures
        r@ == command_rows(),
{
    vec![
        row(Icon::ARROWS_CLOCKWISE, "Reload language pack", "packs/vulcan.toml — no restart", "⌘⇧R", Tint::Accent),
        row(Icon::POWER, "Restart language server", "jdtls · 1.14 GB", "", Tint::Accent),
        row(Icon::TREE_STRUCTURE, "Structural search and replace", "tree-sitter query across packs", "⌘⇧S", Tint::Accent),
        row(Icon::CLOCK_COUNTER_CLOCKWISE, "Toggle local history", "per-file rope snapshots", "", Tint::Accent),
        row(Icon::CLOUD, "Attach to remote host", "build-01.euw1 · SSH", "⌘⇧H", Tint::Accent),
        row(Icon::GAUGE, "Show frame timings", "keystroke → paint p99", "", Tint::Accent),
        row(Icon::SCISSORS, "Extract method", "jdtls refactoring", "⌘⌥M", Tint::Accent),
    ]
}

fn row(
    glyph: &'static str,
    name: &'static str,
    detail: &'static str,
    shortcut: &'static str,
    tint: Tint,
) -> (r: Row)
    ensures
        r == entry(glyph, name, detail, shortcut, tint),
{
    Row { glyph, name, detail, shortcut, tint }
}

/// What a query is compared as: trimmed, then lowercased.
pub open spec fn needle_of(query: Seq<char>) -> Seq<char> {
    lowercase(trimmed(query))
}

/// A row matches when the needle occurs in its lowercased name or detail.
pub open spec fn row_matches(row: Row, needle: Seq<char>) -> bool {
    contains(lowercase(row.name@), needle) || contains(lowercase(row.detail@), needle)
}

/// The rows a query leaves, in their original order; a blank needle leaves all.
pub open spec fn matching_rows(rows: Seq<Row>, query: Seq<char>) -> Seq<Row> {
    let needle = needle_of(query);
    if needle.len() == 0 {
        rows
    } else {
        rows.filter(|row: Row| row_matches(row, needle))
    }
}

/// The texts of a list of character vectors, as sequences.
pub open spec fn texts_of(v: Seq<Vec<char>>) -> Seq<Seq<char>> {
    v.map_values(|t: Vec<char>| t@)
}

/// The rows whose name text or detail text holds the needle, in their order;
/// the texts stand beside the rows, index for index.
pub open spec fn kept_rows(
    rows: Seq<Row>,
    names: Seq<Seq<char>>,
    details: Seq<Seq<char>>,
    needle: Seq<char>,
) -> Seq<Row>
    decreases rows.len(),
{
    if rows.len() == 0 {
        rows
    } else {
        let rest = kept_rows(rows.drop_last(), names.drop_last(), details.drop_last(), needle);
        if contains(names.last(), needle) || contains(details.last(), needle) {
            rest.push(rows.last())
        } else {
            rest
        }
    }
}

/// Keeps the rows whose (already lowercased) name or detail contains the
/// (already lowercased) needle, in their original order. `names[i]` and
/// `details[i]` are the texts of `rows[i]`.
pub fn keep_matching(
    rows: Vec<Row>,
    names: &Vec<Vec<char>>,
    details: &Vec<Vec<char>>,
    needle: &Vec<char>,
) -> (r: Vec<Row>)
    requires
        names.len() == rows.len(),
        details.len() == rows.len(),
    ensures
        r@ == kept_rows(rows@, texts_of(names@), texts_of(details@), needle@),
{
    let mut shown: Vec<Row> = Vec::new();
    let mut i: usize = 0;
    while i < rows.len()
        invariant
            names.len() == rows.len(),
            details.len() == rows.len(),
            i <= rows.len(),
            shown@ == kept_rows(
                rows@.take(i as int),
                texts_of(names@).take(i as int),
                texts_of(details@).take(i as int),
                needle@,
            ),
        decreases rows.len() - i,
    {
        let candidate = rows[i];
        let keep = contains_chars(&names[i], needle) || contains_chars(&details[i], needle);
        assert(rows@.take(i + 1).drop_last() =~= rows@.take(i as int));
        assert(texts_of(names@).take(i + 1).drop_last() =~= texts_of(names@).take(i as int));
        assert(texts_of(details@).take(i + 1).drop_last() =~= texts_of(details@).take(i as int));
        assert(texts_of(names@).take(i + 1).last() == names@[i as int]@);
        assert(texts_of(details@).take(i + 1).last() == details@[i as int]@);
        if keep {
            shown.push(candidate);
        }
        i = i + 1;
    }
    assert(rows@.take(rows@.len() as int) =~= rows@);
    assert(texts_of(names@).take(rows@.len() as int) =~= texts_of(names@));
    assert(texts_of(details@).take(rows@.len() as int) =~= texts_of(details@));
    shown
}

/// With each row's lowercased name and detail beside it, keeping by text is
/// filtering by `row_matches`.
proof fn lemma_kept_rows_filter(
    rows: Seq<Row>,
    names: Seq<Seq<char>>,
    details: Seq<Seq<char>>,
    needle: Seq<char>,
)
    requires
        names.len() == rows.len(),
        details.len() == rows.len(),
        forall|j: int| 0 <= j < rows.len() ==> #[trigger] names[j] == lowercase(rows[j].name@),
        forall|j: int| 0 <= j < rows.len() ==> #[trigger] details[j] == lowercase(rows[j].detail@),
    ensures
        kept_rows(rows, names, details, needle) == rows.filter(|row: Row| row_matches(row, needle)),
    decreases rows.len(),
{
    reveal_with_fuel(Seq::<_>::filter, 1);
    if rows.len() > 0 {
        let n = rows.len() - 1;
        assert(names[n] == lowercase(rows[n].name@));
        assert(details[n] == lowercase(rows[n].detail@));
        lemma_kept_rows_filter(rows.drop_last(), names.drop_last(), details.drop_last(), needle);
    }
}

/// An empty or whitespace-only query matches everything, which is what the
/// palette shows when it opens.
pub fn matching(rows: Vec<Row>, query: &str) -> (r: Vec<Row>)
    ensures
        r@ == matching_rows(rows@, query@),
        trimmed(query@).len() == 0 ==> r@ == rows@,
{
    let trimmed_query = trim(query);
    let lowered = to_lowercase(trimmed_query);
    if lowered.as_str().is_empty() {
        return rows;
    }
    let needle = chars_of(lowered.as_str());
    let mut names: Vec<Vec<char>> = Vec::new();
    let mut details: Vec<Vec<char>> = Vec::new();
    let mut i: usize = 0;
    while i < rows.len()
        invariant
            i <= rows.len(),
            names.len() == i,
            details.len() == i,
            forall|j: int| 0 <= j < i ==> #[trigger] names@[j]@ == lowercase(rows@[j].name@),
            forall|j: int| 0 <= j < i ==> #[trigger] details@[j]@ == lowercase(rows@[j].detail@),
        decreases rows.len() - i,
    {
        let name = to_lowercase(rows[i].name);
        let detail = to_lowercase(rows[i].detail);
        names.push(chars_of(name.as_str()));
        details.push(chars_of(detail.as_str()));
        i = i + 1;
    }
    proof {
        lemma_kept_rows_filter(rows@, texts_of(names@), texts_of(details@), needle@);
    }
    keep_matching(rows, &names, &details, &needle)
}

/// `paletteCount` in the prototype: "4 of 7".
pub fn count_label(shown: usize, total: usize) -> (r: String)
    ensures
        r@ == decimal(shown as nat) + " of "@ + decimal(total as nat),
{
    let mut label = String::new();
    push_decimal(&mut label, shown);
    label.append(" of ");
    push_decimal(&mut label, total);
    label
}

/// What a query leaves holds exactly the rows whose lowercased name or
/// detail contains the needle, taken from the rows given.
pub proof fn law_matching_selects_by_name_or_detail(rows: Seq<Row>, query: Seq<char>, row: Row)
    requires
        needle_of(query).len() > 0,
    ensures
        matching_rows(rows, query).contains(row) <==> rows.contains(row) && row_matches(
            row,
            needle_of(query),
        ),
{
    broadcast use vstd::seq_lib::group_filter_ensures;

    let pred = |r: Row| row_matches(r, needle_of(query));
    let kept = rows.filter(pred);
    if kept.contains(row) {
        rows.lemma_filter_contains_rev(pred, row);
        let k = choose|k: int| 0 <= k < kept.len() && kept[k] == row;
        assert(pred(kept[k]));
    }
    if rows.contains(row) && row_matches(row, needle_of(query)) {
        let i = choose|i: int| 0 <= i < rows.len() && rows[i] == row;
        assert(pred(rows[i]));
        assert(kept.contains(rows[i]));
    }
}

/// Structural search runs over the same entries as file search, and commands
/// are a list of their own.
pub proof fn law_structural_shares_the_file_list()
    ensures
        rows_of(Mode::StructuralSearch) == rows_of(Mode::Files),
        rows_of(Mode::Commands) == command_rows(),
{
}

} // verus!
