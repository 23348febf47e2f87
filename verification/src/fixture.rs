//! The sample project the prototype composes.
//!
//! Every string here is read from the signed-off prototype rather than invented:
//! the shell renders `payments-platform`, not Vulcan's own source. Keeping it in
//! one module means the next prototype revision is one file to reconcile, and
//! makes it obvious when something on screen has no origin in the mock.
//!
//! Values the prototype animates, the indexing percentage and the frame
//! histogram, are frozen here at the initial state its own code declares,
//! because an exact pixel comparison cannot have a moving subject.

use vstd::prelude::*;

use crate::icons::Icon;
use crate::tokens::Palette;

verus! {

pub const PROJECT: &'static str = "payments-platform";
pub const FILE_COUNT: &'static str = "12 480 files";
pub const RUN_CONFIG: &'static str = "PaymentsApp";
pub const BRANCH: &'static str = "feat/stale-quote-retry";
pub const AHEAD: &'static str = "↑2";
pub const BEHIND: &'static str = "↓1";

/// `idx: 0.62` in the prototype's initial state, as the label shows it.
pub const INDEXING_LABEL: &'static str = "indexing 62%";
pub const INDEXING_BANNER: &'static str = "Indexing 62% — every feature stays available; symbols come from tree-sitter tags until the index lands.";

pub const HOST: &'static str = "Local machine";
pub const SHELL_PROMPT: &'static str = "~/payments-platform ❯";
pub const DOCK_TITLE: &'static str = "Terminal — local";
pub const DOCK_SUBTITLE: &'static str = "PTY · zsh";
pub const CARET: &'static str = "137:34";

/// Which file marker a tree row carries, and what the prototype tints it.
#[derive(Debug, Clone, Copy, PartialEq, Eq, Structural)]
pub enum Vcs {
    Modified,
    Added,
}

impl Vcs {
    pub fn marker(self) -> (r: &'static str)
        ensures
            r@ == match self {
                Vcs::Modified => "M"@,
                Vcs::Added => "A"@,
            },
    {
        match self {
            Vcs::Modified => "M",
            Vcs::Added => "A",
        }
    }

    /// Modified files take the warning colour, added ones the success colour.
    pub fn colour(self) -> (r: u32)
        ensures
            r == match self {
                Vcs::Modified => 0xc9a96au32,
                Vcs::Added => 0x7fa98fu32,
            },
    {
        match self {
            Vcs::Modified => Palette::warning(),
            Vcs::Added => Palette::success(),
        }
    }
}

#[derive(Debug, Clone, Copy)]
pub struct TreeRow {
    pub depth: u8,
    pub name: &'static str,
    pub glyph: &'static str,
    pub vcs: Option<Vcs>,
}

/// `treeSrc` in the prototype, row by row.
pub open spec fn tree_table() -> Seq<TreeRow> {
    seq![
        TreeRow { depth: 0, name: PROJECT, glyph: Icon::CUBE, vcs: None },
        TreeRow { depth: 1, name: "services", glyph: Icon::FOLDER, vcs: None },
        TreeRow { depth: 2, name: "orders", glyph: Icon::PACKAGE, vcs: None },
        TreeRow { depth: 3, name: "OrderService.java", glyph: Icon::FILE_CODE, vcs: Some(Vcs::Modified) },
        TreeRow { depth: 3, name: "OrderRepository.java", glyph: Icon::FILE_CODE, vcs: None },
        TreeRow { depth: 3, name: "OrderConfirmed.java", glyph: Icon::FILE_CODE, vcs: None },
        TreeRow { depth: 2, name: "pricing", glyph: Icon::PACKAGE, vcs: None },
        TreeRow { depth: 3, name: "pricing.go", glyph: Icon::FILE_CODE, vcs: Some(Vcs::Modified) },
        TreeRow { depth: 3, name: "pricing_test.go", glyph: Icon::FILE_CODE, vcs: None },
        TreeRow { depth: 1, name: "packs", glyph: Icon::FOLDER, vcs: None },
        TreeRow { depth: 2, name: "vulcan.toml", glyph: Icon::GEAR_SIX, vcs: Some(Vcs::Added) },
        TreeRow { depth: 2, name: "go.toml", glyph: Icon::GEAR_SIX, vcs: None },
        TreeRow { depth: 1, name: "deploy", glyph: Icon::FOLDER, vcs: None },
        TreeRow { depth: 1, name: "README.md", glyph: Icon::FILE_TEXT, vcs: None },
    ]
}

/// `treeSrc` in the prototype. Indentation is `10 + depth * 13` pixels.
pub fn tree() -> (r: Vec<TreeRow>)
    ensures
        r@ == tree_table(),
{
    vec![
        TreeRow { depth: 0, name: PROJECT, glyph: Icon::CUBE, vcs: None },
        TreeRow { depth: 1, name: "services", glyph: Icon::FOLDER, vcs: None },
        TreeRow { depth: 2, name: "orders", glyph: Icon::PACKAGE, vcs: None },
        TreeRow { depth: 3, name: "OrderService.java", glyph: Icon::FILE_CODE, vcs: Some(Vcs::Modified) },
        TreeRow { depth: 3, name: "OrderRepository.java", glyph: Icon::FILE_CODE, vcs: None },
        TreeRow { depth: 3, name: "OrderConfirmed.java", glyph: Icon::FILE_CODE, vcs: None },
        TreeRow { depth: 2, name: "pricing", glyph: Icon::PACKAGE, vcs: None },
        TreeRow { depth: 3, name: "pricing.go", glyph: Icon::FILE_CODE, vcs: Some(Vcs::Modified) },
        TreeRow { depth: 3, name: "pricing_test.go", glyph: Icon::FILE_CODE, vcs: None },
        TreeRow { depth: 1, name: "packs", glyph: Icon::FOLDER, vcs: None },
        TreeRow { depth: 2, name: "vulcan.toml", glyph: Icon::GEAR_SIX, vcs: Some(Vcs::Added) },
        TreeRow { depth: 2, name: "go.toml", glyph: Icon::GEAR_SIX, vcs: None },
        TreeRow { depth: 1, name: "deploy", glyph: Icon::FOLDER, vcs: None },
        TreeRow { depth: 1, name: "README.md", glyph: Icon::FILE_TEXT, vcs: None },
    ]
}

/// Left padding, in pixels, of a tree row at `depth`: ten, then thirteen per level.
pub fn row_indent(depth: u8) -> (r: u32)
    ensures
        r == 10 + 13 * depth,
{
    10 + 13 * (depth as u32)
}

pub const SELECTED_FILE: &'static str = "OrderService.java";

#[derive(Debug, Clone, Copy)]
pub struct Tab {
    pub name: &'static str,
    pub glyph: &'static str,
    pub tint: TabTint,
    pub dirty: bool,
}

#[derive(Debug, Clone, Copy, PartialEq, Eq, Structural)]
pub enum TabTint {
    Accent,
    Go,
    Toml,
}

impl TabTint {
    pub fn colour(self) -> (r: u32)
        ensures
            r == match self {
                TabTint::Accent => 0x9184d9u32,
                TabTint::Go => 0x8fb3a5u32,
                TabTint::Toml => 0xc9a96au32,
            },
    {
        match self {
            TabTint::Accent => Palette::accent(),
            TabTint::Go => Palette::go_tint(),
            TabTint::Toml => Palette::warning(),
        }
    }
}

/// `tabMeta` in the prototype, tab by tab.
pub open spec fn tab_table() -> Seq<Tab> {
    seq![
        Tab { name: "OrderService.java", glyph: Icon::FILE_CODE, tint: TabTint::Accent, dirty: true },
        Tab { name: "pricing.go", glyph: Icon::FILE_CODE, tint: TabTint::Go, dirty: false },
        Tab { name: "vulcan.toml", glyph: Icon::GEAR_SIX, tint: TabTint::Toml, dirty: true },
    ]
}

/// `tabMeta` in the prototype: icon, tint, and whether the buffer is dirty.
pub fn tabs() -> (r: Vec<Tab>)
    ensures
        r@ == tab_table(),
{
    vec![
        Tab { name: "OrderService.java", glyph: Icon::FILE_CODE, tint: TabTint::Accent, dirty: true },
        Tab { name: "pricing.go", glyph: Icon::FILE_CODE, tint: TabTint::Go, dirty: false },
        Tab { name: "vulcan.toml", glyph: Icon::GEAR_SIX, tint: TabTint::Toml, dirty: true },
    ]
}

/// `crumbSrc[0]`, the trail for the active tab.
pub fn breadcrumbs() -> (r: [&'static str; 5])
    ensures
        r@ == seq!["services", "orders", "src/main/java", "OrderService", "confirm()"],
{
    ["services", "orders", "src/main/java", "OrderService", "confirm()"]
}

pub const BREADCRUMB_NOTE: &'static str = "from tree-sitter tags";

/// How a run of code is coloured.
#[derive(Debug, Clone, Copy, PartialEq, Eq, Structural)]
pub enum Syntax {
    Plain,
    Keyword,
    Type,
    Function,
    Punctuation,
    Comment,
    Inlay,
}

impl Syntax {
    pub fn colour(self) -> (r: u32)
        ensures
            r == match self {
                Syntax::Plain => 0xcfd3e5u32,
                Syntax::Keyword => 0xb5abfcu32,
                Syntax::Type => 0xd2cefdu32,
                Syntax::Function => 0xe4e7f5u32,
                Syntax::Punctuation => 0x9397abu32,
                Syntax::Comment => 0x75798cu32,
                Syntax::Inlay => 0xe6e6eau32,
            },
    {
        match self {
            Syntax::Plain => Palette::syn_identifier(),
            Syntax::Keyword => Palette::syn_keyword(),
            Syntax::Type => Palette::syn_type(),
            Syntax::Function => Palette::syn_function(),
            Syntax::Punctuation => Palette::syn_punctuation(),
            Syntax::Comment => Palette::syn_comment(),
            Syntax::Inlay => Palette::inlay(),
        }
    }
}

pub struct Line {
    pub number: u32,
    /// The prototype marks edited lines with a 3px bar in the gutter.
    pub changed: bool,
    pub breakpoint: bool,
    pub current: bool,
    pub spans: Vec<(Syntax, &'static str)>,
}

/// A line as a value: its flags and its coloured runs.
#[verifier::ext_equal]
pub ghost struct LineView {
    pub number: u32,
    pub changed: bool,
    pub breakpoint: bool,
    pub current: bool,
    pub spans: Seq<(Syntax, &'static str)>,
}

impl View for Line {
    type V = LineView;

    open spec fn view(&self) -> LineView {
        LineView {
            number: self.number,
            changed: self.changed,
            breakpoint: self.breakpoint,
            current: self.current,
            spans: self.spans@,
        }
    }
}

fn line(
    number: u32,
    changed: bool,
    breakpoint: bool,
    current: bool,
    spans: Vec<(Syntax, &'static str)>,
) -> (r: Line)
    ensures
        r@ == (LineView { number, changed, breakpoint, current, spans: spans@ }),
{
    Line { number, changed, breakpoint, current, spans }
}

/// The buffer as the prototype paints it, line by line.
pub open spec fn buffer_table() -> Seq<LineView> {
    seq![
        LineView { number: 126, changed: false, breakpoint: false, current: false, spans: seq![(Syntax::Comment, "    // §9.1 anchors keep these positions valid across edits")] },
        LineView { number: 127, changed: true, breakpoint: false, current: false, spans: seq![(Syntax::Keyword, "@Transactional")] },
        LineView { number: 128, changed: true, breakpoint: false, current: false, spans: seq![(Syntax::Keyword, "public "), (Syntax::Type, "Receipt "), (Syntax::Function, "confirm"), (Syntax::Punctuation, "("), (Syntax::Type, "OrderId"), (Syntax::Plain, " id"), (Syntax::Punctuation, ", "), (Syntax::Type, "PaymentRef"), (Syntax::Plain, " ref"), (Syntax::Punctuation, ") {")] },
        LineView { number: 129, changed: false, breakpoint: false, current: false, spans: seq![(Syntax::Keyword, "    var"), (Syntax::Plain, " order"), (Syntax::Inlay, "  : Order"), (Syntax::Punctuation, " = "), (Syntax::Plain, "orders"), (Syntax::Punctuation, "."), (Syntax::Function, "require"), (Syntax::Punctuation, "("), (Syntax::Plain, "id"), (Syntax::Punctuation, ");")] },
        LineView { number: 130, changed: false, breakpoint: false, current: false, spans: seq![(Syntax::Plain, "    order"), (Syntax::Punctuation, "."), (Syntax::Function, "assertConfirmable"), (Syntax::Punctuation, "();")] },
        LineView { number: 131, changed: false, breakpoint: false, current: false, spans: seq![(Syntax::Plain, " ")] },
        LineView { number: 132, changed: true, breakpoint: false, current: false, spans: seq![(Syntax::Keyword, "    var"), (Syntax::Plain, " quote"), (Syntax::Inlay, "  : Quote"), (Syntax::Punctuation, " = "), (Syntax::Plain, "pricing"), (Syntax::Punctuation, "."), (Syntax::Function, "quote"), (Syntax::Punctuation, "("), (Syntax::Plain, "order"), (Syntax::Punctuation, "."), (Syntax::Function, "lines"), (Syntax::Punctuation, "());")] },
        LineView { number: 133, changed: true, breakpoint: false, current: false, spans: seq![(Syntax::Keyword, "    if"), (Syntax::Punctuation, " ("), (Syntax::Plain, "quote"), (Syntax::Punctuation, "."), (Syntax::Function, "isStale"), (Syntax::Punctuation, "()) {")] },
        LineView { number: 134, changed: true, breakpoint: false, current: false, spans: seq![(Syntax::Keyword, "        return "), (Syntax::Type, "Receipt"), (Syntax::Punctuation, "."), (Syntax::Function, "retry"), (Syntax::Punctuation, "("), (Syntax::Plain, "quote"), (Syntax::Punctuation, "."), (Syntax::Function, "ttl"), (Syntax::Punctuation, "());")] },
        LineView { number: 135, changed: true, breakpoint: false, current: false, spans: seq![(Syntax::Punctuation, "    }")] },
        LineView { number: 136, changed: false, breakpoint: false, current: false, spans: seq![(Syntax::Plain, " ")] },
        LineView { number: 137, changed: false, breakpoint: false, current: true, spans: seq![(Syntax::Keyword, "    var"), (Syntax::Plain, " charge = payments"), (Syntax::Punctuation, "."), (Syntax::Function, "capture"), (Syntax::Punctuation, "("), (Syntax::Plain, "ref"), (Syntax::Punctuation, ", "), (Syntax::Plain, "quote"), (Syntax::Punctuation, "."), (Syntax::Function, "total"), (Syntax::Punctuation, "());")] },
        LineView { number: 138, changed: false, breakpoint: false, current: false, spans: seq![(Syntax::Plain, "    order"), (Syntax::Punctuation, "."), (Syntax::Function, "confirm"), (Syntax::Punctuation, "("), (Syntax::Plain, "charge"), (Syntax::Punctuation, "."), (Syntax::Function, "id"), (Syntax::Punctuation, "(), "), (Syntax::Plain, "clock"), (Syntax::Punctuation, "."), (Syntax::Function, "now"), (Syntax::Punctuation, "());")] },
        LineView { number: 139, changed: false, breakpoint: false, current: false, spans: seq![(Syntax::Plain, " ")] },
        LineView { number: 140, changed: false, breakpoint: true, current: false, spans: seq![(Syntax::Plain, "    events"), (Syntax::Punctuation, "."), (Syntax::Function, "publish"), (Syntax::Punctuation, "("), (Syntax::Keyword, "new "), (Syntax::Type, "OrderConfirmed"), (Syntax::Punctuation, "("), (Syntax::Plain, "order"), (Syntax::Punctuation, "."), (Syntax::Function, "id"), (Syntax::Punctuation, "(), "), (Syntax::Plain, "charge"), (Syntax::Punctuation, "."), (Syntax::Function, "id"), (Syntax::Punctuation, "()));")] },
        LineView { number: 141, changed: false, breakpoint: false, current: false, spans: seq![(Syntax::Keyword, "    return "), (Syntax::Type, "Receipt"), (Syntax::Punctuation, "."), (Syntax::Function, "of"), (Syntax::Punctuation, "("), (Syntax::Plain, "order"), (Syntax::Punctuation, ", "), (Syntax::Plain, "charge"), (Syntax::Punctuation, ");")] },
        LineView { number: 142, changed: false, breakpoint: false, current: false, spans: seq![(Syntax::Punctuation, "}")] },
        LineView { number: 143, changed: false, breakpoint: false, current: false, spans: seq![(Syntax::Plain, " ")] },
        LineView { number: 144, changed: false, breakpoint: false, current: false, spans: seq![(Syntax::Comment, "    /* pricing.quote is remote — the editor never waits on it (§13) */")] },
        LineView { number: 145, changed: false, breakpoint: false, current: false, spans: seq![(Syntax::Keyword, "    private void "), (Syntax::Function, "assertLimits"), (Syntax::Punctuation, "("), (Syntax::Type, "Order"), (Syntax::Plain, " order"), (Syntax::Punctuation, ") {")] },
    ]
}

/// The buffer as the prototype paints it: `OrderService.confirm()`, lines
/// 126–145, with the language server's inlay hints resolved.
pub fn buffer() -> (r: Vec<Line>)
    ensures
        r@.len() == buffer_table().len(),
        forall|i: int| 0 <= i < r@.len() ==> #[trigger] r@[i]@ == buffer_table()[i],
{
    let r = vec![
        line(126, false, false, false, vec![(Syntax::Comment, "    // §9.1 anchors keep these positions valid across edits")]),
        line(127, true, false, false, vec![(Syntax::Keyword, "@Transactional")]),
        line(128, true, false, false, vec![(Syntax::Keyword, "public "), (Syntax::Type, "Receipt "), (Syntax::Function, "confirm"), (Syntax::Punctuation, "("), (Syntax::Type, "OrderId"), (Syntax::Plain, " id"), (Syntax::Punctuation, ", "), (Syntax::Type, "PaymentRef"), (Syntax::Plain, " ref"), (Syntax::Punctuation, ") {")]),
        line(129, false, false, false, vec![(Syntax::Keyword, "    var"), (Syntax::Plain, " order"), (Syntax::Inlay, "  : Order"), (Syntax::Punctuation, " = "), (Syntax::Plain, "orders"), (Syntax::Punctuation, "."), (Syntax::Function, "require"), (Syntax::Punctuation, "("), (Syntax::Plain, "id"), (Syntax::Punctuation, ");")]),
        line(130, false, false, false, vec![(Syntax::Plain, "    order"), (Syntax::Punctuation, "."), (Syntax::Function, "assertConfirmable"), (Syntax::Punctuation, "();")]),
        line(131, false, false, false, vec![(Syntax::Plain, " ")]),
        line(132, true, false, false, vec![(Syntax::Keyword, "    var"), (Syntax::Plain, " quote"), (Syntax::Inlay, "  : Quote"), (Syntax::Punctuation, " = "), (Syntax::Plain, "pricing"), (Syntax::Punctuation, "."), (Syntax::Function, "quote"), (Syntax::Punctuation, "("), (Syntax::Plain, "order"), (Syntax::Punctuation, "."), (Syntax::Function, "lines"), (Syntax::Punctuation, "());")]),
        line(133, true, false, false, vec![(Syntax::Keyword, "    if"), (Syntax::Punctuation, " ("), (Syntax::Plain, "quote"), (Syntax::Punctuation, "."), (Syntax::Function, "isStale"), (Syntax::Punctuation, "()) {")]),
        line(134, true, false, false, vec![(Syntax::Keyword, "        return "), (Syntax::Type, "Receipt"), (Syntax::Punctuation, "."), (Syntax::Function, "retry"), (Syntax::Punctuation, "("), (Syntax::Plain, "quote"), (Syntax::Punctuation, "."), (Syntax::Function, "ttl"), (Syntax::Punctuation, "());")]),
        line(135, true, false, false, vec![(Syntax::Punctuation, "    }")]),
        line(136, false, false, false, vec![(Syntax::Plain, " ")]),
        line(137, false, false, true, vec![(Syntax::Keyword, "    var"), (Syntax::Plain, " charge = payments"), (Syntax::Punctuation, "."), (Syntax::Function, "capture"), (Syntax::Punctuation, "("), (Syntax::Plain, "ref"), (Syntax::Punctuation, ", "), (Syntax::Plain, "quote"), (Syntax::Punctuation, "."), (Syntax::Function, "total"), (Syntax::Punctuation, "());")]),
        line(138, false, false, false, vec![(Syntax::Plain, "    order"), (Syntax::Punctuation, "."), (Syntax::Function, "confirm"), (Syntax::Punctuation, "("), (Syntax::Plain, "charge"), (Syntax::Punctuation, "."), (Syntax::Function, "id"), (Syntax::Punctuation, "(), "), (Syntax::Plain, "clock"), (Syntax::Punctuation, "."), (Syntax::Function, "now"), (Syntax::Punctuation, "());")]),
        line(139, false, false, false, vec![(Syntax::Plain, " ")]),
        line(140, false, true, false, vec![(Syntax::Plain, "    events"), (Syntax::Punctuation, "."), (Syntax::Function, "publish"), (Syntax::Punctuation, "("), (Syntax::Keyword, "new "), (Syntax::Type, "OrderConfirmed"), (Syntax::Punctuation, "("), (Syntax::Plain, "order"), (Syntax::Punctuation, "."), (Syntax::Function, "id"), (Syntax::Punctuation, "(), "), (Syntax::Plain, "charge"), (Syntax::Punctuation, "."), (Syntax::Function, "id"), (Syntax::Punctuation, "()));")]),
        line(141, false, false, false, vec![(Syntax::Keyword, "    return "), (Syntax::Type, "Receipt"), (Syntax::Punctuation, "."), (Syntax::Function, "of"), (Syntax::Punctuation, "("), (Syntax::Plain, "order"), (Syntax::Punctuation, ", "), (Syntax::Plain, "charge"), (Syntax::Punctuation, ");")]),
        line(142, false, false, false, vec![(Syntax::Punctuation, "}")]),
        line(143, false, false, false, vec![(Syntax::Plain, " ")]),
        line(144, false, false, false, vec![(Syntax::Comment, "    /* pricing.quote is remote — the editor never waits on it (§13) */")]),
        line(145, false, false, false, vec![(Syntax::Keyword, "    private void "), (Syntax::Function, "assertLimits"), (Syntax::Punctuation, "("), (Syntax::Type, "Order"), (Syntax::Plain, " order"), (Syntax::Punctuation, ") {")]),
    ];
    assert(r@.map_values(|l: Line| l@) =~~= buffer_table());
    assert(forall|i: int| 0 <= i < r@.len() ==> r@.map_values(|l: Line| l@)[i] == #[trigger] r@[i]@);
    r
}

/// How a terminal line is coloured, as `term` declares it.
#[derive(Debug, Clone, Copy, PartialEq, Eq, Structural)]
pub enum Output {
    Muted,
    Text,
    Task,
    Pass,
}

impl Output {
    pub fn colour(self) -> (r: u32)
        ensures
            r == match self {
                Output::Muted => 0x75798cu32,
                Output::Text => 0xe9e9edu32,
                Output::Task => 0xb2b6cau32,
                Output::Pass => 0x7fa98fu32,
            },
    {
        match self {
            Output::Muted => Palette::muted(),
            Output::Text => Palette::text(),
            Output::Task => Palette::syn_string(),
            Output::Pass => Palette::success(),
        }
    }
}

#[derive(Debug, Clone, Copy)]
pub struct Completion {
    pub name: &'static str,
    pub signature: &'static str,
    pub kind: &'static str,
    pub source: &'static str,
    /// The prototype dims an entry resolved from a lower-confidence source.
    pub certain: bool,
}

/// `term` in the prototype, line by line.
pub open spec fn terminal_table() -> Seq<(Output, &'static str)> {
    seq![
        (Output::Muted, "ssh build-01.euw1 — connected in 240 ms, agent 0.4.2"),
        (Output::Text, "~/payments-platform ❯ ./gradlew :orders:test --tests OrderServiceTest"),
        (Output::Task, "> Task :orders:compileJava"),
        (Output::Task, "> Task :orders:test"),
        (Output::Pass, "OrderServiceTest > confirmsWhenQuoteFresh() PASSED"),
        (Output::Pass, "OrderServiceTest > retriesWhenQuoteStale() PASSED"),
        (Output::Pass, "BUILD SUCCESSFUL in 6s"),
        (Output::Muted, "4 actionable tasks: 2 executed, 2 up-to-date"),
    ]
}

/// The terminal's lines and how each is coloured.
pub fn terminal() -> (r: Vec<(Output, &'static str)>)
    ensures
        r@ == terminal_table(),
{
    vec![
        (Output::Muted, "ssh build-01.euw1 — connected in 240 ms, agent 0.4.2"),
        (Output::Text, "~/payments-platform ❯ ./gradlew :orders:test --tests OrderServiceTest"),
        (Output::Task, "> Task :orders:compileJava"),
        (Output::Task, "> Task :orders:test"),
        (Output::Pass, "OrderServiceTest > confirmsWhenQuoteFresh() PASSED"),
        (Output::Pass, "OrderServiceTest > retriesWhenQuoteStale() PASSED"),
        (Output::Pass, "BUILD SUCCESSFUL in 6s"),
        (Output::Muted, "4 actionable tasks: 2 executed, 2 up-to-date"),
    ]
}

/// `dockTabs` in the prototype: glyph, label and badge.
pub open spec fn dock_tab_table() -> Seq<(&'static str, &'static str, &'static str)> {
    seq![
        (Icon::TERMINAL_WINDOW, "Terminal", ""),
        (Icon::BUG, "Debug", ""),
        (Icon::WARNING_CIRCLE, "Problems", "1"),
        (Icon::GAUGE, "Resources", ""),
    ]
}

/// `dockTabs`, with the badge each carries in the initial state.
pub fn dock_tabs() -> (r: Vec<(&'static str, &'static str, &'static str)>)
    ensures
        r@ == dock_tab_table(),
{
    vec![
        (Icon::TERMINAL_WINDOW, "Terminal", ""),
        (Icon::BUG, "Debug", ""),
        (Icon::WARNING_CIRCLE, "Problems", "1"),
        (Icon::GAUGE, "Resources", ""),
    ]
}

/// `compAll` in the prototype, entry by entry.
pub open spec fn completion_table() -> Seq<Completion> {
    seq![
        Completion { name: "capture", signature: "(PaymentRef ref, Money amount) → Charge", kind: "M", source: "jdtls", certain: true },
        Completion { name: "captureAsync", signature: "(PaymentRef ref, Money amount) → CompletableFuture<Charge>", kind: "M", source: "jdtls", certain: true },
        Completion { name: "capturePartial", signature: "(PaymentRef ref, Money amount, Split split) → Charge", kind: "M", source: "jdtls", certain: true },
        Completion { name: "capturedAt", signature: "() → Instant", kind: "M", source: "jdtls", certain: true },
        Completion { name: "CAPTURE_TIMEOUT", signature: "Duration — static field", kind: "F", source: "jdtls", certain: true },
        Completion { name: "capture_ref", signature: "payments.capture_ref — column", kind: "C", source: "sql pack", certain: false },
    ]
}

/// `compAll` in the prototype.
pub fn completions() -> (r: Vec<Completion>)
    ensures
        r@ == completion_table(),
{
    vec![
        Completion { name: "capture", signature: "(PaymentRef ref, Money amount) → Charge", kind: "M", source: "jdtls", certain: true },
        Completion { name: "captureAsync", signature: "(PaymentRef ref, Money amount) → CompletableFuture<Charge>", kind: "M", source: "jdtls", certain: true },
        Completion { name: "capturePartial", signature: "(PaymentRef ref, Money amount, Split split) → Charge", kind: "M", source: "jdtls", certain: true },
        Completion { name: "capturedAt", signature: "() → Instant", kind: "M", source: "jdtls", certain: true },
        Completion { name: "CAPTURE_TIMEOUT", signature: "Duration — static field", kind: "F", source: "jdtls", certain: true },
        Completion { name: "capture_ref", signature: "payments.capture_ref — column", kind: "C", source: "sql pack", certain: false },
    ]
}

/// The language servers in the status bar, with their resident size.
pub open spec fn server_table() -> Seq<(&'static str, &'static str)> {
    seq![
        ("jdtls", "1.14 GB"), ("gopls", "214 MB"),
    ]
}

/// Language servers in the status bar, with their resident size.
pub fn servers() -> (r: Vec<(&'static str, &'static str)>)
    ensures
        r@ == server_table(),
{
    vec![("jdtls", "1.14 GB"), ("gopls", "214 MB")]
}

/// An entry of the packs and extensions view.
#[derive(Debug, Clone, Copy)]
pub struct Pack {
    pub glyph: &'static str,
    pub name: &'static str,
    pub kind: &'static str,
    pub detail: &'static str,
}

pub const PACKS_TITLE: &'static str = "Packs and extensions";
pub const PACKS_NOTE: &'static str = "Two kinds only. Declarative packs are manifests plus assets — grammars, queries, server and adapter definitions, themes, keymaps.";

/// The installed packs, themes and fonts, in the order the view lists them.
pub open spec fn pack_table() -> Seq<Pack> {
    seq![
        Pack { glyph: Icon::COFFEE, name: "Java pack", kind: "Pack", detail: "Grammar, queries, jdtls and the java debug adapter." },
        Pack { glyph: Icon::FILE_CODE, name: "Rust pack", kind: "Pack", detail: "rust-analyzer, CodeLLDB, cargo tasks." },
        Pack { glyph: Icon::PALETTE, name: "Nocturne", kind: "Theme", detail: "The design system this interface is built from." },
        Pack { glyph: Icon::TEXT_AA, name: "JetBrains Mono", kind: "Font", detail: "Pinned for deterministic code rendering." },
    ]
}

/// The packs and extensions view's entries.
pub fn packs() -> (r: Vec<Pack>)
    ensures
        r@ == pack_table(),
{
    vec![
        Pack { glyph: Icon::COFFEE, name: "Java pack", kind: "Pack", detail: "Grammar, queries, jdtls and the java debug adapter." },
        Pack { glyph: Icon::FILE_CODE, name: "Rust pack", kind: "Pack", detail: "rust-analyzer, CodeLLDB, cargo tasks." },
        Pack { glyph: Icon::PALETTE, name: "Nocturne", kind: "Theme", detail: "The design system this interface is built from." },
        Pack { glyph: Icon::TEXT_AA, name: "JetBrains Mono", kind: "Font", detail: "Pinned for deterministic code rendering." },
    ]
}

/// A run configuration in the toolbar's dropdown; `active` marks the one the
/// control shows.
#[derive(Debug, Clone, Copy)]
pub struct RunConfig {
    pub glyph: &'static str,
    pub name: &'static str,
    pub meta: &'static str,
    pub active: bool,
}

pub const RUN_CONFIGS_TITLE: &'static str = "Run configurations";
pub const EDIT_CONFIGURATIONS: &'static str = "Edit configurations…";

/// The run configurations, in the dropdown's order.
pub open spec fn run_config_table() -> Seq<RunConfig> {
    seq![
        RunConfig { glyph: Icon::COFFEE, name: "PaymentsApp", meta: "java · remote", active: true },
        RunConfig { glyph: Icon::TEST_TUBE, name: "OrderServiceTest", meta: "java · test", active: false },
        RunConfig { glyph: Icon::SHIPPING_CONTAINER, name: "Run via Docker", meta: "compose", active: false },
        RunConfig { glyph: Icon::TERMINAL_WINDOW, name: "cargo run -p shell-preview", meta: "rust", active: false },
    ]
}

/// The run configuration dropdown's entries. The first is the active one,
/// and its name is what the toolbar control reads.
pub fn run_configs() -> (r: Vec<RunConfig>)
    ensures
        r@ == run_config_table(),
{
    vec![
        RunConfig { glyph: Icon::COFFEE, name: "PaymentsApp", meta: "java · remote", active: true },
        RunConfig { glyph: Icon::TEST_TUBE, name: "OrderServiceTest", meta: "java · test", active: false },
        RunConfig { glyph: Icon::SHIPPING_CONTAINER, name: "Run via Docker", meta: "compose", active: false },
        RunConfig { glyph: Icon::TERMINAL_WINDOW, name: "cargo run -p shell-preview", meta: "rust", active: false },
    ]
}

pub const COMPLETION_SOURCE: &'static str = "jdtls";
pub const COMPLETION_TIMING: &'static str = "41 ms";
pub const COMPLETION_QUERY: &'static str = "type to filter — watch the request get cancelled";
pub const COMPLETION_FOOTER: &'static str = "jdtls + sql pack, merged by source";

/// The documentation panel beside the selected entry.
pub const DOC_SIGNATURE: [&'static str; 3] = ["Charge capture(", "    PaymentRef ref,", "    Money amount)"];
pub const DOC_BODY: [&'static str; 2] = [
    "Captures an authorised payment. Idempotent on ref; throws ExpiredAuthorization after 7 days.",
    "Documentation resolved on selection — a separate, cancellable request.",
];

pub const ENCODING: [&'static str; 3] = ["LF", "UTF-8", "4 spaces"];

/// The number of bars in the frame histogram.
pub const HISTOGRAM_BARS: usize = 34;

/// The step of bar `i`: `lat` in the prototype is
/// `Array.from({length:34},(_,i)=>2.4+((i*7)%11)/4)`, so bar `i` is
/// `2.4 + step / 4` milliseconds.
pub open spec fn histogram_step(i: int) -> int {
    (i * 7) % 11
}

/// The frame histogram's steps, seeded rather than sampled so the reproduction
/// is deterministic. The renderer draws bar `i` at `2.4 + steps[i] / 4`.
pub fn frame_histogram_steps() -> (r: Vec<u32>)
    ensures
        r@.len() == HISTOGRAM_BARS,
        forall|i: int| 0 <= i < HISTOGRAM_BARS ==> #[trigger] r@[i] == histogram_step(i),
{
    let mut r: Vec<u32> = Vec::new();
    let mut i: u32 = 0;
    while i < 34
        invariant
            i <= 34,
            r@.len() == i,
            forall|k: int| 0 <= k < i ==> #[trigger] r@[k] == histogram_step(k),
        decreases 34 - i,
    {
        r.push((i * 7) % 11);
        i = i + 1;
    }
    r
}

/// How many of the first `n` bars have a step below `bound`.
pub open spec fn steps_below(n: nat, bound: int) -> nat
    decreases n,
{
    if n == 0 {
        0
    } else {
        steps_below((n - 1) as nat, bound) + if histogram_step(n - 1) < bound {
            1nat
        } else {
            0nat
        }
    }
}

/// The tallest bar is step 10, 4.9 ms, which is what `p99 4.9 ms` reports; and
/// the two middle bars of the 34 in order, the 17th and 18th, are both step 5,
/// so the median is 3.65 ms, which `p50 3.6 ms` reports.
pub proof fn law_histogram_p99_and_median()
    ensures
        forall|i: int| 0 <= i < HISTOGRAM_BARS ==> #[trigger] histogram_step(i) <= 10,
        histogram_step(3) == 10,
        steps_below(34, 5) == 16,
        steps_below(34, 6) == 19,
{
    assert forall|i: int| 0 <= i < HISTOGRAM_BARS implies #[trigger] histogram_step(i) <= 10 by {
        assert(0 <= i * 7);
    }
    reveal_with_fuel(steps_below, 35);
}

pub const LATENCY_TITLE: &'static str = "Keystroke → paint";
pub const LATENCY_BUDGET: &'static str = "budget 8.3ms";
pub const LATENCY_NOTE: &'static str = "One 120 Hz frame is the SLO (§16). Regressions fail CI, not review.";

/// p50 and p99 over the seeded histogram, which is what the prototype shows
/// before its first tick: median 3.65 and maximum 4.9 of `2.4 + k/4`.
pub const LATENCY_P50: &'static str = "p50 3.6 ms";
pub const LATENCY_P99: &'static str = "p99 4.9 ms";
pub const STATUS_LATENCY: &'static str = "p99 4.9 ms";

} // verus!
