//! The Phosphor glyphs the prototype draws, each named as Phosphor names it.
//! The icon face is set on every run that carries one of these, so the name is
//! what picks the glyph.

use vstd::prelude::*;

verus! {

/// The glyph names, as associated constants so call sites read `Icon::FOLDER`.
pub struct Icon;

impl Icon {
    pub const ARROW_DOWN: &'static str = "arrow-down";
    pub const ARROW_LINE_DOWN: &'static str = "arrow-line-down";
    pub const ARROW_LINE_UP: &'static str = "arrow-line-up";
    pub const ARROWS_CLOCKWISE: &'static str = "arrows-clockwise";
    pub const BRACKETS_CURLY: &'static str = "brackets-curly";
    pub const BUG: &'static str = "bug";
    pub const CARET_DOUBLE_LEFT: &'static str = "caret-double-left";
    pub const CARET_DOWN: &'static str = "caret-down";
    pub const CARET_RIGHT: &'static str = "caret-right";
    pub const CLOCK_COUNTER_CLOCKWISE: &'static str = "clock-counter-clockwise";
    pub const CLOUD: &'static str = "cloud";
    pub const COFFEE: &'static str = "coffee";
    pub const COLUMNS: &'static str = "columns";
    pub const COMMAND: &'static str = "command";
    pub const CROSSHAIR: &'static str = "crosshair";
    pub const CUBE: &'static str = "cube";
    pub const DATABASE: &'static str = "database";
    pub const DESKTOP: &'static str = "desktop";
    pub const FILE_CODE: &'static str = "file-code";
    pub const FILE_TEXT: &'static str = "file-text";
    pub const FOLDER: &'static str = "folder";
    pub const FOLDER_OPEN: &'static str = "folder-open";
    pub const FUNCTION: &'static str = "function";
    pub const GAUGE: &'static str = "gauge";
    pub const GEAR_SIX: &'static str = "gear-six";
    pub const GIT_BRANCH: &'static str = "git-branch";
    pub const KEYBOARD: &'static str = "keyboard";
    pub const LIST_DASHES: &'static str = "list-dashes";
    pub const MAGNIFYING_GLASS: &'static str = "magnifying-glass";
    pub const PACKAGE: &'static str = "package";
    pub const PALETTE: &'static str = "palette";
    pub const PENCIL_SIMPLE: &'static str = "pencil-simple";
    pub const PLAY: &'static str = "play";
    pub const PLAY_CIRCLE: &'static str = "play-circle";
    pub const PLUS: &'static str = "plus";
    pub const POWER: &'static str = "power";
    pub const PUZZLE_PIECE: &'static str = "puzzle-piece";
    pub const SCISSORS: &'static str = "scissors";
    pub const SHIPPING_CONTAINER: &'static str = "shipping-container";
    pub const SIDEBAR_SIMPLE: &'static str = "sidebar-simple";
    pub const SLIDERS_HORIZONTAL: &'static str = "sliders-horizontal";
    pub const TERMINAL_WINDOW: &'static str = "terminal-window";
    pub const TEST_TUBE: &'static str = "test-tube";
    pub const TEXT_AA: &'static str = "text-aa";
    pub const TREE_STRUCTURE: &'static str = "tree-structure";
    pub const WARNING_CIRCLE: &'static str = "warning-circle";
    pub const X: &'static str = "x";
}

} // verus!
