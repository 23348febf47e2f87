//! The design values of the signed-off prototype, each as the string its
//! stylesheet or manifest writes. The shell reads every dimension and colour it
//! draws from here, through `tokens`, so nothing it draws is a value of its own.

use vstd::prelude::*;

verus! {

// Fixed chrome.

/// `--chrome-toolbar`.
pub const CHROME_TOOLBAR: &'static str = "46px";
/// `--chrome-remote-banner`.
pub const CHROME_REMOTE_BANNER: &'static str = "26px";
/// `--chrome-tab-strip`.
pub const CHROME_TAB_STRIP: &'static str = "34px";
/// `--chrome-breadcrumbs`.
pub const CHROME_BREADCRUMBS: &'static str = "24px";
/// `--chrome-dock-header`.
pub const CHROME_DOCK_HEADER: &'static str = "30px";
/// `--chrome-dock-tab-strip`.
pub const CHROME_DOCK_TAB_STRIP: &'static str = "28px";
/// `--chrome-status-bar`.
pub const CHROME_STATUS_BAR: &'static str = "26px";
/// `--chrome-rail-width`.
pub const CHROME_RAIL_WIDTH: &'static str = "44px";

// The design system's colours.

/// `--color-bg`.
pub const COLOR_BG: &'static str = "#161826";
/// `--color-surface`.
pub const COLOR_SURFACE: &'static str = "#232532";
/// `--color-text`.
pub const COLOR_TEXT: &'static str = "#e9e9ed";
/// `--color-accent`.
pub const COLOR_ACCENT: &'static str = "#9184d9";
/// `--color-neutral-500`.
pub const COLOR_NEUTRAL_500: &'static str = "#75798c";
/// `--color-neutral-600`.
pub const COLOR_NEUTRAL_600: &'static str = "#595d6c";
/// `--color-neutral-800`.
pub const COLOR_NEUTRAL_800: &'static str = "#363842";
/// `--color-neutral-900`.
pub const COLOR_NEUTRAL_900: &'static str = "#292b31";

// The manifest's named colours.

/// Manifest: keywords, annotations, TOML keys.
pub const MANIFEST_KEYWORDS_ANNOTATIONS_TOML_B5ABFC: &'static str = "#b5abfc";
/// Manifest: types, classes, doc comments.
pub const MANIFEST_TYPES_CLASSES_DOC_D2CEFD: &'static str = "#d2cefd";
/// Manifest: function and method names.
pub const MANIFEST_FUNCTION_AND_METHOD_E4E7F5: &'static str = "#e4e7f5";
/// Manifest: identifiers, numbers, terminal text.
pub const MANIFEST_IDENTIFIERS_NUMBERS_TERMINAL_CFD3E5: &'static str = "#cfd3e5";
/// Manifest: string literals.
pub const MANIFEST_STRING_LITERALS_B2B6CA: &'static str = "#b2b6ca";
/// Manifest: punctuation and operators.
pub const MANIFEST_PUNCTUATION_OPERATORS_9397AB: &'static str = "#9397ab";
/// Manifest: comments.
pub const MANIFEST_COMMENTS_75798C: &'static str = "#75798c";
/// Manifest: line numbers.
pub const MANIFEST_LINE_NUMBERS_595D6C: &'static str = "#595d6c";
/// Manifest: inlay hints, which are virtual text.
pub const MANIFEST_INLAY_HINTS_VIRTUAL_E6E6EA: &'static str = "#e6e6ea";
/// Manifest: the tint of Go files.
pub const MANIFEST_GO_FILE_TINT_8FB3A5: &'static str = "#8fb3a5";
/// Manifest: errors, diagnostics, breakpoints.
pub const MANIFEST_ERROR_DIAGNOSTICS_BREAKPOINT_D4736A: &'static str = "#d4736a";
/// Manifest: warnings and modified files.
pub const MANIFEST_WARNING_MODIFIED_FILE_C9A96A: &'static str = "#c9a96a";
/// Manifest: success and passing tests.
pub const MANIFEST_SUCCESS_TESTS_PASSED_7FA98F: &'static str = "#7fa98f";

// Radii.

/// `--radius-sm`.
pub const RADIUS_SM: &'static str = "4px";
/// `--radius-md`.
pub const RADIUS_MD: &'static str = "6px";
/// `--radius-lg`.
pub const RADIUS_LG: &'static str = "10px";

// The density table: one value per dimension and density.

/// Code line height, compact.
pub const VK_LINE_COMPACT: &'static str = "19px";
/// Code line height, default.
pub const VK_LINE_DEFAULT: &'static str = "21px";
/// Code line height, roomy.
pub const VK_LINE_ROOMY: &'static str = "25px";
/// List row height, compact.
pub const VK_ROW_COMPACT: &'static str = "22px";
/// List row height, default.
pub const VK_ROW_DEFAULT: &'static str = "25px";
/// List row height, roomy.
pub const VK_ROW_ROOMY: &'static str = "30px";
/// Interface font size, compact.
pub const VK_FS_COMPACT: &'static str = "12px";
/// Interface font size, default.
pub const VK_FS_DEFAULT: &'static str = "12.5px";
/// Interface font size, roomy.
pub const VK_FS_ROOMY: &'static str = "13.5px";
/// Code font size, compact.
pub const VK_CODE_COMPACT: &'static str = "12px";
/// Code font size, default.
pub const VK_CODE_DEFAULT: &'static str = "13px";
/// Code font size, roomy.
pub const VK_CODE_ROOMY: &'static str = "14px";
/// Tool window width, compact.
pub const VK_TOOL_COMPACT: &'static str = "250px";
/// Tool window width, default.
pub const VK_TOOL_DEFAULT: &'static str = "276px";
/// Tool window width, roomy.
pub const VK_TOOL_ROOMY: &'static str = "310px";
/// Dock height, compact.
pub const VK_DOCK_COMPACT: &'static str = "206px";
/// Dock height, default.
pub const VK_DOCK_DEFAULT: &'static str = "236px";
/// Dock height, roomy.
pub const VK_DOCK_ROOMY: &'static str = "268px";

} // verus!
