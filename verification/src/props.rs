//! The properties the prototype exposes, and which design values density selects.
//!
//! Values come from the design token set, so a change to the prototype's
//! density table surfaces as a token diff rather than as a code edit.

use vstd::prelude::*;

use crate::design_tokens as token;
use crate::palette::Mode;
use crate::rendering::Density;
use crate::text::{decimal_value, trimmed};
use crate::tokens::pixel_number;

verus! {

#[derive(Debug, Clone, Copy, PartialEq, Eq, Structural)]
pub enum ToolSide {
    Left,
    Right,
}

#[derive(Debug, Clone, Copy, PartialEq, Eq, Structural)]
pub enum PerfReadout {
    Status,
    Hud,
    Off,
}

/// Which overlay the shell composes. The prototype draws these states, so the
/// shell must be able to render each for capture.
#[derive(Debug, Clone, Copy, PartialEq, Eq, Structural)]
pub enum Overlay {
    /// No overlay is open.
    Closed,
    Completion,
    Palette,
    RunConfig,
}

/// The rail's panels, named as the prototype names them.
#[derive(Debug, Clone, Copy, PartialEq, Eq, Structural)]
pub enum RailTab {
    Project,
    Structure,
    Commit,
    Find,
    History,
    Packs,
}

/// `completionStyle` in the prototype, which widens the popup from 430px to
/// 620px so a signature and its documentation fit beside the list.
#[derive(Debug, Clone, Copy, PartialEq, Eq, Default, Structural)]
pub enum CompletionStyle {
    Compact,
    /// What the prototype depicts: the list with its documentation panel.
    #[default]
    Detail,
}

/// The shell's properties. The widths a drag leaves are held beside these by
/// the renderer, which measures in pixels.
#[derive(Debug, Clone, Copy)]
pub struct Props {
    pub density: Density,
    pub tool_side: ToolSide,
    pub perf_readout: PerfReadout,
    pub show_inlay: bool,
    pub remote_banner: bool,
    pub overlay: Overlay,
    pub rail_tab: RailTab,
    pub side_collapsed: bool,
    pub dock_collapsed: bool,
    pub palette_mode: Mode,
    pub palette_query: &'static str,
    pub completion_style: CompletionStyle,
    /// `comp: true` in the prototype's initial state: the popup is part of the
    /// depicted composition, not a state you have to reach.
    pub completion_open: bool,
    /// Which editor tab is in front.
    pub active_tab: usize,
    /// Which dock panel is in front: terminal, debug, problems, resources.
    pub dock_panel: usize,
}

/// The prototype's initial state.
pub open spec fn default_props() -> Props {
    Props {
        density: Density::Default,
        tool_side: ToolSide::Left,
        perf_readout: PerfReadout::Hud,
        show_inlay: true,
        remote_banner: true,
        overlay: Overlay::Closed,
        rail_tab: RailTab::Project,
        side_collapsed: false,
        dock_collapsed: false,
        palette_mode: Mode::Files,
        palette_query: "",
        completion_style: CompletionStyle::Detail,
        completion_open: true,
        active_tab: 0,
        dock_panel: 0,
    }
}

impl Default for Props {
    fn default() -> (r: Self)
        ensures
            r == default_props(),
    {
        Self {
            density: Density::Default,
            tool_side: ToolSide::Left,
            perf_readout: PerfReadout::Hud,
            show_inlay: true,
            remote_banner: true,
            overlay: Overlay::Closed,
            rail_tab: RailTab::Project,
            side_collapsed: false,
            dock_collapsed: false,
            palette_mode: Mode::Files,
            palette_query: "",
            completion_style: CompletionStyle::Detail,
            completion_open: true,
            active_tab: 0,
            dock_panel: 0,
        }
    }
}

/// The design tokens of every dimension that changes with density.
#[derive(Debug, Clone, Copy, PartialEq, Eq)]
pub struct DensityTokens {
    pub code_line_height: &'static str,
    pub row_height: &'static str,
    pub ui_font_size: &'static str,
    pub code_font_size: &'static str,
    pub tool_window_width: &'static str,
    pub dock_height: &'static str,
}

/// Each density reads its own row of the prototype's density table.
pub open spec fn density_tokens(density: Density) -> DensityTokens {
    match density {
        Density::Compact => DensityTokens {
            code_line_height: token::VK_LINE_COMPACT,
            row_height: token::VK_ROW_COMPACT,
            ui_font_size: token::VK_FS_COMPACT,
            code_font_size: token::VK_CODE_COMPACT,
            tool_window_width: token::VK_TOOL_COMPACT,
            dock_height: token::VK_DOCK_COMPACT,
        },
        Density::Default => DensityTokens {
            code_line_height: token::VK_LINE_DEFAULT,
            row_height: token::VK_ROW_DEFAULT,
            ui_font_size: token::VK_FS_DEFAULT,
            code_font_size: token::VK_CODE_DEFAULT,
            tool_window_width: token::VK_TOOL_DEFAULT,
            dock_height: token::VK_DOCK_DEFAULT,
        },
        Density::Roomy => DensityTokens {
            code_line_height: token::VK_LINE_ROOMY,
            row_height: token::VK_ROW_ROOMY,
            ui_font_size: token::VK_FS_ROOMY,
            code_font_size: token::VK_CODE_ROOMY,
            tool_window_width: token::VK_TOOL_ROOMY,
            dock_height: token::VK_DOCK_ROOMY,
        },
    }
}

impl DensityTokens {
    /// The tokens a density resolves its dimensions from.
    pub fn resolve(density: Density) -> (r: Self)
        ensures
            r == density_tokens(density),
    {
        match density {
            Density::Compact => Self {
                code_line_height: token::VK_LINE_COMPACT,
                row_height: token::VK_ROW_COMPACT,
                ui_font_size: token::VK_FS_COMPACT,
                code_font_size: token::VK_CODE_COMPACT,
                tool_window_width: token::VK_TOOL_COMPACT,
                dock_height: token::VK_DOCK_COMPACT,
            },
            Density::Default => Self {
                code_line_height: token::VK_LINE_DEFAULT,
                row_height: token::VK_ROW_DEFAULT,
                ui_font_size: token::VK_FS_DEFAULT,
                code_font_size: token::VK_CODE_DEFAULT,
                tool_window_width: token::VK_TOOL_DEFAULT,
                dock_height: token::VK_DOCK_DEFAULT,
            },
            Density::Roomy => Self {
                code_line_height: token::VK_LINE_ROOMY,
                row_height: token::VK_ROW_ROOMY,
                ui_font_size: token::VK_FS_ROOMY,
                code_font_size: token::VK_CODE_ROOMY,
                tool_window_width: token::VK_TOOL_ROOMY,
                dock_height: token::VK_DOCK_ROOMY,
            },
        }
    }
}


/// The whole number of pixels a pixel length writes.
pub open spec fn pixels(token: Seq<char>) -> nat {
    decimal_value(pixel_number(token).unwrap())
}

proof fn lemma_whole_pixels(token: Seq<char>)
    requires
        2 <= token.len() <= 6,
        token[token.len() - 2] == 'p',
        token[token.len() - 1] == 'x',
        crate::text::is_decimal_digit(token[0]),
    ensures
        pixel_number(token) == Some(token.take(token.len() - 2)),
{
    assert(trimmed(token) == token) by {
        assert(!crate::text::is_white_space(token[0]));
        assert(!crate::text::is_white_space(token[token.len() - 1]));
        reveal_with_fuel(crate::text::trim_start, 2);
        reveal_with_fuel(crate::text::trim_end, 2);
    }
}

/// Every dimension the tests hold to the prototype grows with density: code
/// line height, row height, tool window width and dock height are each larger
/// at default than at compact, and larger at roomy than at default.
pub proof fn law_density_table_grows()
    ensures
        pixels(density_tokens(Density::Compact).code_line_height@) < pixels(
            density_tokens(Density::Default).code_line_height@,
        ) < pixels(density_tokens(Density::Roomy).code_line_height@),
        pixels(density_tokens(Density::Compact).row_height@) < pixels(
            density_tokens(Density::Default).row_height@,
        ) < pixels(density_tokens(Density::Roomy).row_height@),
        pixels(density_tokens(Density::Compact).tool_window_width@) < pixels(
            density_tokens(Density::Default).tool_window_width@,
        ) < pixels(density_tokens(Density::Roomy).tool_window_width@),
        pixels(density_tokens(Density::Compact).dock_height@) < pixels(
            density_tokens(Density::Default).dock_height@,
        ) < pixels(density_tokens(Density::Roomy).dock_height@),
{
    reveal_strlit("19px");
    lemma_whole_pixels(token::VK_LINE_COMPACT@);
    reveal_strlit("21px");
    lemma_whole_pixels(token::VK_LINE_DEFAULT@);
    reveal_strlit("25px");
    lemma_whole_pixels(token::VK_LINE_ROOMY@);
    reveal_strlit("22px");
    lemma_whole_pixels(token::VK_ROW_COMPACT@);
    reveal_strlit("25px");
    lemma_whole_pixels(token::VK_ROW_DEFAULT@);
    reveal_strlit("30px");
    lemma_whole_pixels(token::VK_ROW_ROOMY@);
    reveal_strlit("250px");
    lemma_whole_pixels(token::VK_TOOL_COMPACT@);
    reveal_strlit("276px");
    lemma_whole_pixels(token::VK_TOOL_DEFAULT@);
    reveal_strlit("310px");
    lemma_whole_pixels(token::VK_TOOL_ROOMY@);
    reveal_strlit("206px");
    lemma_whole_pixels(token::VK_DOCK_COMPACT@);
    reveal_strlit("236px");
    lemma_whole_pixels(token::VK_DOCK_DEFAULT@);
    reveal_strlit("268px");
    lemma_whole_pixels(token::VK_DOCK_ROOMY@);
    reveal_with_fuel(decimal_value, 4);
}

/// How loose a density is: compact, then default, then roomy.
pub open spec fn looseness(density: Density) -> nat {
    match density {
        Density::Compact => 0,
        Density::Default => 1,
        Density::Roomy => 2,
    }
}

/// A decimal number with at most one digit after its point, in tenths:
/// `12.5` is 125, `13` is 130.
pub open spec fn tenths(number: Seq<char>) -> nat {
    if number.len() >= 2 && number[number.len() - 2] == '.' {
        decimal_value(number.take(number.len() - 2)) * 10 + decimal_value(
            number.skip(number.len() - 1),
        )
    } else {
        decimal_value(number) * 10
    }
}

/// A pixel length in tenths of a pixel.
pub open spec fn pixel_tenths(token: Seq<char>) -> nat {
    tenths(pixel_number(token).unwrap())
}

/// Text and code are set larger as the density loosens: the interface font
/// and the code font are each larger at default than at compact, and larger
/// at roomy than at default.
pub proof fn law_font_sizes_grow()
    ensures
        pixel_tenths(density_tokens(Density::Compact).ui_font_size@) < pixel_tenths(
            density_tokens(Density::Default).ui_font_size@,
        ) < pixel_tenths(density_tokens(Density::Roomy).ui_font_size@),
        pixels(density_tokens(Density::Compact).code_font_size@) < pixels(
            density_tokens(Density::Default).code_font_size@,
        ) < pixels(density_tokens(Density::Roomy).code_font_size@),
{
    reveal_strlit("12px");
    lemma_whole_pixels(token::VK_FS_COMPACT@);
    reveal_strlit("12.5px");
    lemma_whole_pixels(token::VK_FS_DEFAULT@);
    reveal_strlit("13.5px");
    lemma_whole_pixels(token::VK_FS_ROOMY@);
    reveal_strlit("13px");
    lemma_whole_pixels(token::VK_CODE_DEFAULT@);
    reveal_strlit("14px");
    lemma_whole_pixels(token::VK_CODE_ROOMY@);
    lemma_whole_pixels(token::VK_CODE_COMPACT@);
    assert(token::VK_FS_DEFAULT@.take(4) =~= seq!['1', '2', '.', '5']);
    assert(seq!['1', '2', '.', '5'].take(2) =~= seq!['1', '2']);
    assert(seq!['1', '2', '.', '5'].skip(3) =~= seq!['5']);
    assert(token::VK_FS_ROOMY@.take(4) =~= seq!['1', '3', '.', '5']);
    assert(seq!['1', '3', '.', '5'].take(2) =~= seq!['1', '3']);
    assert(seq!['1', '3', '.', '5'].skip(3) =~= seq!['5']);
    assert(token::VK_FS_COMPACT@.take(2) =~= seq!['1', '2']);
    reveal_with_fuel(decimal_value, 3);
}

/// A looser density reads a larger value for every dimension that changes
/// with density: line and row height, both font sizes, the tool window's
/// width and the dock's height.
pub proof fn law_looser_density_is_larger(tight: Density, loose: Density)
    requires
        looseness(tight) < looseness(loose),
    ensures
        pixels(density_tokens(tight).code_line_height@) < pixels(
            density_tokens(loose).code_line_height@,
        ),
        pixels(density_tokens(tight).row_height@) < pixels(
            density_tokens(loose).row_height@,
        ),
        pixel_tenths(density_tokens(tight).ui_font_size@) < pixel_tenths(
            density_tokens(loose).ui_font_size@,
        ),
        pixels(density_tokens(tight).code_font_size@) < pixels(
            density_tokens(loose).code_font_size@,
        ),
        pixels(density_tokens(tight).tool_window_width@) < pixels(
            density_tokens(loose).tool_window_width@,
        ),
        pixels(density_tokens(tight).dock_height@) < pixels(
            density_tokens(loose).dock_height@,
        ),
{
    law_density_table_grows();
    law_font_sizes_grow();
}

} // verus!
