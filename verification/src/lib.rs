//! The application shell's logic: what it draws, read from the prototype's
//! design values, and how it responds to input.

pub mod composition;
pub mod design_tokens;
pub mod fixture;
pub mod fonts;
pub mod gates;
pub mod icons;
pub mod measure;
pub mod palette;
pub mod props;
pub mod rendering;
pub mod shell;
pub mod states;
pub mod text;
pub mod token_output;
pub mod tokens;
