//! The pen: the colours, the font size and the font that draw calls pick up.

use vstd::prelude::*;
use crate::color::Color;
use crate::font::Font;

verus! {

/// The font size at the start of every frame.
pub const DEFAULT_FONT_SIZE: u32 = 16;

/// The settings that a draw call captures at the moment it is issued.
///
/// All of them but `active_font` return to their defaults at the start of
/// every frame. The font does not: it stays selected until another is.
#[derive(Clone, Copy, Debug, PartialEq, Eq)]
pub struct RenderParameterState {
    pub fill_color: Color,
    pub outline_color: Color,
    pub line_color: Color,
    pub font_color: Color,
    pub font_size: u32,
    /// The font that text is drawn in; `None` stands for the default font.
    pub active_font: Option<Font>,
}

impl RenderParameterState {
    /// Black fill, lines and text, no outline, size 16, the default font.
    pub open spec fn spec_default() -> RenderParameterState {
        RenderParameterState {
            fill_color: Color::BLACK(),
            outline_color: Color::TRANSPARENT(),
            line_color: Color::BLACK(),
            font_color: Color::BLACK(),
            font_size: DEFAULT_FONT_SIZE,
            active_font: None,
        }
    }

    /// The settings at the start of the next frame: the defaults, with the
    /// font that is selected now.
    pub open spec fn spec_frame_start(self) -> RenderParameterState {
        RenderParameterState { active_font: self.active_font, ..Self::spec_default() }
    }

    /// The settings at the start of the next frame: the defaults, with the
    /// font that is selected now.
    #[verifier::when_used_as_spec(spec_frame_start)]
    pub fn frame_start(self) -> (next: RenderParameterState)
        ensures
            next == self.spec_frame_start(),
    {
        RenderParameterState {
            fill_color: Color::BLACK(),
            outline_color: Color::TRANSPARENT(),
            line_color: Color::BLACK(),
            font_color: Color::BLACK(),
            font_size: DEFAULT_FONT_SIZE,
            active_font: self.active_font,
        }
    }
}

impl Default for RenderParameterState {
    fn default() -> (state: RenderParameterState)
        ensures
            state == RenderParameterState::spec_default(),
    {
        RenderParameterState {
            fill_color: Color::BLACK(),
            outline_color: Color::TRANSPARENT(),
            line_color: Color::BLACK(),
            font_color: Color::BLACK(),
            font_size: DEFAULT_FONT_SIZE,
            active_font: None,
        }
    }
}

} // verus!
