//! The coded attribute families: foreground color, background color and
//! display effect.
pub mod ansi_background;
pub mod ansi_foreground;
pub mod srg_effect;
