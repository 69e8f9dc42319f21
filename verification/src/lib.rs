//! Display-mode TeX inclusion: the stages that turn the argument of an
//! `include_display_mode_tex` invocation into the text that the expansion
//! carries.

pub mod args;
pub mod expansion;
pub mod path;
pub mod tex;
