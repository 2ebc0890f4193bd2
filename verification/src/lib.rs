//! Verified core of a terminal fractal explorer: command parsing and
//! dispatch, application state, palettes, canvas interaction and layout.

pub mod text;
pub mod colors;
pub mod click_modes;
pub mod selectable;
pub mod state;
pub mod commands;
pub mod input;
pub mod layout;
pub mod canvas;
pub mod log_panel;
pub mod footer;
pub mod jobs;
pub mod laws;
pub mod markup;
pub mod loading;
pub mod state_file;
