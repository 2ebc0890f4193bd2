//! The command system: each command and the table that names them.

pub mod command_increment;
pub mod table;
pub mod toggles;
pub mod values;
pub mod selection;
pub mod capture;
pub mod capture_format;
pub mod frac;
pub mod gpu;
pub mod pos;
pub mod history;
pub mod help;
pub mod files;
pub mod dispatch;
