//! The frame around the workspaces: status line, tabs, footer and help.

pub mod footer;
pub mod help;
pub mod laws;
pub mod status;
pub mod view;
