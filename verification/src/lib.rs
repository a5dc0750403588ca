//! Verified core of `odx`, a command-line tool for Odoo development projects.
pub mod cli;
pub mod commands;
pub mod config;
pub mod debug;
pub mod install_guide;
pub mod odoo_source;
pub mod order;
pub mod os_context;
pub mod paths;
pub mod pattern;
pub mod text;
pub mod tui;
pub mod ui;
pub mod utils;
