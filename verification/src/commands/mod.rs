//! The `odx` subcommands: what each one decides and runs.
pub mod clean;
pub mod db;
pub mod doctor;
pub mod i18n;
pub mod install;
pub mod new;
pub mod run;
pub mod setup;
pub mod shell;
pub mod store;
pub mod sync;
pub mod test;
pub mod update;
pub mod update_module;
