//! Switching between mod bundles of one installed game: the persisted
//! configuration, the bundle model and the swap procedure, stated over plain
//! values so that every rule is proved.

pub mod actions;
pub mod change_configuration_path;
pub mod configs;
pub mod create_new_mod_folder;
pub mod functions;
pub mod hotline_mod;
pub mod manager;
pub mod replace_mod;
pub mod run_game;
pub mod select_mod;
pub mod text;
