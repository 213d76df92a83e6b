//! A virtual filesystem for templated configuration files: the settings,
//! the mapping store's rules, the command line's steps and what it prints.
pub mod text;
pub mod error;
pub mod config;
pub mod storage;
pub mod listing;
pub mod command;
pub mod tree;
pub mod filesystem;
pub mod render;
