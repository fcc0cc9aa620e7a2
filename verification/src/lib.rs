//! A verified core for a lightweight desktop application runtime: the app
//! manifest and its permission model, the sandboxed file scope, the IPC
//! command registry and bridge, keyboard event translation, the permission
//! audit and the code generators of the command-line tool.
pub mod text;
pub mod strset;
pub mod path;
pub mod scope;
pub mod fs;
pub mod toml_doc;
pub mod manifest;
pub mod permissions;
pub mod audit;
pub mod keyboard;
pub mod ipc;
pub mod bindgen;
pub mod command_attr;
pub mod network;
pub mod api;
pub mod context;
pub mod builder;
pub mod lifecycle;
pub mod project;
