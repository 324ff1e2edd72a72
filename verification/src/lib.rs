//! Tiny Data Viewer: the messages that a client sends through a server to a user interface
//! in the browser, and what each side decides.
//!
//! - `tdv_msg`: the messages, data frames and grid layouts;
//! - `tdv_ui`: the user interface's model, its plots and its grid layouts;
//! - `tdv_server`, `tdv_client`: what the server and the client decide and compute;
//! - `wdview_msg`, `ui`, `server`: the messages and model of the first user interface,
//!   and what its server echoes;
//! - `store`, `columns`, `text`: frames kept by name, column lookup, decimal text.

pub mod columns;
pub mod store;
pub mod text;

pub mod tdv_client;
pub mod tdv_msg;
pub mod tdv_server;
pub mod tdv_ui;

pub mod server;
pub mod ui;
pub mod wdview_msg;
