//! Verified core of a terminal Steam-library browser driven by the `aurelia`
//! command-line launcher: the browse model, the text layout helpers and the
//! data model of the launcher's JSON replies.

pub mod text;
pub mod json;
pub mod ui;
pub mod error;
pub mod aurelia;
pub mod config;
pub mod game;
pub mod order;
pub mod browse;
pub mod nav;
pub mod overlays;
pub mod social;
pub mod market;
pub mod workshop;
pub mod tools;
pub mod session;
pub mod artwork;
pub mod keys;
