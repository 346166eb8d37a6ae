//! The interaction and geometry core of a node-and-connector diagram editor.

pub mod config;
pub mod connector;
pub mod consistency;
pub mod editor;
pub mod events;
pub mod frame;
pub mod geometry;
pub mod laws;
pub mod model;
pub mod scene;
pub mod text;
