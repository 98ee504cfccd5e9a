//! Editing core for a single "skyset" configuration document: color
//! normalization, the field registry, the editor state machine and the
//! reconciliation of the in-memory document with its stored form.

pub mod cli;
pub mod color;
pub mod controller;
pub mod editor;
pub mod io;
pub mod model;
pub mod output;
pub mod text;
