use vstd::prelude::*;

pub mod loading;
pub mod text;
pub mod repl;
pub mod editor;
pub mod input;
pub mod properties;
pub mod console;
pub mod gleam;
pub mod undo;
pub mod project;
pub mod camera;
pub mod batch;
pub mod stats;
pub mod signal;
pub mod spawn;
pub mod tree;

verus! {
} // verus!
