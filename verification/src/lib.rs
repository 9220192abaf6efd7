//! A minimal pixel-raster editing core: a fixed-size grid of colored cells
//! that can be painted cell by cell, with a linear, branch-truncating
//! undo/redo history of immutable canvas snapshots.

pub mod image;
pub mod state;
pub mod undo;
