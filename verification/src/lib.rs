//! Shape annotation engine for a screenshot editor.
//!
//! The library models the in-memory shape store with undo/redo history, the
//! pointer-driven interaction state machine, the zoom view state and the
//! geometry kernel (bounds, hit-testing, corner resize) over exact integer
//! canvas coordinates. Rasterisation and window-system glue live outside the
//! library and consume the plain data this crate produces.

pub mod geom;
pub mod shapes;
pub mod store;
pub mod tools;
pub mod zoom;
pub mod png;
pub mod canvas;
pub mod capture;
pub mod config;
pub mod render;
