//! Terminal-style user interfaces on Wayland layer-shell surfaces: the cell
//! grids, pixel buffers, colours, input events and redraw state that the
//! renderers and windows are built on.
pub mod colors;
pub mod utils;
pub mod grid;
pub mod cpu_buffer;
pub mod events;
pub mod surface;
pub mod config;
pub mod background;
