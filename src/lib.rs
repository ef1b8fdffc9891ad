//! Input interpretation and numeric entry for a touchscreen digital readout.
pub mod color;
pub mod consts;
pub mod display;
pub mod ft6206;
pub mod render;
pub mod ui;
pub mod view;
