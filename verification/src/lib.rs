pub mod format;
pub mod frame;
pub mod geometry;
pub mod narrow;
pub mod nearest;
pub mod pipeline;
pub mod program;
pub mod quotient;
pub mod scalar;
pub mod surface;
pub mod ui;
pub mod uniform;
pub mod window_texture;
