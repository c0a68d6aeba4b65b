//! Hit-circle sprite compositor: tints a base circle without touching its
//! silhouette, reconciles the pixel density of the assets and stacks circle,
//! digit glyph and overlay ring into one flattened image per digit.

pub mod pixel;
pub mod raster;
pub mod buffer;
pub mod blend;
pub mod resample;
pub mod layer;
pub mod compose;
pub mod laws;
pub mod names;
pub mod config;
pub mod palette;
