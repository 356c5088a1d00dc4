//! Page-fit geometry for packing raster images into a paginated document,
//! one image per page: unit conversion from pixels at a resolution into
//! page units, orientation selection, uniform scaling that preserves the
//! aspect ratio, and centering on the page.
//!
//! All lengths are exact rational numbers, so the fit and centering
//! guarantees hold exactly rather than up to rounding.

pub mod geometry;
pub mod plan;
pub mod rat;

pub use geometry::Orientation;
pub use geometry::Position;
pub use geometry::ScaleCalculator;
pub use plan::ImageParameter;
pub use plan::LayoutError;
pub use plan::pixels_to_page_units;
pub use rat::Rat;
pub use rat::RatV;
