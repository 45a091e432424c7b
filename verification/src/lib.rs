//! Core of a slideshow viewer: the image pipeline that turns a decoded picture
//! into a bounded main image and a blurred, darkened backdrop, and the
//! controller that cycles through the pictures while the next one is prepared
//! off the rendering path.
//!
//! Everything here is plain computation on plain values. Decoding files,
//! spawning the background worker and painting are left to the caller, who
//! feeds the controller events and carries out the actions it answers with.

pub mod blur;
pub mod darken;
pub mod fit;
pub mod metadata;
pub mod pipeline;
pub mod raster;
pub mod resample;
pub mod scheduler;
pub mod slideshow;
