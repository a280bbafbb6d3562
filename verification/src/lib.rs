//! Exact vector algebra on machine integers, and the pixel grid that a
//! renderer fills with colours and hands on as text or as display bytes.

pub mod number;
pub mod vec3;
pub mod canvas;
pub mod ppm;
pub mod rgba;
