//! Integer models of the geometry and parameter schedules behind a set of
//! animated 2D sketches: canvas rectangles and their recursive subdivision,
//! regular-polygon phase fractions, a recursive circle layout, blend-mode
//! selection from a pointer position, and the vertex schedule of a sine-wave
//! strip. Every quantity a sketch derives by arithmetic on indices, counts
//! and canvas coordinates is computed here and proved exact; rendering sits
//! outside, on top of these values.

pub mod blend;
pub mod circles;
pub mod fractions;
pub mod geometry;
pub mod wave;
