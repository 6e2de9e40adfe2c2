//! Small verified building blocks: decimal text, fallible conversions,
//! display-style formatting, a fizzbuzz classifier and grid rectangles.

pub mod conversion;
pub mod decimal;
pub mod display;
pub mod flow;
pub mod functions;
pub mod geometry;
pub mod list;
pub mod roundtrip;
pub mod sink;
pub mod slices;
