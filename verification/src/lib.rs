//! Reading a concert calendar: the summary, category and description of each
//! calendar event become a `LiveConcert` with a price, a format, a platform,
//! a start time and the links found in the description.

pub mod text;
pub mod models;
pub mod outside;
pub mod calendar_parser;
pub mod schedule;
pub mod laws;
