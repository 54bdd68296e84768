//! The Web platform objects and the `structuredClone` entry points.

pub mod clone_course;
pub mod handler_table;
pub mod image_data;
pub mod registered;
pub mod registry;
pub mod structured_clone;
pub mod tag;
