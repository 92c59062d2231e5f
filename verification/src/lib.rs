//! The runtime core of an interactive viewer for vector scenes.

pub mod config;
pub mod context;
pub mod driver;
pub mod fixed;
pub mod geometry;
pub mod icon;
pub mod input;
pub mod keys;
pub mod producer;
pub mod scroll;
pub mod transform;
pub mod util;
pub mod viewport;
