//! Values that functions and the host hold for each other under numbers.
pub mod future;
pub mod resource;
pub mod serialize;
