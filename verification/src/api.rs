//! The backend-independent contract of a fuse, and the lazy value that is
//! built on nothing else.

pub mod lazy;
pub mod raw;
