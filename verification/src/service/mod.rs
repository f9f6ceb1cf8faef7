//! The services that the runtime offers to hosted programs.
pub mod resource;
pub mod time;
pub mod device;
pub mod fs;
pub mod dirent;
pub mod counter;
