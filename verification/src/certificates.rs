pub mod ca;
pub mod cache;
