pub mod connection;
pub mod message;
pub mod pipeline;
pub mod server;
pub mod target;
pub mod tunnel;
