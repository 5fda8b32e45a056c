pub mod bridge;
pub mod client;
pub mod dataconnection;
pub mod iceserver;
pub mod peerid;
pub mod receive;
pub mod send;
pub mod settings;
pub mod utils;
