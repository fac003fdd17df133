pub mod client;
pub mod io;
pub mod server;
pub mod stream;
