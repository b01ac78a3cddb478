pub mod app;
pub mod channel;
pub mod server;
pub mod kirc;
