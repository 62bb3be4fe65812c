pub mod indexer;
pub mod scanner;
pub mod server;
