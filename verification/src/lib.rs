pub mod text;
pub mod order;
pub mod pattern;
pub mod php;
pub mod source;
pub mod artisan;
pub mod completion;
pub mod laravel_indexer;
pub mod laravel_scanner;
pub mod lsp;
pub mod extension;
pub mod laws;
