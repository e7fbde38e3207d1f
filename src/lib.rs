pub mod vm;
pub mod store;
pub mod handlers;
