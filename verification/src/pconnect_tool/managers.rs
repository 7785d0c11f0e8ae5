pub mod bun_manager;
pub mod download_manager;
pub mod postgresql_manager;
