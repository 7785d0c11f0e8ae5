pub mod bun_manager;
pub mod create_project_manager;
pub mod download_manager;
pub mod mysql_manager;
pub mod php_manager;
pub mod run_manager;
pub mod shell_manager;
