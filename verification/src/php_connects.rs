//! The first generation of the tool: its project configuration
//! (`php_connects.cfg.toml`), its command line, the local domain of a
//! project, and its managers of PHP, MySQL, the frontend, new projects and
//! the development shell.
pub mod configs;
pub mod general_commands;
pub mod hosts;
pub mod managers;
