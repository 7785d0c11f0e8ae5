//! The current generation of the tool: the global configuration kept beside
//! the executable, the project configuration, and the managers of the
//! downloads, of PostgreSQL and of the frontend server.
pub mod configs;
pub mod managers;
