//! The two configuration files of the tool: the global one, kept beside the
//! executable (`pconnect_global.cfg.toml`), and the one at the root of each
//! project (`pconnect.cfg.toml`).
use vstd::prelude::*;

verus! {

/// The global configuration.
#[derive(Clone, Debug)]
pub struct GlobalConfig {
    pub versions: Versions,
    pub installations: Installations,
}

/// The versions of the programs that the tool installs and uses.
#[derive(Clone, Debug)]
pub struct Versions {
    pub bun_version: String,
    pub php_version: String,
    pub postgresql_version: String,
}

/// Which programs the tool installs itself (instead of using those of the system).
#[derive(Clone, Debug)]
pub struct Installations {
    pub bun_install: bool,
    pub vue_install: bool,
    pub laravel_install: bool,
    pub php_install: bool,
    pub postgresql_install: bool,
}

/// The configuration of one project.
#[derive(Clone, Debug)]
pub struct ProjectConfig {
    pub ports: Ports,
    pub paths: Paths,
    pub postgresql: PostgreSQL,
}

/// The ports on which the project's services listen.
#[derive(Clone, Debug)]
pub struct Ports {
    pub php_port: u16,
    pub laravel_port: u16,
    pub postgresql_port: u16,
    pub vue_port: u16,
}

/// Where the project's backend and frontend live.
#[derive(Clone, Debug)]
pub struct Paths {
    pub backend_dir: String,
    pub frontend_dir: String,
}

/// The project's PostgreSQL database and credentials.
#[derive(Clone, Debug)]
pub struct PostgreSQL {
    pub db: String,
    pub host: String,
    pub user: String,
    pub pass: String,
}

} // verus!
