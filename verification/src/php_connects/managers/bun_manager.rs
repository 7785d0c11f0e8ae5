//! The frontend server of the first generation, run by the Bun it installed
//! in `.php-connects`.
use vstd::prelude::*;
use crate::effects::{Edition, PathSpec, Service};
use crate::pid_stop::{stop_initial, ServiceStop, StopStyle};
use crate::pconnect_tool::managers::bun_manager::{
    bun_pid_file, frontend_run, installed_bun, installed_bun_path, stop_frontend, VueRun, VueRunView, VueStage,
};
use crate::php_connects::configs::php_connects_cfg::Config;

verus! {

/// Where the installed Bun of `version` is, given the home directory.
pub fn get_bun_executable_path(home: &str, version: &str) -> (p: PathSpec)
    ensures
        p@ == installed_bun(Edition::Classic, home@, version@),
{
    installed_bun_path(Edition::Classic, home, version)
}

/// A start of the frontend server before its first step: the configured
/// frontend directory, `vue_port` and Bun version, with the installed Bun.
pub fn run_vue(config: &Config) -> (m: VueRun)
    ensures
        m@ == (VueRunView {
            stage: VueStage::Start,
            edition: Edition::Classic,
            own_bun: true,
            version: config.versions.bun_version@,
            frontend_dir: config.paths.frontend_dir@,
            port: config.ports.vue_port,
            home: seq![],
            pid: 0,
        }),
{
    frontend_run(Edition::Classic, true, &config.versions.bun_version, &config.paths.frontend_dir, config.ports.vue_port)
}

/// A stop of the frontend server.
pub fn stop_vue() -> (m: ServiceStop)
    ensures
        m@ == stop_initial(Service::Frontend, bun_pid_file(Edition::Classic), StopStyle::Quiet),
{
    stop_frontend(Edition::Classic)
}

} // verus!
