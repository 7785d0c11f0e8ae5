//! Installing the programs of the first generation.
use vstd::prelude::*;
use crate::effects::Edition;
use crate::install_jobs::{install_with, install_wf, InstallAll, InstallSettings, InstallStage, InstallView, SettingsView};
use crate::php_connects::configs::php_connects_cfg::Config;

verus! {

/// The installation of the first generation, before its first step: PHP,
/// MySQL (initialized) and Bun of the configured versions, into
/// `.php-connects` under the home directory.
pub fn install_all(config: &Config) -> (m: InstallAll)
    ensures
        m@ == (InstallView {
            stage: InstallStage::Start,
            settings: SettingsView {
                edition: Edition::Classic,
                php: Some(config.versions.php_version@),
                postgresql: None,
                mysql: Some(config.versions.mysql_version@),
                bun: Some(config.versions.bun_version@),
            },
            home: seq![],
            current: None,
            pending: seq![],
        }),
        install_wf(m@),
{
    install_with(InstallSettings {
        edition: Edition::Classic,
        php: Some(config.versions.php_version.clone()),
        postgresql: None,
        mysql: Some(config.versions.mysql_version.clone()),
        bun: Some(config.versions.bun_version.clone()),
    })
}

} // verus!
