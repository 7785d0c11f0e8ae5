//! Installing the programs that the global configuration asks for.
use vstd::prelude::*;
use crate::effects::Edition;
use crate::install_jobs::{install_with, install_wf, InstallAll, InstallSettings, InstallStage, InstallView, SettingsView};
use crate::pconnect_tool::configs::pconnect_cfg::GlobalConfig;

verus! {

fn version_if(wanted: bool, v: &String) -> (r: Option<String>)
    ensures
        crate::effects::opt_text_view(r) == (if wanted { Some(v@) } else { None::<Seq<char>> }),
{
    if wanted { Some(v.clone()) } else { None }
}

/// The installation of the current generation, before its first step: into
/// `.pconnect` under the home directory, PHP (configured, with Composer),
/// PostgreSQL (initialized) and Bun (its files moved up), each where the
/// global configuration asks the tool to install it.
pub fn install_all(global: &GlobalConfig) -> (m: InstallAll)
    ensures
        m@ == (InstallView {
            stage: InstallStage::Start,
            settings: SettingsView {
                edition: Edition::Current,
                php: if global.installations.php_install { Some(global.versions.php_version@) } else { None },
                postgresql: if global.installations.postgresql_install {
                    Some(global.versions.postgresql_version@)
                } else {
                    None
                },
                mysql: None,
                bun: if global.installations.bun_install { Some(global.versions.bun_version@) } else { None },
            },
            home: seq![],
            current: None,
            pending: seq![],
        }),
        install_wf(m@),
{
    install_with(InstallSettings {
        edition: Edition::Current,
        php: version_if(global.installations.php_install, &global.versions.php_version),
        postgresql: version_if(global.installations.postgresql_install, &global.versions.postgresql_version),
        mysql: None,
        bun: version_if(global.installations.bun_install, &global.versions.bun_version),
    })
}

} // verus!
