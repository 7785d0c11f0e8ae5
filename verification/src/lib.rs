pub mod text;
pub mod effects;
pub mod archive;
pub mod locate;
pub mod pid_stop;
pub mod install_jobs;
pub mod pconnect_tool;
pub mod php_connects;
pub mod pconnect_install;
