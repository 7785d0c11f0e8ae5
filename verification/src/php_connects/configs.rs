pub mod pconnect_cmd;
pub mod php_connects_cfg;
