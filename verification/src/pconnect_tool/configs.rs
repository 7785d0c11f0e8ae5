pub mod pconnect_cfg;
