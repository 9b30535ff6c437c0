//! What runs beside the requests: loading the configuration and pruning
//! the tables.

pub mod load_config;
pub mod prune_database;
