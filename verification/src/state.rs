pub mod global_config;
pub mod user_account;
