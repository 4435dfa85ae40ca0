pub mod initialize_config;
pub mod initialize_user;
pub mod mint_milestone_nft;
pub mod submit_merkle_root;
pub mod tip_user_sol;
pub mod tip_user_spl;
pub mod update_user_karma;
