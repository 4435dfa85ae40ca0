//! The authorization-gated state machine behind a reputation and tipping
//! platform on a distributed ledger: a singleton configuration record and
//! per-user records, mutated only by six transitions — config and user
//! initialization, admin-only root commitment and karma synchronization,
//! two kinds of tip, and one-time milestone minting. Every transition
//! re-derives the address of each account it touches, enforces its
//! authorization predicate, uses checked arithmetic, and either lands
//! completely or changes nothing.

pub mod constants;
pub mod errors;
pub mod events;
pub mod instructions;
pub mod laws;
pub mod pda;
pub mod pubkey;
pub mod state;

pub use instructions::initialize_config::handler as initialize_config;
pub use instructions::initialize_user::handler as initialize_user;
pub use instructions::mint_milestone_nft::handler as mint_milestone_nft;
pub use instructions::submit_merkle_root::handler as submit_merkle_root;
pub use instructions::tip_user_sol::handler as tip_user_sol;
pub use instructions::tip_user_spl::handler as tip_user_spl;
pub use instructions::update_user_karma::handler as update_user_karma;

pub use instructions::initialize_config::InitializeConfig;
pub use instructions::initialize_user::InitializeUser;
pub use instructions::mint_milestone_nft::MintMilestoneNft;
pub use instructions::submit_merkle_root::SubmitMerkleRoot;
pub use instructions::tip_user_sol::TipUserSol;
pub use instructions::tip_user_spl::TipUserSpl;
pub use instructions::update_user_karma::UpdateUserKarma;

pub use state::global_config::GlobalConfig;
pub use state::user_account::UserAccount;

