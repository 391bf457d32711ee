pub mod competition;
pub mod player;
pub mod player_profile;
pub mod token_account;

pub use competition::{Competition, CompetitionCategory, MAX_PARTICIPANTS};
pub use player::Player;
pub use player_profile::PlayerProfile;
pub use token_account::TokenAccount;
