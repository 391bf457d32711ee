pub mod close_competition;
pub mod create_competition;
pub mod determine_winner;
pub mod register_player;
pub mod signup_player;

pub use close_competition::{close_competition_handler, CloseCompetition};
pub use create_competition::{create_competition_handler, CreateCompetition};
pub use determine_winner::{determine_winner_handler, pay_winner, DetermineWinner};
pub use register_player::{register_player_handler, RegisterPlayer};
pub use signup_player::{signup_player_handler, Signup};
