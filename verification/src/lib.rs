//! Lifecycle and escrow settlement of fee-funded trading competitions.
//!
//! Participants sign up, register into a competition by paying its entry fee
//! into the competition's escrow, the competition's authority later pays the
//! prize to a winner out of that escrow, and closing the competition sweeps
//! what is left to the treasury. Every transition either applies as a whole
//! or leaves all records as they were.

pub mod address;
pub mod error;
pub mod instructions;
pub mod laws;
pub mod ledger;
pub mod pda;
pub mod state;
pub mod trading_competition;

pub use address::Address;
pub use error::ErrorCodes;
pub use instructions::{
    close_competition_handler, create_competition_handler, determine_winner_handler, pay_winner,
    register_player_handler, signup_player_handler, CloseCompetition, CreateCompetition,
    DetermineWinner, RegisterPlayer, Signup,
};
pub use ledger::{CompetitionAccount, Ledger, LedgerView};
pub use pda::derive_competition_ata;
pub use state::{Competition, CompetitionCategory, Player, PlayerProfile, TokenAccount, MAX_PARTICIPANTS};
pub use trading_competition::{
    close_competition, create_competition, determine_winner, enroll_player, open_competition,
    register_player, settle_winner, signup_player,
};
