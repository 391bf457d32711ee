use vstd::prelude::*;

verus! {

/// Why a transition was refused. A refused transition changes nothing.
#[derive(Clone, Copy, Debug, PartialEq, Eq, Structural)]
pub enum ErrorCodes {
    /// The roster has no free slot left.
    TooManyPlayers,
    /// The competition is full.
    CompetitionFull,
    /// The competition has already started.
    CompetitionStarted,
    /// A token account is not the one the transition expects.
    InvalidATA,
    /// A token account is denominated in another asset.
    IncorrectMint,
    /// The participant is already registered in a competition.
    AlreadyParticipant,
    /// The competition has not ended yet.
    CompetitionNotEnded,
    /// The participant's name is longer than 20 characters.
    PlayerNameTooLong,
    /// The participant's email is longer than 50 characters.
    PlayerEmailTooLong,
    /// The participant's date of birth is longer than 10 characters.
    PlayerDobTooLong,
    /// The caller is not the competition's authority.
    IncorrectAuthority,
    /// The competition identifier is in use or was used before.
    DuplicateCompetition,
    /// No open competition has this identifier.
    CompetitionNotFound,
    /// The participant has no profile.
    ProfileNotFound,
    /// No address can be derived for a record.
    NoProgramAddress,
    /// The prize of this competition has been paid already.
    PayoutAlreadyClaimed,
    /// The prize of this competition has not been paid yet.
    PayoutNotClaimed,
    /// The paying account holds too little, or the receiving one too much.
    TransferFailed,
}

impl ErrorCodes {
    /// The message that belongs to the error.
    pub open spec fn spec_message(&self) -> Seq<char> {
        match self {
            ErrorCodes::TooManyPlayers => "Too many players"@,
            ErrorCodes::CompetitionFull => "Competition is full"@,
            ErrorCodes::CompetitionStarted => "Competition has already started"@,
            ErrorCodes::InvalidATA => "Associated Token Account is invalid"@,
            ErrorCodes::IncorrectMint => "Incorrect Mint Address"@,
            ErrorCodes::AlreadyParticipant => "Player already participating in another competition"@,
            ErrorCodes::CompetitionNotEnded => "Competition not ended yet!"@,
            ErrorCodes::PlayerNameTooLong => "Player name is too long. Maximum length is 20 characters."@,
            ErrorCodes::PlayerEmailTooLong => "Player email is too long. Maximum length is 50 characters."@,
            ErrorCodes::PlayerDobTooLong => "Player date of birth is too long. Maximum length is 10 characters."@,
            ErrorCodes::IncorrectAuthority => "Incorrect Authority"@,
            ErrorCodes::DuplicateCompetition => "Competition identifier is already in use"@,
            ErrorCodes::CompetitionNotFound => "No open competition has this identifier"@,
            ErrorCodes::ProfileNotFound => "Player has no profile"@,
            ErrorCodes::NoProgramAddress => "No program address can be derived"@,
            ErrorCodes::PayoutAlreadyClaimed => "Payout has already been claimed"@,
            ErrorCodes::PayoutNotClaimed => "Payout has not been claimed yet"@,
            ErrorCodes::TransferFailed => "Token transfer failed"@,
        }
    }

    /// The message that belongs to the error.
    pub fn message(&self) -> (text: &'static str)
        ensures
            text@ == self.spec_message(),
    {
        match self {
            ErrorCodes::TooManyPlayers => "Too many players",
            ErrorCodes::CompetitionFull => "Competition is full",
            ErrorCodes::CompetitionStarted => "Competition has already started",
            ErrorCodes::InvalidATA => "Associated Token Account is invalid",
            ErrorCodes::IncorrectMint => "Incorrect Mint Address",
            ErrorCodes::AlreadyParticipant => "Player already participating in another competition",
            ErrorCodes::CompetitionNotEnded => "Competition not ended yet!",
            ErrorCodes::PlayerNameTooLong => "Player name is too long. Maximum length is 20 characters.",
            ErrorCodes::PlayerEmailTooLong => "Player email is too long. Maximum length is 50 characters.",
            ErrorCodes::PlayerDobTooLong => "Player date of birth is too long. Maximum length is 10 characters.",
            ErrorCodes::IncorrectAuthority => "Incorrect Authority",
            ErrorCodes::DuplicateCompetition => "Competition identifier is already in use",
            ErrorCodes::CompetitionNotFound => "No open competition has this identifier",
            ErrorCodes::ProfileNotFound => "Player has no profile",
            ErrorCodes::NoProgramAddress => "No program address can be derived",
            ErrorCodes::PayoutAlreadyClaimed => "Payout has already been claimed",
            ErrorCodes::PayoutNotClaimed => "Payout has not been claimed yet",
            ErrorCodes::TransferFailed => "Token transfer failed",
        }
    }
}

} // verus!
