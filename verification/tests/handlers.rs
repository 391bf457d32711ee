use std::str::FromStr;

use anchor_lang::prelude::Pubkey;
use trading_competition::address::Address;
use trading_competition::error::ErrorCodes;
use trading_competition::instructions::close_competition::{close_competition_handler, CloseCompetition};
use trading_competition::instructions::create_competition::{create_competition_handler, CreateCompetition};
use trading_competition::instructions::determine_winner::{
    determine_winner_handler, pay_winner, DetermineWinner,
};
use trading_competition::instructions::register_player::{
    expected_usdt_mint, register_player_handler, RegisterPlayer,
};
use trading_competition::instructions::signup_player::{signup_player_handler, Signup};
use trading_competition::pda::{
    derive_competition_address, derive_competition_ata, derive_player_address, program_id,
};
use trading_competition::state::competition::{Competition, CompetitionCategory, MAX_PARTICIPANTS};
use trading_competition::state::player::Player;
use trading_competition::state::player_profile::PlayerProfile;
use trading_competition::state::token_account::{transfer, TokenAccount};

fn who(n: u8) -> Address {
    Address { bytes: [n; 32] }
}

fn holding(key: u8, owner: Address, amount: u64) -> TokenAccount {
    TokenAccount { key: who(key), mint: expected_usdt_mint(), owner, amount }
}

fn small_competition(authority: Address) -> Competition {
    let mut ctx = CreateCompetition {
        authority,
        competition: Competition {
            authority: who(9),
            id: 77,
            max_players: 3,
            current_players: 2,
            entry_fee: 1,
            base_amount: 1,
            start_time: 5,
            end_time: 1,
            winning_amount: 1,
            category: CompetitionCategory::TwelvePlayers,
            winner: who(8),
            payout_claimed: true,
            bump: 0,
            participants: [who(7); 25],
        },
        bump: 254,
    };
    assert_eq!(
        create_competition_handler(&mut ctx, 1, 100, 1000, 10, 500, 20, CompetitionCategory::SixPlayers),
        Ok(())
    );
    ctx.competition
}

fn blank_player() -> Player {
    Player {
        competition_id: 0,
        player: Address::unset(),
        base_balance: 0,
        current_balance: 0,
        bump: 0,
        participating_in_other_competition: false,
    }
}

fn registration(competition: Competition, player: Address, funds: u64) -> RegisterPlayer {
    RegisterPlayer {
        competition,
        player,
        usdt_mint: expected_usdt_mint(),
        player_ata: holding(100, player, funds),
        competition_ata: holding(200, who(201), 0),
        player_account: blank_player(),
        player_account_bump: 253,
        player_profile: PlayerProfile {
            player_wallet_address: player,
            participating_in_other_competition: false,
        },
    }
}

fn payout(competition: Competition, escrow_key: Address, escrow: u64, winner: Address) -> DetermineWinner {
    DetermineWinner {
        competition,
        authority: competition.authority,
        winner_ata: holding(150, winner, 7),
        competition_ata: TokenAccount {
            key: escrow_key,
            mint: expected_usdt_mint(),
            owner: who(201),
            amount: escrow,
        },
        usdt_mint: expected_usdt_mint(),
    }
}

#[test]
fn address_unset_is_all_zero() {
    assert_eq!(Address::unset().bytes, [0u8; 32]);
    assert!(Address::unset().is_unset());
    assert!(!who(1).is_unset());
    let mut last = [0u8; 32];
    last[31] = 1;
    assert!(!Address { bytes: last }.is_unset());
}

#[test]
fn address_equality_is_by_bytes() {
    assert!(who(3) == who(3));
    assert!(who(3) != who(4));
    let mut bytes = [3u8; 32];
    bytes[31] = 4;
    assert!(who(3) != Address { bytes });
    assert_eq!(who(5).to_vec(), vec![5u8; 32]);
}

#[test]
fn expected_mint_is_the_usdt_mint() {
    let mint = Pubkey::from_str("Es9vMFrzaCERmJfrF4H2FYD4KCoNkY11McCe8BenwNYB").unwrap();
    assert_eq!(expected_usdt_mint().bytes, mint.to_bytes());
}

#[test]
fn program_id_is_the_declared_one() {
    let id = Pubkey::from_str("1wSNjNqx37H5y3F9nA3JejzBDw3eCDE6hqpD6fEYg33").unwrap();
    assert_eq!(program_id().bytes, id.to_bytes());
}

#[test]
fn competition_ata_is_the_program_address_of_its_seeds() {
    let authority = who(11);
    let mint = expected_usdt_mint();
    let (expected, _) = Pubkey::find_program_address(
        &[b"token", &authority.bytes, &mint.bytes],
        &anchor_spl::associated_token::ID,
    );
    let derived = derive_competition_ata(authority, mint).unwrap();
    assert_eq!(derived.bytes, expected.to_bytes());
    assert!(derived != authority);
    assert!(derived != mint);
    assert_eq!(derive_competition_ata(authority, mint), Some(derived));
    assert!(derive_competition_ata(who(12), mint).unwrap() != derived);
}

#[test]
fn associated_token_program_has_its_known_address() {
    let id = Pubkey::from_str("ATokenGPvbdGVxr1b2hvZbsiqW5xWH25efTNsLJA8knL").unwrap();
    assert_eq!(anchor_spl::associated_token::ID, id);
    assert_eq!(
        id.to_bytes(),
        [
            140, 151, 37, 143, 78, 36, 137, 241, 187, 61, 16, 41, 20, 142, 13, 131, 11, 90, 19, 153,
            218, 255, 16, 132, 4, 142, 123, 216, 219, 233, 248, 89
        ]
    );
}

#[test]
fn competition_address_is_derived_from_its_identifier() {
    let program = Pubkey::new_from_array(program_id().bytes);
    let (expected, bump) = Pubkey::find_program_address(&[&7u32.to_le_bytes()], &program);
    let (derived, derived_bump) = derive_competition_address(7).unwrap();
    assert_eq!(derived.bytes, expected.to_bytes());
    assert_eq!(derived_bump, bump);
    assert!(derive_competition_address(8).unwrap().0 != derived);
}

#[test]
fn player_address_is_derived_from_competition_and_player() {
    let program = Pubkey::new_from_array(program_id().bytes);
    let competition = who(21);
    let player = who(22);
    let (expected, bump) =
        Pubkey::find_program_address(&[b"player", &competition.bytes, &player.bytes], &program);
    let (derived, derived_bump) = derive_player_address(competition, player).unwrap();
    assert_eq!(derived.bytes, expected.to_bytes());
    assert_eq!(derived_bump, bump);
}

#[test]
fn categories_fix_the_capacity() {
    assert_eq!(CompetitionCategory::SixPlayers.max_players(), 6);
    assert_eq!(CompetitionCategory::TwelvePlayers.max_players(), 12);
    assert_eq!(CompetitionCategory::TwentyFivePlayers.max_players(), 25);
    assert_eq!(MAX_PARTICIPANTS, 25);
}

#[test]
fn transfer_moves_the_amount() {
    assert_eq!(transfer(100, 5, 30), Ok((70, 35)));
    assert_eq!(transfer(30, 0, 30), Ok((0, 30)));
    assert_eq!(transfer(0, 9, 0), Ok((0, 9)));
    assert_eq!(transfer(29, 0, 30), Err(ErrorCodes::TransferFailed));
    assert_eq!(transfer(30, u64::MAX - 29, 30), Err(ErrorCodes::TransferFailed));
    assert_eq!(transfer(30, u64::MAX - 30, 30), Ok((0, u64::MAX)));
}

#[test]
fn created_competition_is_empty_and_unpaid() {
    let authority = who(1);
    let competition = small_competition(authority);
    assert_eq!(
        competition,
        Competition {
            authority,
            id: 1,
            max_players: 6,
            current_players: 0,
            entry_fee: 100,
            base_amount: 1000,
            start_time: 10,
            end_time: 20,
            winning_amount: 500,
            category: CompetitionCategory::SixPlayers,
            winner: Address::unset(),
            payout_claimed: false,
            bump: 254,
            participants: [Address::unset(); 25],
        }
    );
}

#[test]
fn registration_pays_the_fee_and_takes_the_next_slot() {
    let competition = small_competition(who(1));
    let mut first = registration(competition, who(31), 250);
    assert_eq!(register_player_handler(&mut first, 1, 4242), Ok(()));
    assert_eq!(first.player_ata.amount, 150);
    assert_eq!(first.competition_ata.amount, 100);
    assert_eq!(first.competition.current_players, 1);
    assert_eq!(first.competition.participants[0], who(31));
    assert_eq!(first.competition.participants[1], Address::unset());
    assert!(first.player_profile.participating_in_other_competition);
    assert_eq!(
        first.player_account,
        Player {
            competition_id: 1,
            player: who(31),
            base_balance: 1000,
            current_balance: 4242,
            bump: 253,
            participating_in_other_competition: false,
        }
    );
    assert!(first.competition.is_participant(&who(31)));
    assert!(!first.competition.is_participant(&who(32)));

    let mut second = registration(first.competition, who(32), 100);
    second.competition_ata = first.competition_ata;
    assert_eq!(register_player_handler(&mut second, 1, 0), Ok(()));
    assert_eq!(second.player_ata.amount, 0);
    assert_eq!(second.competition_ata.amount, 200);
    assert_eq!(second.competition.current_players, 2);
    assert_eq!(second.competition.participants[0], who(31));
    assert_eq!(second.competition.participants[1], who(32));
    assert_eq!(second.competition.participants[2], Address::unset());
}

#[test]
fn registration_into_a_full_competition_changes_nothing() {
    let mut competition = small_competition(who(1));
    for n in 0..6u8 {
        let mut ctx = registration(competition, who(40 + n), 100);
        assert_eq!(register_player_handler(&mut ctx, 1, 0), Ok(()));
        competition = ctx.competition;
    }
    assert_eq!(competition.current_players, 6);
    let mut late = registration(competition, who(50), 100);
    let before = late;
    assert_eq!(register_player_handler(&mut late, 1, 0), Err(ErrorCodes::CompetitionFull));
    assert_eq!(late, before);
    // A full competition refuses a flagged participant for want of a slot.
    late.player_profile.participating_in_other_competition = true;
    assert_eq!(register_player_handler(&mut late, 1, 0), Err(ErrorCodes::CompetitionFull));
}

#[test]
fn registration_refuses_a_participant_of_another_competition() {
    let competition = small_competition(who(1));
    let mut ctx = registration(competition, who(31), 100);
    ctx.player_profile.participating_in_other_competition = true;
    let before = ctx;
    assert_eq!(register_player_handler(&mut ctx, 1, 0), Err(ErrorCodes::AlreadyParticipant));
    assert_eq!(ctx, before);
}

#[test]
fn registration_refuses_who_is_on_the_roster() {
    let competition = small_competition(who(1));
    let mut ctx = registration(competition, who(31), 300);
    assert_eq!(register_player_handler(&mut ctx, 1, 0), Ok(()));
    let mut again = registration(ctx.competition, who(31), 300);
    let before = again;
    assert_eq!(register_player_handler(&mut again, 1, 0), Err(ErrorCodes::AlreadyParticipant));
    assert_eq!(again, before);
}

#[test]
fn registration_checks_the_holdings() {
    let competition = small_competition(who(1));

    let mut foreign = registration(competition, who(31), 100);
    foreign.player_ata.owner = who(32);
    assert_eq!(register_player_handler(&mut foreign, 1, 0), Err(ErrorCodes::InvalidATA));

    let mut same = registration(competition, who(31), 100);
    same.competition_ata.key = same.player_ata.key;
    assert_eq!(register_player_handler(&mut same, 1, 0), Err(ErrorCodes::InvalidATA));

    let mut other_asset = registration(competition, who(31), 100);
    other_asset.usdt_mint = who(99);
    other_asset.player_ata.mint = who(99);
    other_asset.competition_ata.mint = who(99);
    assert_eq!(register_player_handler(&mut other_asset, 1, 0), Err(ErrorCodes::IncorrectMint));

    let mut mixed = registration(competition, who(31), 100);
    mixed.player_ata.mint = who(99);
    assert_eq!(register_player_handler(&mut mixed, 1, 0), Err(ErrorCodes::IncorrectMint));

    let mut poor = registration(competition, who(31), 99);
    let before = poor;
    assert_eq!(register_player_handler(&mut poor, 1, 0), Err(ErrorCodes::TransferFailed));
    assert_eq!(poor, before);

    let mut brimming = registration(competition, who(31), 100);
    brimming.competition_ata.amount = u64::MAX - 99;
    assert_eq!(register_player_handler(&mut brimming, 1, 0), Err(ErrorCodes::TransferFailed));
}

#[test]
fn payout_moves_the_prize_and_records_the_winner() {
    let authority = who(1);
    let competition = small_competition(authority);
    let escrow_key = derive_competition_ata(authority, expected_usdt_mint()).unwrap();
    let mut ctx = payout(competition, escrow_key, 600, who(33));
    assert_eq!(determine_winner_handler(&mut ctx, 1, who(33), 500, 20), Ok(()));
    assert_eq!(ctx.competition_ata.amount, 100);
    assert_eq!(ctx.winner_ata.amount, 507);
    assert_eq!(ctx.competition.winner, who(33));
    assert!(ctx.competition.payout_claimed);
    assert_eq!(ctx.competition.current_players, 0);

    let before = ctx;
    assert_eq!(
        determine_winner_handler(&mut ctx, 1, who(33), 50, 21),
        Err(ErrorCodes::PayoutAlreadyClaimed)
    );
    assert_eq!(ctx, before);
}

#[test]
fn payout_is_refused_in_the_order_of_its_conditions() {
    let authority = who(1);
    let competition = small_competition(authority);
    let escrow_key = derive_competition_ata(authority, expected_usdt_mint()).unwrap();

    let mut early = payout(competition, escrow_key, 600, who(33));
    early.authority = who(2);
    let before = early;
    assert_eq!(
        determine_winner_handler(&mut early, 1, who(33), 500, 19),
        Err(ErrorCodes::CompetitionNotEnded)
    );
    assert_eq!(early, before);

    let mut stranger = payout(competition, who(77), 600, who(33));
    stranger.authority = who(2);
    assert_eq!(
        determine_winner_handler(&mut stranger, 1, who(33), 500, 20),
        Err(ErrorCodes::IncorrectAuthority)
    );

    let mut elsewhere = payout(competition, who(77), 600, who(33));
    assert_eq!(
        determine_winner_handler(&mut elsewhere, 1, who(33), 500, 20),
        Err(ErrorCodes::InvalidATA)
    );

    let mut not_the_winners = payout(competition, escrow_key, 600, who(34));
    assert_eq!(
        determine_winner_handler(&mut not_the_winners, 1, who(33), 500, 20),
        Err(ErrorCodes::InvalidATA)
    );

    let mut other_asset = payout(competition, escrow_key, 600, who(33));
    other_asset.winner_ata.mint = who(99);
    assert_eq!(
        determine_winner_handler(&mut other_asset, 1, who(33), 500, 20),
        Err(ErrorCodes::IncorrectMint)
    );

    let mut short = payout(competition, escrow_key, 499, who(33));
    let before = short;
    assert_eq!(
        determine_winner_handler(&mut short, 1, who(33), 500, 20),
        Err(ErrorCodes::TransferFailed)
    );
    assert_eq!(short, before);
}

#[test]
fn payout_goes_by_the_address_it_is_given() {
    let competition = small_competition(who(1));
    let mut ctx = payout(competition, who(77), 600, who(33));
    assert_eq!(pay_winner(&mut ctx, who(33), 500, 20, None), Err(ErrorCodes::InvalidATA));
    assert_eq!(pay_winner(&mut ctx, who(33), 500, 20, Some(who(78))), Err(ErrorCodes::InvalidATA));
    assert_eq!(pay_winner(&mut ctx, who(33), 500, 20, Some(who(77))), Ok(()));
    assert_eq!(ctx.competition_ata.amount, 100);
    assert_eq!(ctx.winner_ata.amount, 507);
}

fn closing(competition: Competition, escrow: u64, treasury: u64) -> CloseCompetition {
    CloseCompetition {
        competition,
        competition_ata: holding(200, who(201), escrow),
        master_treasury: who(60),
        master_treasury_ata: holding(61, who(60), treasury),
        usdt_mint: expected_usdt_mint(),
        authority: competition.authority,
    }
}

#[test]
fn closing_sweeps_the_escrow_into_the_treasury() {
    let mut competition = small_competition(who(1));
    competition.payout_claimed = true;
    competition.winner = who(33);
    let mut ctx = closing(competition, 100, 40);
    assert_eq!(close_competition_handler(&mut ctx, 1), Ok(()));
    assert_eq!(ctx.competition_ata.amount, 0);
    assert_eq!(ctx.master_treasury_ata.amount, 140);
    assert_eq!(ctx.competition, competition);

    let mut empty = closing(competition, 0, 40);
    assert_eq!(close_competition_handler(&mut empty, 1), Ok(()));
    assert_eq!(empty.master_treasury_ata.amount, 40);
}

#[test]
fn closing_is_refused_before_the_payout_and_to_strangers() {
    let unpaid = small_competition(who(1));
    let mut ctx = closing(unpaid, 100, 40);
    let before = ctx;
    assert_eq!(close_competition_handler(&mut ctx, 1), Err(ErrorCodes::PayoutNotClaimed));
    assert_eq!(ctx, before);

    let mut no_winner = unpaid;
    no_winner.payout_claimed = true;
    let mut ctx = closing(no_winner, 100, 40);
    assert_eq!(close_competition_handler(&mut ctx, 1), Err(ErrorCodes::PayoutNotClaimed));

    let mut paid = unpaid;
    paid.payout_claimed = true;
    paid.winner = who(33);
    let mut stranger = closing(paid, 100, 40);
    stranger.authority = who(2);
    assert_eq!(close_competition_handler(&mut stranger, 1), Err(ErrorCodes::IncorrectAuthority));

    let mut foreign = closing(paid, 100, 40);
    foreign.master_treasury_ata.owner = who(62);
    assert_eq!(close_competition_handler(&mut foreign, 1), Err(ErrorCodes::InvalidATA));

    let mut other_asset = closing(paid, 100, 40);
    other_asset.master_treasury_ata.mint = who(99);
    assert_eq!(close_competition_handler(&mut other_asset, 1), Err(ErrorCodes::IncorrectMint));

    let mut brimming = closing(paid, 100, u64::MAX - 99);
    let before = brimming;
    assert_eq!(close_competition_handler(&mut brimming, 1), Err(ErrorCodes::TransferFailed));
    assert_eq!(brimming, before);
}

#[test]
fn signup_creates_a_profile_once() {
    let mut ctx = Signup { signer: who(31), player_profile: None };
    assert_eq!(signup_player_handler(&mut ctx, "Ada", "ada@example.org", "1815-12-10"), Ok(()));
    assert_eq!(
        ctx.player_profile,
        Some(PlayerProfile { player_wallet_address: who(31), participating_in_other_competition: false })
    );

    let flagged = PlayerProfile { player_wallet_address: who(31), participating_in_other_competition: true };
    let mut again = Signup { signer: who(31), player_profile: Some(flagged) };
    assert_eq!(signup_player_handler(&mut again, "Ada L.", "", ""), Ok(()));
    assert_eq!(again.player_profile, Some(flagged));
}

#[test]
fn signup_bounds_the_fields() {
    let twenty = "a".repeat(20);
    let fifty = "b".repeat(50);
    let ten = "c".repeat(10);
    let mut ctx = Signup { signer: who(31), player_profile: None };
    assert_eq!(signup_player_handler(&mut ctx, &twenty, &fifty, &ten), Ok(()));

    let mut ctx = Signup { signer: who(31), player_profile: None };
    assert_eq!(
        signup_player_handler(&mut ctx, &"a".repeat(21), &"b".repeat(51), &"c".repeat(11)),
        Err(ErrorCodes::PlayerNameTooLong)
    );
    assert_eq!(ctx.player_profile, None);
    assert_eq!(
        signup_player_handler(&mut ctx, &twenty, &"b".repeat(51), &"c".repeat(11)),
        Err(ErrorCodes::PlayerEmailTooLong)
    );
    assert_eq!(
        signup_player_handler(&mut ctx, &twenty, &fifty, &"c".repeat(11)),
        Err(ErrorCodes::PlayerDobTooLong)
    );
    assert_eq!(ctx.player_profile, None);
    // Twenty characters of two bytes each are twenty characters.
    assert_eq!(signup_player_handler(&mut ctx, &"é".repeat(20), "", ""), Ok(()));
}

#[test]
fn validity_of_a_record() {
    let competition = small_competition(who(1));
    assert!(competition.is_valid());

    let mut ctx = registration(competition, who(31), 100);
    assert_eq!(register_player_handler(&mut ctx, 1, 0), Ok(()));
    let mut ctx = registration(ctx.competition, who(32), 100);
    assert_eq!(register_player_handler(&mut ctx, 1, 0), Ok(()));
    let two = ctx.competition;
    assert!(two.is_valid());

    let mut twice = two;
    twice.participants[1] = who(31);
    assert!(!twice.is_valid());

    let mut stray = two;
    stray.participants[24] = who(33);
    assert!(!stray.is_valid());

    let mut crowded = two;
    crowded.current_players = 7;
    assert!(!crowded.is_valid());

    let mut other_capacity = two;
    other_capacity.max_players = 12;
    assert!(!other_capacity.is_valid());

    let mut backwards = two;
    backwards.end_time = backwards.start_time;
    assert!(!backwards.is_valid());

    let mut early_winner = two;
    early_winner.winner = who(31);
    assert!(!early_winner.is_valid());
    early_winner.payout_claimed = true;
    assert!(early_winner.is_valid());
}

#[test]
fn errors_have_their_messages() {
    assert_eq!(ErrorCodes::TooManyPlayers.message(), "Too many players");
    assert_eq!(ErrorCodes::CompetitionFull.message(), "Competition is full");
    assert_eq!(ErrorCodes::CompetitionStarted.message(), "Competition has already started");
    assert_eq!(ErrorCodes::InvalidATA.message(), "Associated Token Account is invalid");
    assert_eq!(ErrorCodes::IncorrectMint.message(), "Incorrect Mint Address");
    assert_eq!(
        ErrorCodes::AlreadyParticipant.message(),
        "Player already participating in another competition"
    );
    assert_eq!(ErrorCodes::CompetitionNotEnded.message(), "Competition not ended yet!");
    assert_eq!(
        ErrorCodes::PlayerNameTooLong.message(),
        "Player name is too long. Maximum length is 20 characters."
    );
    assert_eq!(
        ErrorCodes::PlayerEmailTooLong.message(),
        "Player email is too long. Maximum length is 50 characters."
    );
    assert_eq!(
        ErrorCodes::PlayerDobTooLong.message(),
        "Player date of birth is too long. Maximum length is 10 characters."
    );
    assert_eq!(ErrorCodes::IncorrectAuthority.message(), "Incorrect Authority");
    assert_eq!(ErrorCodes::TransferFailed.message(), "Token transfer failed");
}
