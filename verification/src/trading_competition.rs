use vstd::prelude::*;
use crate::address::Address;
use crate::error::ErrorCodes;
use crate::instructions::close_competition::{close_competition_handler, CloseCompetition};
use crate::instructions::create_competition::{create_competition_handler, CreateCompetition};
use crate::instructions::determine_winner::{pay_winner, DetermineWinner};
use crate::instructions::register_player::{
    expected_usdt_mint,
    register_player_handler,
    RegisterPlayer,
};
use crate::instructions::signup_player::{signup_player_handler, Signup};
use crate::ledger::{CompetitionAccount, Ledger};
use crate::pda::{derive_competition_address, derive_competition_ata, derive_player_address};
use crate::state::competition::{Competition, CompetitionCategory};
use crate::state::player::Player;
use crate::state::token_account::TokenAccount;

verus! {

/// A record whose fields are still to be filled: zeros, as `blank_record` says.
fn blank_competition() -> (record: Competition)
    ensures
        record == blank_record(),
{
    let nobody = Address::unset();
    Competition {
        authority: nobody,
        id: 0,
        max_players: 0,
        current_players: 0,
        entry_fee: 0,
        base_amount: 0,
        start_time: 0,
        end_time: 0,
        winning_amount: 0,
        category: CompetitionCategory::SixPlayers,
        winner: nobody,
        payout_claimed: false,
        bump: 0,
        participants: [nobody; 25],
    }
}

/// The record before a creation fills it.
pub open spec fn blank_record() -> Competition {
    Competition {
        authority: Address::spec_unset(),
        id: 0,
        max_players: 0,
        current_players: 0,
        entry_fee: 0,
        base_amount: 0,
        start_time: 0,
        end_time: 0,
        winning_amount: 0,
        category: CompetitionCategory::SixPlayers,
        winner: Address::spec_unset(),
        payout_claimed: false,
        bump: 0,
        participants: vstd::array::spec_array_fill_for_copy_type::<Address, 25>(
            Address::spec_unset(),
        ),
    }
}

/// Signs the caller up: creates the caller's profile if there is none.
/// The outcome is that of `LedgerView::signup_player`; a refused signup
/// changes nothing.
pub fn signup_player(ledger: &mut Ledger, signer: Address, name: &str, email: &str, date_of_birth: &str) -> (result:
    Result<(), ErrorCodes>)
    requires
        old(ledger)@.wf(),
    ensures
        match old(ledger)@.signup_player(signer, name@, email@, date_of_birth@) {
            Ok(next) => result is Ok && final(ledger)@ == next,
            Err(reason) => result == Err::<(), ErrorCodes>(reason) && final(ledger)@ == old(ledger)@,
        },
        final(ledger)@.wf(),
{
    let found = ledger.find_profile(&signer);
    let existing = match found {
        Some(slot) => Some(ledger.profiles[slot]),
        None => None,
    };
    let mut ctx = Signup { signer, player_profile: existing };
    match signup_player_handler(&mut ctx, name, email, date_of_birth) {
        Ok(()) => {},
        Err(reason) => {
            return Err(reason);
        },
    }
    if found.is_none() {
        match ctx.player_profile {
            Some(profile) => {
                ledger.profiles.push(profile);
            },
            None => {},
        }
    }
    Ok(())
}

/// Creates the competition `id` with the caller as its authority, at the
/// addresses that belong to the identifier and to the authority. The
/// outcome is that of `LedgerView::create_competition`; a refused
/// creation changes nothing. No funds move.
pub fn create_competition(
    ledger: &mut Ledger,
    authority: Address,
    id: u32,
    entry_fee: u64,
    base_amount: u64,
    start_time: i64,
    winning_amount: u64,
    end_time: i64,
    category: CompetitionCategory,
) -> (result: Result<(), ErrorCodes>)
    requires
        old(ledger)@.wf(),
        start_time < end_time,
    ensures
        match old(ledger)@.create_competition(
            authority,
            id,
            entry_fee,
            base_amount,
            start_time,
            winning_amount,
            end_time,
            category,
        ) {
            Ok(next) => result is Ok && final(ledger)@ == next,
            Err(reason) => result == Err::<(), ErrorCodes>(reason) && final(ledger)@ == old(ledger)@,
        },
        final(ledger)@.wf(),
{
    let record = derive_competition_address(id);
    let escrow = derive_competition_ata(authority, expected_usdt_mint());
    open_competition(
        ledger,
        authority,
        id,
        entry_fee,
        base_amount,
        start_time,
        winning_amount,
        end_time,
        category,
        record,
        escrow,
    )
}

/// Creates the competition `id` with the caller as its authority, given
/// the address and bump seed that were derived for its record and the
/// address that was derived for its escrow. The outcome is that of
/// `LedgerView::open_competition`; a refused creation changes nothing.
pub fn open_competition(
    ledger: &mut Ledger,
    authority: Address,
    id: u32,
    entry_fee: u64,
    base_amount: u64,
    start_time: i64,
    winning_amount: u64,
    end_time: i64,
    category: CompetitionCategory,
    record: Option<(Address, u8)>,
    escrow: Option<Address>,
) -> (result: Result<(), ErrorCodes>)
    requires
        old(ledger)@.wf(),
        start_time < end_time,
    ensures
        match old(ledger)@.open_competition(
            authority,
            id,
            entry_fee,
            base_amount,
            start_time,
            winning_amount,
            end_time,
            category,
            record,
            escrow,
        ) {
            Ok(next) => result is Ok && final(ledger)@ == next,
            Err(reason) => result == Err::<(), ErrorCodes>(reason) && final(ledger)@ == old(ledger)@,
        },
        final(ledger)@.wf(),
{
    if ledger.find_competition(id).is_some() {
        return Err(ErrorCodes::DuplicateCompetition);
    }
    let (key, bump) = match record {
        Some(found) => found,
        None => {
            return Err(ErrorCodes::NoProgramAddress);
        },
    };
    let escrow_key = match escrow {
        Some(found) => found,
        None => {
            return Err(ErrorCodes::NoProgramAddress);
        },
    };
    let mut ctx = CreateCompetition { authority, competition: blank_competition(), bump };
    match create_competition_handler(
        &mut ctx,
        id,
        entry_fee,
        base_amount,
        start_time,
        winning_amount,
        end_time,
        category,
    ) {
        Ok(()) => {},
        Err(reason) => {
            return Err(reason);
        },
    }
    ledger.competitions.push(
        CompetitionAccount {
            key,
            competition: ctx.competition,
            escrow: TokenAccount {
                key: escrow_key,
                mint: expected_usdt_mint(),
                owner: key,
                amount: 0,
            },
            closed: false,
        },
    );
    Ok(())
}

/// Registers the caller into the competition `competition_id`, paying the
/// entry fee from `player_ata` into the escrow. The outcome is that of
/// `LedgerView::register_player`; a refused registration changes neither
/// the ledger nor the caller's holding.
pub fn register_player(
    ledger: &mut Ledger,
    player: Address,
    usdt_mint: Address,
    player_ata: &mut TokenAccount,
    competition_id: u32,
    current_usdt_balance: u64,
) -> (result: Result<(), ErrorCodes>)
    requires
        old(ledger)@.wf(),
    ensures
        match old(ledger)@.register_player(
            player,
            usdt_mint,
            *old(player_ata),
            competition_id,
            current_usdt_balance,
        ) {
            Ok(next) => result is Ok && final(ledger)@ == next.0 && *final(player_ata) == next.1,
            Err(reason) => result == Err::<(), ErrorCodes>(reason) && final(ledger)@ == old(ledger)@
                && *final(player_ata) == *old(player_ata),
        },
        final(ledger)@.wf(),
{
    let registration = match ledger.find_open_competition(competition_id) {
        Some(slot) => derive_player_address(ledger.competitions[slot].key, player),
        None => None,
    };
    enroll_player(
        ledger,
        player,
        usdt_mint,
        player_ata,
        competition_id,
        current_usdt_balance,
        registration,
    )
}

/// Registers the caller into the competition `competition_id`, given the
/// address and bump seed that were derived for the registration. The
/// outcome is that of `LedgerView::enroll_player`; a refused registration
/// changes neither the ledger nor the caller's holding.
pub fn enroll_player(
    ledger: &mut Ledger,
    player: Address,
    usdt_mint: Address,
    player_ata: &mut TokenAccount,
    competition_id: u32,
    current_usdt_balance: u64,
    registration: Option<(Address, u8)>,
) -> (result: Result<(), ErrorCodes>)
    requires
        old(ledger)@.wf(),
    ensures
        match old(ledger)@.enroll_player(
            player,
            usdt_mint,
            *old(player_ata),
            competition_id,
            current_usdt_balance,
            registration,
        ) {
            Ok(next) => result is Ok && final(ledger)@ == next.0 && *final(player_ata) == next.1,
            Err(reason) => result == Err::<(), ErrorCodes>(reason) && final(ledger)@ == old(ledger)@
                && *final(player_ata) == *old(player_ata),
        },
        final(ledger)@.wf(),
{
    let slot = match ledger.find_open_competition(competition_id) {
        Some(slot) => slot,
        None => {
            return Err(ErrorCodes::CompetitionNotFound);
        },
    };
    let account = ledger.competitions[slot];
    if account.competition.current_players >= account.competition.max_players {
        return Err(ErrorCodes::CompetitionFull);
    }
    let profile_slot = match ledger.find_profile(&player) {
        Some(slot) => slot,
        None => {
            return Err(ErrorCodes::ProfileNotFound);
        },
    };
    if ledger.profiles[profile_slot].participating_in_other_competition {
        return Err(ErrorCodes::AlreadyParticipant);
    }
    let bump = match registration {
        Some(found) => found.1,
        None => {
            return Err(ErrorCodes::NoProgramAddress);
        },
    };
    let mut ctx = RegisterPlayer {
        competition: account.competition,
        player,
        usdt_mint,
        player_ata: *player_ata,
        competition_ata: account.escrow,
        player_account: Player {
            competition_id: 0,
            player: Address::unset(),
            base_balance: 0,
            current_balance: 0,
            bump: 0,
            participating_in_other_competition: false,
        },
        player_account_bump: bump,
        player_profile: ledger.profiles[profile_slot],
    };
    match register_player_handler(&mut ctx, competition_id, current_usdt_balance) {
        Ok(()) => {},
        Err(reason) => {
            return Err(reason);
        },
    }
    ledger.competitions.set(
        slot,
        CompetitionAccount {
            key: account.key,
            competition: ctx.competition,
            escrow: ctx.competition_ata,
            closed: account.closed,
        },
    );
    ledger.profiles.set(profile_slot, ctx.player_profile);
    ledger.players.push(ctx.player_account);
    *player_ata = ctx.player_ata;
    Ok(())
}

/// Declares the winner of the competition `competition_id` and pays the
/// prize from its escrow into `winner_ata`. The outcome is that of
/// `LedgerView::determine_winner`; a refused payout changes neither the
/// ledger nor the winner's holding.
pub fn determine_winner(
    ledger: &mut Ledger,
    authority: Address,
    usdt_mint: Address,
    winner_ata: &mut TokenAccount,
    competition_id: u32,
    winner_key: Address,
    winning_amount: u64,
    current_time: i64,
) -> (result: Result<(), ErrorCodes>)
    requires
        old(ledger)@.wf(),
    ensures
        match old(ledger)@.determine_winner(
            authority,
            usdt_mint,
            *old(winner_ata),
            competition_id,
            winner_key,
            winning_amount,
            current_time,
        ) {
            Ok(next) => result is Ok && final(ledger)@ == next.0 && *final(winner_ata) == next.1,
            Err(reason) => result == Err::<(), ErrorCodes>(reason) && final(ledger)@ == old(ledger)@
                && *final(winner_ata) == *old(winner_ata),
        },
        final(ledger)@.wf(),
{
    let expected_competition_ata = match ledger.find_open_competition(competition_id) {
        Some(slot) => derive_competition_ata(ledger.competitions[slot].competition.authority, usdt_mint),
        None => None,
    };
    settle_winner(
        ledger,
        authority,
        usdt_mint,
        winner_ata,
        competition_id,
        winner_key,
        winning_amount,
        current_time,
        expected_competition_ata,
    )
}

/// Declares the winner of the competition `competition_id` and pays the
/// prize from its escrow into `winner_ata`, given the escrow address that
/// was derived for the competition. The outcome is that of
/// `LedgerView::settle_winner`; a refused payout changes neither the
/// ledger nor the winner's holding.
pub fn settle_winner(
    ledger: &mut Ledger,
    authority: Address,
    usdt_mint: Address,
    winner_ata: &mut TokenAccount,
    competition_id: u32,
    winner_key: Address,
    winning_amount: u64,
    current_time: i64,
    expected_competition_ata: Option<Address>,
) -> (result: Result<(), ErrorCodes>)
    requires
        old(ledger)@.wf(),
    ensures
        match old(ledger)@.settle_winner(
            authority,
            usdt_mint,
            *old(winner_ata),
            competition_id,
            winner_key,
            winning_amount,
            current_time,
            expected_competition_ata,
        ) {
            Ok(next) => result is Ok && final(ledger)@ == next.0 && *final(winner_ata) == next.1,
            Err(reason) => result == Err::<(), ErrorCodes>(reason) && final(ledger)@ == old(ledger)@
                && *final(winner_ata) == *old(winner_ata),
        },
        final(ledger)@.wf(),
{
    let slot = match ledger.find_open_competition(competition_id) {
        Some(slot) => slot,
        None => {
            return Err(ErrorCodes::CompetitionNotFound);
        },
    };
    let account = ledger.competitions[slot];
    let mut ctx = DetermineWinner {
        competition: account.competition,
        authority,
        winner_ata: *winner_ata,
        competition_ata: account.escrow,
        usdt_mint,
    };
    match pay_winner(&mut ctx, winner_key, winning_amount, current_time, expected_competition_ata) {
        Ok(()) => {},
        Err(reason) => {
            return Err(reason);
        },
    }
    ledger.competitions.set(
        slot,
        CompetitionAccount {
            key: account.key,
            competition: ctx.competition,
            escrow: ctx.competition_ata,
            closed: account.closed,
        },
    );
    *winner_ata = ctx.winner_ata;
    Ok(())
}

/// Closes the competition `competition_id`: sweeps what is left in its
/// escrow to the treasury and reclaims the record, whose identifier stays
/// in use. The outcome is that of `LedgerView::close_competition`; a
/// refused closing changes nothing.
pub fn close_competition(ledger: &mut Ledger, authority: Address, usdt_mint: Address, competition_id: u32) -> (result:
    Result<(), ErrorCodes>)
    requires
        old(ledger)@.wf(),
    ensures
        match old(ledger)@.close_competition(authority, usdt_mint, competition_id) {
            Ok(next) => result is Ok && final(ledger)@ == next,
            Err(reason) => result == Err::<(), ErrorCodes>(reason) && final(ledger)@ == old(ledger)@,
        },
        final(ledger)@.wf(),
{
    let slot = match ledger.find_open_competition(competition_id) {
        Some(slot) => slot,
        None => {
            return Err(ErrorCodes::CompetitionNotFound);
        },
    };
    let account = ledger.competitions[slot];
    let mut ctx = CloseCompetition {
        competition: account.competition,
        competition_ata: account.escrow,
        master_treasury: ledger.master_treasury,
        master_treasury_ata: ledger.master_treasury_ata,
        usdt_mint,
        authority,
    };
    match close_competition_handler(&mut ctx, competition_id) {
        Ok(()) => {},
        Err(reason) => {
            return Err(reason);
        },
    }
    ledger.competitions.set(
        slot,
        CompetitionAccount {
            key: account.key,
            competition: account.competition,
            escrow: ctx.competition_ata,
            closed: true,
        },
    );
    ledger.master_treasury_ata = ctx.master_treasury_ata;
    Ok(())
}

} // verus!
