use vstd::prelude::*;
use crate::address::Address;
use crate::error::ErrorCodes;
use crate::instructions::close_competition::{close_refusal, swept, CloseCompetition};
use crate::instructions::determine_winner::{paid_out, payout_refusal, DetermineWinner};
use crate::instructions::register_player::{
    expected_usdt_mint,
    lemma_registered_roster,
    register_refusal,
    registered,
    RegisterPlayer,
};
use crate::ledger::LedgerView;
use crate::pda::player_address;
use crate::state::competition::CompetitionCategory;
use crate::state::token_account::{can_transfer, TokenAccount};

verus! {

/// In a well-formed ledger every competition holds at most as many
/// participants as its category allows, never more than 25, and no
/// identity stands twice on its roster.
pub proof fn law_roster_bounded_and_distinct(ledger: LedgerView, slot: int)
    requires
        ledger.wf(),
        0 <= slot < ledger.competitions.len(),
    ensures
        0 <= ledger.competitions[slot].competition.current_players
            <= ledger.competitions[slot].competition.max_players <= 25,
        ledger.competitions[slot].competition.roster().len()
            == ledger.competitions[slot].competition.current_players,
        ledger.competitions[slot].competition.roster().no_duplicates(),
{
}

/// A signup keeps the ledger well-formed.
pub proof fn law_signup_keeps_invariant(
    ledger: LedgerView,
    signer: Address,
    name: Seq<char>,
    email: Seq<char>,
    date_of_birth: Seq<char>,
)
    requires
        ledger.wf(),
    ensures
        ledger.signup_player(signer, name, email, date_of_birth) matches Ok(next) ==> next.wf(),
{
}

/// A creation keeps the ledger well-formed, whatever addresses were
/// derived for the record and its escrow.
pub proof fn law_create_keeps_invariant(
    ledger: LedgerView,
    authority: Address,
    id: u32,
    entry_fee: u64,
    base_amount: u64,
    start_time: i64,
    winning_amount: u64,
    end_time: i64,
    category: CompetitionCategory,
    record: Option<(Address, u8)>,
    escrow: Option<Address>,
)
    requires
        ledger.wf(),
        start_time < end_time,
    ensures
        ledger.open_competition(
            authority,
            id,
            entry_fee,
            base_amount,
            start_time,
            winning_amount,
            end_time,
            category,
            record,
            escrow,
        ) matches Ok(next) ==> next.wf(),
{
}

/// A registration keeps the ledger well-formed, and puts the caller at
/// the end of the roster.
pub proof fn law_register_keeps_invariant(
    ledger: LedgerView,
    player: Address,
    usdt_mint: Address,
    player_ata: TokenAccount,
    id: u32,
    current_usdt_balance: u64,
)
    requires
        ledger.wf(),
    ensures
        ledger.register_player(player, usdt_mint, player_ata, id, current_usdt_balance) matches Ok(
            next,
        ) ==> next.0.wf() && next.0.competitions[ledger.slot_of(id)].competition.roster()
            == ledger.competitions[ledger.slot_of(id)].competition.roster().push(player),
{
    if ledger.register_player(player, usdt_mint, player_ata, id, current_usdt_balance) is Ok {
        let bump = player_address(ledger.competitions[ledger.slot_of(id)].key@, player@).unwrap().1;
        lemma_registered_roster(
            ledger.register_accounts(player, usdt_mint, player_ata, id, bump),
            id,
            current_usdt_balance,
        );
    }
}

/// A payout keeps the ledger well-formed.
pub proof fn law_payout_keeps_invariant(
    ledger: LedgerView,
    authority: Address,
    usdt_mint: Address,
    winner_ata: TokenAccount,
    id: u32,
    winner: Address,
    winning_amount: u64,
    current_time: i64,
)
    requires
        ledger.wf(),
    ensures
        ledger.determine_winner(
            authority,
            usdt_mint,
            winner_ata,
            id,
            winner,
            winning_amount,
            current_time,
        ) matches Ok(next) ==> next.0.wf(),
{
}

/// A closing keeps the ledger well-formed.
pub proof fn law_close_keeps_invariant(ledger: LedgerView, authority: Address, usdt_mint: Address, id: u32)
    requires
        ledger.wf(),
    ensures
        ledger.close_competition(authority, usdt_mint, id) matches Ok(next) ==> next.wf(),
{
}

/// Whoever registers into an open competition that is full is refused
/// with `CompetitionFull`.
pub proof fn law_full_competition_refuses(
    ledger: LedgerView,
    player: Address,
    usdt_mint: Address,
    player_ata: TokenAccount,
    id: u32,
    current_usdt_balance: u64,
)
    requires
        ledger.is_open(id),
        ledger.competitions[ledger.slot_of(id)].competition.current_players
            >= ledger.competitions[ledger.slot_of(id)].competition.max_players,
    ensures
        ledger.register_player(player, usdt_mint, player_ata, id, current_usdt_balance) == Err::<
            (LedgerView, TokenAccount),
            ErrorCodes,
        >(ErrorCodes::CompetitionFull),
{
}

/// A participant whose profile is flagged is refused with
/// `AlreadyParticipant` by every open competition that has a free slot.
pub proof fn law_flagged_profile_refused(
    ledger: LedgerView,
    player: Address,
    usdt_mint: Address,
    player_ata: TokenAccount,
    id: u32,
    current_usdt_balance: u64,
)
    requires
        ledger.is_open(id),
        ledger.competitions[ledger.slot_of(id)].competition.current_players
            < ledger.competitions[ledger.slot_of(id)].competition.max_players,
        ledger.has_profile(player),
        ledger.profiles[ledger.profile_slot(player)].participating_in_other_competition,
    ensures
        ledger.register_player(player, usdt_mint, player_ata, id, current_usdt_balance) == Err::<
            (LedgerView, TokenAccount),
            ErrorCodes,
        >(ErrorCodes::AlreadyParticipant),
{
}

/// A successful registration flags the caller's profile, so that the
/// caller's next registration, into whichever competition, is refused.
pub proof fn law_registration_excludes_another(
    ledger: LedgerView,
    player: Address,
    usdt_mint: Address,
    player_ata: TokenAccount,
    id: u32,
    current_usdt_balance: u64,
    next_mint: Address,
    next_ata: TokenAccount,
    next_id: u32,
    next_balance: u64,
)
    requires
        ledger.wf(),
        ledger.register_player(player, usdt_mint, player_ata, id, current_usdt_balance) is Ok,
    ensures
        ledger.register_player(
            player,
            usdt_mint,
            player_ata,
            id,
            current_usdt_balance,
        ).unwrap().0.register_player(player, next_mint, next_ata, next_id, next_balance) is Err,
{
    let next = ledger.register_player(player, usdt_mint, player_ata, id, current_usdt_balance).unwrap().0;
    let slot = ledger.profile_slot(player);
    law_register_keeps_invariant(ledger, player, usdt_mint, player_ata, id, current_usdt_balance);
    assert(next.profiles[slot].player_wallet_address == player);
    assert(next.has_profile(player));
    let chosen = next.profile_slot(player);
    assert(next.profiles[chosen].player_wallet_address == player);
    assert(chosen == slot);
}

/// A payout before the end of the competition is refused with
/// `CompetitionNotEnded`.
pub proof fn law_payout_waits_for_end(
    ledger: LedgerView,
    authority: Address,
    usdt_mint: Address,
    winner_ata: TokenAccount,
    id: u32,
    winner: Address,
    winning_amount: u64,
    current_time: i64,
)
    requires
        ledger.is_open(id),
        current_time < ledger.competitions[ledger.slot_of(id)].competition.end_time,
    ensures
        ledger.determine_winner(
            authority,
            usdt_mint,
            winner_ata,
            id,
            winner,
            winning_amount,
            current_time,
        ) == Err::<(LedgerView, TokenAccount), ErrorCodes>(ErrorCodes::CompetitionNotEnded),
{
}

/// A payout that another identity than the authority asks for is always
/// refused; once the competition has ended, with `IncorrectAuthority`.
pub proof fn law_payout_needs_authority(
    ledger: LedgerView,
    caller: Address,
    usdt_mint: Address,
    winner_ata: TokenAccount,
    id: u32,
    winner: Address,
    winning_amount: u64,
    current_time: i64,
)
    requires
        ledger.is_open(id),
        caller != ledger.competitions[ledger.slot_of(id)].competition.authority,
    ensures
        ledger.determine_winner(
            caller,
            usdt_mint,
            winner_ata,
            id,
            winner,
            winning_amount,
            current_time,
        ) is Err,
        current_time >= ledger.competitions[ledger.slot_of(id)].competition.end_time
            ==> ledger.determine_winner(
            caller,
            usdt_mint,
            winner_ata,
            id,
            winner,
            winning_amount,
            current_time,
        ) == Err::<(LedgerView, TokenAccount), ErrorCodes>(ErrorCodes::IncorrectAuthority),
{
}

/// A payout in the expected asset is owed to the authority once the
/// competition has ended, if the escrow stands at the address that was
/// derived for it, the prize is unpaid, the receiving holding is the
/// winner's own in that asset, and the escrow holds the prize.
pub proof fn law_payout_owed(
    ledger: LedgerView,
    usdt_mint: Address,
    winner_ata: TokenAccount,
    id: u32,
    winner: Address,
    winning_amount: u64,
    current_time: i64,
)
    requires
        ledger.wf(),
        ledger.is_open(id),
        usdt_mint == expected_usdt_mint(),
        current_time >= ledger.competitions[ledger.slot_of(id)].competition.end_time,
        !ledger.competitions[ledger.slot_of(id)].competition.payout_claimed,
        winner_ata.owner == winner,
        winner_ata.mint == usdt_mint,
        winner_ata.key != ledger.competitions[ledger.slot_of(id)].escrow.key,
        can_transfer(
            ledger.competitions[ledger.slot_of(id)].escrow.amount,
            winner_ata.amount,
            winning_amount,
        ),
    ensures
        ledger.settle_winner(
            ledger.competitions[ledger.slot_of(id)].competition.authority,
            usdt_mint,
            winner_ata,
            id,
            winner,
            winning_amount,
            current_time,
            Some(ledger.competitions[ledger.slot_of(id)].escrow.key),
        ) is Ok,
{
    let account = ledger.competitions[ledger.slot_of(id)];
    assert(account.wf());
}

/// A successful registration moves exactly the entry fee from the
/// caller's holding into the escrow of the competition.
pub proof fn law_registration_moves_exactly_the_fee(
    ledger: LedgerView,
    player: Address,
    usdt_mint: Address,
    player_ata: TokenAccount,
    id: u32,
    current_usdt_balance: u64,
)
    requires
        ledger.register_player(player, usdt_mint, player_ata, id, current_usdt_balance) is Ok,
    ensures
        ({
            let next = ledger.register_player(
                player,
                usdt_mint,
                player_ata,
                id,
                current_usdt_balance,
            ).unwrap();
            let slot = ledger.slot_of(id);
            let fee = ledger.competitions[slot].competition.entry_fee;
            &&& next.1.amount == player_ata.amount - fee
            &&& next.0.competitions[slot].escrow.amount == ledger.competitions[slot].escrow.amount + fee
            &&& next.0.profiles[ledger.profile_slot(player)].participating_in_other_competition
            &&& next.0.master_treasury_ata == ledger.master_treasury_ata
        }),
{
}

/// A successful payout takes exactly the prize out of the escrow and puts
/// exactly the prize into the winner's holding, records the winner, and
/// marks the prize as paid. Nothing else in the ledger changes.
pub proof fn law_payout_moves_exactly_the_prize(
    ledger: LedgerView,
    authority: Address,
    usdt_mint: Address,
    winner_ata: TokenAccount,
    id: u32,
    winner: Address,
    winning_amount: u64,
    current_time: i64,
)
    requires
        ledger.determine_winner(
            authority,
            usdt_mint,
            winner_ata,
            id,
            winner,
            winning_amount,
            current_time,
        ) is Ok,
    ensures
        ({
            let next = ledger.determine_winner(
                authority,
                usdt_mint,
                winner_ata,
                id,
                winner,
                winning_amount,
                current_time,
            ).unwrap();
            let slot = ledger.slot_of(id);
            &&& next.0.competitions[slot].escrow.amount == ledger.competitions[slot].escrow.amount
                - winning_amount
            &&& next.1.amount == winner_ata.amount + winning_amount
            &&& next.0.competitions[slot].competition.winner == winner
            &&& next.0.competitions[slot].competition.payout_claimed
            &&& next.0.competitions.len() == ledger.competitions.len()
            &&& forall|other: int|
                0 <= other < ledger.competitions.len() && other != slot
                    ==> next.0.competitions[other] == ledger.competitions[other]
            &&& next.0.profiles == ledger.profiles
            &&& next.0.players == ledger.players
            &&& next.0.master_treasury_ata == ledger.master_treasury_ata
        }),
{
}

/// The prize of a competition is paid once: after a successful payout
/// every further payout of that competition is refused.
pub proof fn law_payout_once(
    ledger: LedgerView,
    authority: Address,
    usdt_mint: Address,
    winner_ata: TokenAccount,
    id: u32,
    winner: Address,
    winning_amount: u64,
    current_time: i64,
    next_caller: Address,
    next_mint: Address,
    next_ata: TokenAccount,
    next_winner: Address,
    next_amount: u64,
    next_time: i64,
)
    requires
        ledger.wf(),
        ledger.determine_winner(
            authority,
            usdt_mint,
            winner_ata,
            id,
            winner,
            winning_amount,
            current_time,
        ) is Ok,
    ensures
        ledger.determine_winner(
            authority,
            usdt_mint,
            winner_ata,
            id,
            winner,
            winning_amount,
            current_time,
        ).unwrap().0.determine_winner(
            next_caller,
            next_mint,
            next_ata,
            id,
            next_winner,
            next_amount,
            next_time,
        ) is Err,
{
    let next = ledger.determine_winner(
        authority,
        usdt_mint,
        winner_ata,
        id,
        winner,
        winning_amount,
        current_time,
    ).unwrap().0;
    lemma_slot_kept(ledger, next, id);
}

/// Where a ledger holds the identifiers of a well-formed ledger at the
/// same places, an identifier is found at the same place in both.
pub proof fn lemma_slot_kept(before: LedgerView, after: LedgerView, id: u32)
    requires
        before.wf(),
        before.has_competition(id),
        after.competitions.len() == before.competitions.len(),
        forall|i: int|
            0 <= i < before.competitions.len() ==> (#[trigger] after.competitions[i]).competition.id
                == before.competitions[i].competition.id,
    ensures
        after.has_competition(id),
        after.slot_of(id) == before.slot_of(id),
{
    let slot = before.slot_of(id);
    let here = after.competitions[slot];
    assert(here.competition.id == id);
    let chosen = after.slot_of(id);
    let there = after.competitions[chosen];
    assert(there.competition.id == id);
    let back = before.competitions[chosen];
    assert(back.competition.id == id);
    assert(chosen == slot);
}

/// A closing before the prize is paid is refused with `PayoutNotClaimed`.
pub proof fn law_close_needs_payout(ledger: LedgerView, authority: Address, usdt_mint: Address, id: u32)
    requires
        ledger.is_open(id),
        !ledger.competitions[ledger.slot_of(id)].competition.payout_claimed,
    ensures
        ledger.close_competition(authority, usdt_mint, id) == Err::<LedgerView, ErrorCodes>(
            ErrorCodes::PayoutNotClaimed,
        ),
{
}

/// A competition is closed once: after a successful closing every further
/// closing of that identifier is refused with `CompetitionNotFound`,
/// whoever asks, and the identifier cannot be used for a new competition.
pub proof fn law_close_once(
    ledger: LedgerView,
    authority: Address,
    usdt_mint: Address,
    id: u32,
    next_caller: Address,
    next_mint: Address,
    entry_fee: u64,
    base_amount: u64,
    start_time: i64,
    winning_amount: u64,
    end_time: i64,
    category: CompetitionCategory,
)
    requires
        ledger.wf(),
        ledger.close_competition(authority, usdt_mint, id) is Ok,
    ensures
        ledger.close_competition(authority, usdt_mint, id).unwrap().close_competition(
            next_caller,
            next_mint,
            id,
        ) == Err::<LedgerView, ErrorCodes>(ErrorCodes::CompetitionNotFound),
        ledger.close_competition(authority, usdt_mint, id).unwrap().create_competition(
            next_caller,
            id,
            entry_fee,
            base_amount,
            start_time,
            winning_amount,
            end_time,
            category,
        ) == Err::<LedgerView, ErrorCodes>(ErrorCodes::DuplicateCompetition),
{
    let next = ledger.close_competition(authority, usdt_mint, id).unwrap();
    lemma_slot_kept(ledger, next, id);
}

/// A closing moves all that the escrow holds into the treasury and
/// leaves the escrow empty.
pub proof fn law_close_sweeps_escrow(ledger: LedgerView, authority: Address, usdt_mint: Address, id: u32)
    requires
        ledger.close_competition(authority, usdt_mint, id) is Ok,
    ensures
        ({
            let next = ledger.close_competition(authority, usdt_mint, id).unwrap();
            let slot = ledger.slot_of(id);
            &&& next.competitions[slot].escrow.amount == 0
            &&& next.master_treasury_ata.amount == ledger.master_treasury_ata.amount
                + ledger.competitions[slot].escrow.amount
            &&& next.competitions[slot].closed
        }),
{
}

/// No transition makes or loses funds: a registration, a payout and a
/// closing each leave the sum of the two holdings that they touch as it
/// was.
pub proof fn law_transfers_conserve(
    registration: RegisterPlayer,
    competition_id: u32,
    current_usdt_balance: u64,
    payout: DetermineWinner,
    winner: Address,
    winning_amount: u64,
    current_time: i64,
    expected_ata: Option<Address>,
    closing: CloseCompetition,
)
    ensures
        register_refusal(registration) is None ==> ({
            let after = registered(registration, competition_id, current_usdt_balance);
            after.player_ata.amount + after.competition_ata.amount == registration.player_ata.amount
                + registration.competition_ata.amount
        }),
        payout_refusal(payout, winner, winning_amount, current_time, expected_ata) is None ==> ({
            let after = paid_out(payout, winner, winning_amount);
            after.winner_ata.amount + after.competition_ata.amount == payout.winner_ata.amount
                + payout.competition_ata.amount
        }),
        close_refusal(closing) is None ==> ({
            let after = swept(closing);
            after.master_treasury_ata.amount + after.competition_ata.amount
                == closing.master_treasury_ata.amount + closing.competition_ata.amount
        }),
{
}

} // verus!
