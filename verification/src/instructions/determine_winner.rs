use vstd::prelude::*;
use crate::address::Address;
use crate::error::ErrorCodes;
use crate::pda::{competition_ata, derive_competition_ata};
use crate::state::competition::Competition;
use crate::state::token_account::{can_transfer, transfer, TokenAccount};

verus! {

/// The accounts of a payout: the competition, the caller, the winner's
/// holding, the competition's escrow and the asset.
#[derive(Clone, Copy, Debug, PartialEq, Eq)]
pub struct DetermineWinner {
    pub competition: Competition,
    pub authority: Address,
    pub winner_ata: TokenAccount,
    pub competition_ata: TokenAccount,
    pub usdt_mint: Address,
}

/// Whether a payout is refused, and why, where `expected_ata` is the
/// escrow address that belongs to the competition's authority and the
/// asset. The first reason that applies is given: the competition has not
/// ended; the caller is not its authority; the escrow is not at the
/// expected address, or the winner's holding is not the winner's or is the
/// escrow itself; the prize has been paid before; a holding in another
/// asset; an escrow that holds less than the prize.
pub open spec fn payout_refusal(
    ctx: DetermineWinner,
    winner: Address,
    winning_amount: u64,
    current_time: i64,
    expected_ata: Option<Address>,
) -> Option<ErrorCodes> {
    if current_time < ctx.competition.end_time {
        Some(ErrorCodes::CompetitionNotEnded)
    } else if ctx.competition.authority != ctx.authority {
        Some(ErrorCodes::IncorrectAuthority)
    } else if expected_ata != Some(ctx.competition_ata.key) || ctx.winner_ata.owner != winner
        || ctx.winner_ata.key == ctx.competition_ata.key {
        Some(ErrorCodes::InvalidATA)
    } else if ctx.competition.payout_claimed {
        Some(ErrorCodes::PayoutAlreadyClaimed)
    } else if ctx.winner_ata.mint != ctx.usdt_mint || ctx.competition_ata.mint != ctx.usdt_mint {
        Some(ErrorCodes::IncorrectMint)
    } else if !can_transfer(ctx.competition_ata.amount, ctx.winner_ata.amount, winning_amount) {
        Some(ErrorCodes::TransferFailed)
    } else {
        None
    }
}

/// The accounts after a payout that is not refused: the prize has moved
/// from the escrow to the winner's holding, the winner is recorded and the
/// prize is marked as paid. Everything else stays.
pub open spec fn paid_out(pre: DetermineWinner, winner: Address, winning_amount: u64) -> DetermineWinner {
    DetermineWinner {
        competition: Competition { winner: winner, payout_claimed: true, ..pre.competition },
        winner_ata: TokenAccount {
            amount: (pre.winner_ata.amount + winning_amount) as u64,
            ..pre.winner_ata
        },
        competition_ata: TokenAccount {
            amount: (pre.competition_ata.amount - winning_amount) as u64,
            ..pre.competition_ata
        },
        ..pre
    }
}

/// Pays the prize, given the escrow address that was derived for the
/// competition. It is refused as `payout_refusal` says, and then nothing
/// changes. Otherwise the accounts become `paid_out`: the escrow loses
/// exactly `winning_amount` and the winner's holding gains exactly that.
pub fn pay_winner(
    ctx: &mut DetermineWinner,
    winner_profile_key: Address,
    winning_amount: u64,
    current_time: i64,
    expected_competition_ata: Option<Address>,
) -> (result: Result<(), ErrorCodes>)
    requires
        old(ctx).competition.wf(),
    ensures
        match payout_refusal(
            *old(ctx),
            winner_profile_key,
            winning_amount,
            current_time,
            expected_competition_ata,
        ) {
            Some(reason) => result == Err::<(), ErrorCodes>(reason) && *final(ctx) == *old(ctx),
            None => result is Ok && *final(ctx) == paid_out(
                *old(ctx),
                winner_profile_key,
                winning_amount,
            ),
        },
        final(ctx).competition.wf(),
{
    if current_time < ctx.competition.end_time {
        return Err(ErrorCodes::CompetitionNotEnded);
    }
    if ctx.competition.authority != ctx.authority {
        return Err(ErrorCodes::IncorrectAuthority);
    }
    let at_expected = match expected_competition_ata {
        Some(expected) => expected == ctx.competition_ata.key,
        None => false,
    };
    if !at_expected || ctx.winner_ata.owner != winner_profile_key
        || ctx.winner_ata.key == ctx.competition_ata.key {
        return Err(ErrorCodes::InvalidATA);
    }
    if ctx.competition.payout_claimed {
        return Err(ErrorCodes::PayoutAlreadyClaimed);
    }
    if ctx.winner_ata.mint != ctx.usdt_mint || ctx.competition_ata.mint != ctx.usdt_mint {
        return Err(ErrorCodes::IncorrectMint);
    }
    let (debited, credited) = match transfer(
        ctx.competition_ata.amount,
        ctx.winner_ata.amount,
        winning_amount,
    ) {
        Ok(moved) => moved,
        Err(reason) => {
            return Err(reason);
        },
    };
    ctx.competition.payout_claimed = true;
    ctx.competition.winner = winner_profile_key;
    ctx.competition_ata.amount = debited;
    ctx.winner_ata.amount = credited;
    Ok(())
}

/// Declares the winner of a competition and pays the prize out of its
/// escrow. The escrow address is derived from the competition's authority
/// and the asset; with it the outcome is that of `pay_winner`.
pub fn determine_winner_handler(
    ctx: &mut DetermineWinner,
    competition_id: u32,
    winner_profile_key: Address,
    winning_amount: u64,
    current_time: i64,
) -> (result: Result<(), ErrorCodes>)
    requires
        old(ctx).competition.wf(),
    ensures
        match payout_refusal(
            *old(ctx),
            winner_profile_key,
            winning_amount,
            current_time,
            competition_ata(old(ctx).competition.authority@, old(ctx).usdt_mint@),
        ) {
            Some(reason) => result == Err::<(), ErrorCodes>(reason) && *final(ctx) == *old(ctx),
            None => result is Ok && *final(ctx) == paid_out(
                *old(ctx),
                winner_profile_key,
                winning_amount,
            ),
        },
        final(ctx).competition.wf(),
{
    let expected_competition_ata = derive_competition_ata(ctx.competition.authority, ctx.usdt_mint);
    pay_winner(ctx, winner_profile_key, winning_amount, current_time, expected_competition_ata)
}

} // verus!
