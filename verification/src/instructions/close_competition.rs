use vstd::prelude::*;
use crate::address::Address;
use crate::error::ErrorCodes;
use crate::state::competition::Competition;
use crate::state::token_account::{can_transfer, transfer, TokenAccount};

verus! {

/// The accounts of a closing: the competition, its escrow, the treasury
/// and the treasury's holding, the asset and the caller.
#[derive(Clone, Copy, Debug, PartialEq, Eq)]
pub struct CloseCompetition {
    pub competition: Competition,
    pub competition_ata: TokenAccount,
    pub master_treasury: Address,
    pub master_treasury_ata: TokenAccount,
    pub usdt_mint: Address,
    pub authority: Address,
}

/// Whether a closing is refused, and why. The first reason that applies
/// is given: the prize is unpaid or no winner is recorded; the caller is
/// not the authority; the receiving holding is not the treasury's or is
/// the escrow itself; a holding in another asset; a treasury that cannot
/// take what is left.
pub open spec fn close_refusal(ctx: CloseCompetition) -> Option<ErrorCodes> {
    if !ctx.competition.payout_claimed || ctx.competition.winner.spec_is_unset() {
        Some(ErrorCodes::PayoutNotClaimed)
    } else if ctx.competition.authority != ctx.authority {
        Some(ErrorCodes::IncorrectAuthority)
    } else if ctx.master_treasury_ata.owner != ctx.master_treasury
        || ctx.master_treasury_ata.key == ctx.competition_ata.key {
        Some(ErrorCodes::InvalidATA)
    } else if ctx.master_treasury_ata.mint != ctx.usdt_mint || ctx.competition_ata.mint
        != ctx.usdt_mint {
        Some(ErrorCodes::IncorrectMint)
    } else if !can_transfer(
        ctx.competition_ata.amount,
        ctx.master_treasury_ata.amount,
        ctx.competition_ata.amount,
    ) {
        Some(ErrorCodes::TransferFailed)
    } else {
        None
    }
}

/// The accounts after a closing that is not refused: all that the escrow
/// held is in the treasury's holding and the escrow is empty.
pub open spec fn swept(pre: CloseCompetition) -> CloseCompetition {
    CloseCompetition {
        competition_ata: TokenAccount { amount: 0, ..pre.competition_ata },
        master_treasury_ata: TokenAccount {
            amount: (pre.master_treasury_ata.amount + pre.competition_ata.amount) as u64,
            ..pre.master_treasury_ata
        },
        ..pre
    }
}

/// Closes a competition whose prize has been paid: what is left in the
/// escrow goes to the treasury. It is refused as `close_refusal` says, and
/// then nothing changes. Otherwise the accounts become `swept`.
pub fn close_competition_handler(ctx: &mut CloseCompetition, competition_id: u32) -> (result: Result<
    (),
    ErrorCodes,
>)
    ensures
        match close_refusal(*old(ctx)) {
            Some(reason) => result == Err::<(), ErrorCodes>(reason) && *final(ctx) == *old(ctx),
            None => result is Ok && *final(ctx) == swept(*old(ctx)),
        },
{
    if !ctx.competition.payout_claimed || ctx.competition.winner.is_unset() {
        return Err(ErrorCodes::PayoutNotClaimed);
    }
    if ctx.competition.authority != ctx.authority {
        return Err(ErrorCodes::IncorrectAuthority);
    }
    if ctx.master_treasury_ata.owner != ctx.master_treasury || ctx.master_treasury_ata.key
        == ctx.competition_ata.key {
        return Err(ErrorCodes::InvalidATA);
    }
    if ctx.master_treasury_ata.mint != ctx.usdt_mint || ctx.competition_ata.mint != ctx.usdt_mint {
        return Err(ErrorCodes::IncorrectMint);
    }
    let remaining_usdt_amount = ctx.competition_ata.amount;
    let (debited, credited) = match transfer(
        ctx.competition_ata.amount,
        ctx.master_treasury_ata.amount,
        remaining_usdt_amount,
    ) {
        Ok(moved) => moved,
        Err(reason) => {
            return Err(reason);
        },
    };
    ctx.competition_ata.amount = debited;
    ctx.master_treasury_ata.amount = credited;
    Ok(())
}

} // verus!
