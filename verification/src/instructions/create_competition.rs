use vstd::prelude::*;
use crate::address::Address;
use crate::error::ErrorCodes;
use crate::state::competition::{Competition, CompetitionCategory};

verus! {

/// The accounts of a creation: the caller, who becomes the authority, the
/// record to fill, and the bump seed of the record's address.
#[derive(Clone, Copy, Debug, PartialEq, Eq)]
pub struct CreateCompetition {
    pub authority: Address,
    pub competition: Competition,
    pub bump: u8,
}

/// The record of a competition that has just been created: no
/// participants, no winner, the prize unpaid, the capacity that of the
/// category.
pub open spec fn new_competition(
    authority: Address,
    bump: u8,
    id: u32,
    entry_fee: u64,
    base_amount: u64,
    start_time: i64,
    winning_amount: u64,
    end_time: i64,
    category: CompetitionCategory,
) -> Competition {
    Competition {
        authority: authority,
        id: id,
        max_players: category.spec_max_players(),
        current_players: 0,
        entry_fee: entry_fee,
        base_amount: base_amount,
        start_time: start_time,
        end_time: end_time,
        winning_amount: winning_amount,
        category: category,
        winner: Address::spec_unset(),
        payout_claimed: false,
        bump: bump,
        participants: vstd::array::spec_array_fill_for_copy_type::<Address, 25>(
            Address::spec_unset(),
        ),
    }
}

/// Fills the record of a new competition: no participants, no winner, the
/// prize unpaid, the capacity that of the category, the caller as
/// authority. No funds move.
pub fn create_competition_handler(
    ctx: &mut CreateCompetition,
    id: u32,
    entry_fee: u64,
    base_amount: u64,
    start_time: i64,
    winning_amount: u64,
    end_time: i64,
    category: CompetitionCategory,
) -> (result: Result<(), ErrorCodes>)
    requires
        start_time < end_time,
    ensures
        result is Ok,
        final(ctx).authority == old(ctx).authority,
        final(ctx).bump == old(ctx).bump,
        final(ctx).competition == new_competition(
            old(ctx).authority,
            old(ctx).bump,
            id,
            entry_fee,
            base_amount,
            start_time,
            winning_amount,
            end_time,
            category,
        ),
        final(ctx).competition.wf(),
{
    let nobody = Address::unset();
    ctx.competition.authority = ctx.authority;
    ctx.competition.id = id;
    ctx.competition.entry_fee = entry_fee;
    ctx.competition.base_amount = base_amount;
    ctx.competition.start_time = start_time;
    ctx.competition.end_time = end_time;
    ctx.competition.category = category;
    ctx.competition.winner = nobody;
    ctx.competition.winning_amount = winning_amount;
    ctx.competition.payout_claimed = false;
    ctx.competition.current_players = 0;
    ctx.competition.max_players = category.max_players();
    ctx.competition.bump = ctx.bump;
    ctx.competition.participants = [nobody; 25];
    Ok(())
}

} // verus!
