use vstd::prelude::*;
use crate::address::Address;
use crate::error::ErrorCodes;
use crate::state::competition::Competition;
use crate::state::player::Player;
use crate::state::player_profile::PlayerProfile;
use crate::state::token_account::{can_transfer, transfer, TokenAccount};

verus! {

/// The address of the asset in which competitions are denominated,
/// `Es9vMFrzaCERmJfrF4H2FYD4KCoNkY11McCe8BenwNYB`.
pub open spec fn spec_expected_usdt_mint() -> Address {
    Address {
        bytes: [
            206u8, 1, 14, 96, 175, 237, 178, 39, 23, 189, 99, 25, 47, 84, 20, 90,
            63, 150, 90, 51, 187, 130, 210, 199, 2, 158, 178, 206, 30, 32, 130, 100,
        ],
    }
}

/// The address of the asset in which competitions are denominated.
#[verifier::when_used_as_spec(spec_expected_usdt_mint)]
pub fn expected_usdt_mint() -> (mint: Address)
    ensures
        mint == spec_expected_usdt_mint(),
{
    Address {
        bytes: [
            206u8, 1, 14, 96, 175, 237, 178, 39, 23, 189, 99, 25, 47, 84, 20, 90,
            63, 150, 90, 51, 187, 130, 210, 199, 2, 158, 178, 206, 30, 32, 130, 100,
        ],
    }
}

/// The accounts of a registration: the competition, the caller, the asset,
/// the caller's holding, the competition's escrow, the registration to
/// fill with its bump seed, and the caller's profile.
#[derive(Clone, Copy, Debug, PartialEq, Eq)]
pub struct RegisterPlayer {
    pub competition: Competition,
    pub player: Address,
    pub usdt_mint: Address,
    pub player_ata: TokenAccount,
    pub competition_ata: TokenAccount,
    pub player_account: Player,
    pub player_account_bump: u8,
    pub player_profile: PlayerProfile,
}

/// Whether a registration is refused, and why. The first reason that
/// applies is given: no free slot; the caller takes part in a competition
/// already; a holding that is not the caller's or is the escrow itself;
/// another asset than the expected one; too little to pay the entry fee.
pub open spec fn register_refusal(ctx: RegisterPlayer) -> Option<ErrorCodes> {
    if ctx.competition.current_players >= ctx.competition.max_players {
        Some(ErrorCodes::CompetitionFull)
    } else if ctx.player_profile.participating_in_other_competition
        || ctx.competition.roster().contains(ctx.player) {
        Some(ErrorCodes::AlreadyParticipant)
    } else if ctx.player_ata.owner != ctx.player || ctx.player_ata.key == ctx.competition_ata.key {
        Some(ErrorCodes::InvalidATA)
    } else if ctx.usdt_mint != expected_usdt_mint() || ctx.player_ata.mint != ctx.usdt_mint
        || ctx.competition_ata.mint != ctx.usdt_mint {
        Some(ErrorCodes::IncorrectMint)
    } else if !can_transfer(
        ctx.player_ata.amount,
        ctx.competition_ata.amount,
        ctx.competition.entry_fee,
    ) {
        Some(ErrorCodes::TransferFailed)
    } else {
        None
    }
}

/// The accounts after a registration that is not refused: the entry fee
/// has moved from the caller's holding to the escrow, the registration is
/// filled, the caller has the next free slot of the roster, and the
/// profile is flagged. Everything else stays.
pub open spec fn registered(
    pre: RegisterPlayer,
    competition_id: u32,
    current_usdt_balance: u64,
) -> RegisterPlayer {
    RegisterPlayer {
        competition: Competition {
            current_players: (pre.competition.current_players + 1) as u8,
            participants: vstd::array::spec_array_update(
                pre.competition.participants,
                pre.competition.current_players as int,
                pre.player,
            ),
            ..pre.competition
        },
        player_ata: TokenAccount {
            amount: (pre.player_ata.amount - pre.competition.entry_fee) as u64,
            ..pre.player_ata
        },
        competition_ata: TokenAccount {
            amount: (pre.competition_ata.amount + pre.competition.entry_fee) as u64,
            ..pre.competition_ata
        },
        player_account: Player {
            competition_id: competition_id,
            player: pre.player,
            base_balance: pre.competition.base_amount,
            current_balance: current_usdt_balance,
            bump: pre.player_account_bump,
            ..pre.player_account
        },
        player_profile: PlayerProfile {
            participating_in_other_competition: true,
            ..pre.player_profile
        },
        ..pre
    }
}

/// A registration appends the caller to the roster and keeps the record
/// well-formed.
pub proof fn lemma_registered_roster(pre: RegisterPlayer, competition_id: u32, current_usdt_balance: u64)
    requires
        pre.competition.wf(),
        register_refusal(pre) is None,
    ensures
        registered(pre, competition_id, current_usdt_balance).competition.roster()
            == pre.competition.roster().push(pre.player),
        registered(pre, competition_id, current_usdt_balance).competition.wf(),
{
    let after = registered(pre, competition_id, current_usdt_balance).competition;
    assert(after.roster() =~= pre.competition.roster().push(pre.player));
    assert(forall|i: int| after.current_players <= i < 25 ==> after.participants[i] == pre.competition.participants[i]);
}

/// Registers the caller into the competition. It is refused as
/// `register_refusal` says, and then nothing changes. Otherwise the caller
/// pays the entry fee into the escrow and takes the next free slot, as
/// `registered` says.
pub fn register_player_handler(
    ctx: &mut RegisterPlayer,
    competition_id: u32,
    current_usdt_balance: u64,
) -> (result: Result<(), ErrorCodes>)
    requires
        old(ctx).competition.wf(),
    ensures
        match register_refusal(*old(ctx)) {
            Some(reason) => result == Err::<(), ErrorCodes>(reason) && *final(ctx) == *old(ctx),
            None => result is Ok && *final(ctx) == registered(
                *old(ctx),
                competition_id,
                current_usdt_balance,
            ),
        },
        final(ctx).competition.wf(),
{
    if ctx.competition.current_players >= ctx.competition.max_players {
        return Err(ErrorCodes::CompetitionFull);
    }
    if ctx.player_profile.participating_in_other_competition {
        return Err(ErrorCodes::AlreadyParticipant);
    }
    if ctx.competition.is_participant(&ctx.player) {
        return Err(ErrorCodes::AlreadyParticipant);
    }
    if ctx.player_ata.owner != ctx.player || ctx.player_ata.key == ctx.competition_ata.key {
        return Err(ErrorCodes::InvalidATA);
    }
    let expected = expected_usdt_mint();
    if ctx.usdt_mint != expected || ctx.player_ata.mint != ctx.usdt_mint
        || ctx.competition_ata.mint != ctx.usdt_mint {
        return Err(ErrorCodes::IncorrectMint);
    }
    let (debited, credited) = match transfer(
        ctx.player_ata.amount,
        ctx.competition_ata.amount,
        ctx.competition.entry_fee,
    ) {
        Ok(moved) => moved,
        Err(reason) => {
            return Err(reason);
        },
    };
    ctx.player_ata.amount = debited;
    ctx.competition_ata.amount = credited;

    ctx.player_account.competition_id = competition_id;
    ctx.player_account.player = ctx.player;
    ctx.player_account.base_balance = ctx.competition.base_amount;
    ctx.player_account.current_balance = current_usdt_balance;
    ctx.player_account.bump = ctx.player_account_bump;

    ctx.player_profile.participating_in_other_competition = true;

    let slot: usize = ctx.competition.current_players as usize;
    ctx.competition.participants[slot] = ctx.player;
    ctx.competition.current_players += 1;
    proof {
        let after = registered(*old(ctx), competition_id, current_usdt_balance);
        assert(ctx.competition.participants =~= after.competition.participants);
        lemma_registered_roster(*old(ctx), competition_id, current_usdt_balance);
    }
    Ok(())
}

} // verus!
