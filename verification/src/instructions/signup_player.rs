use vstd::prelude::*;
use vstd::string::StrSliceExecFns;
use crate::address::Address;
use crate::error::ErrorCodes;
use crate::state::player_profile::PlayerProfile;

verus! {

/// The accounts of a signup: the caller, and the caller's profile where
/// one exists already.
#[derive(Clone, Copy, Debug, PartialEq, Eq)]
pub struct Signup {
    pub signer: Address,
    pub player_profile: Option<PlayerProfile>,
}

/// Whether a signup is refused, and why: a name of more than 20
/// characters, else an email of more than 50, else a date of birth of more
/// than 10.
pub open spec fn signup_refusal(name: Seq<char>, email: Seq<char>, date_of_birth: Seq<char>) -> Option<
    ErrorCodes,
> {
    if name.len() > 20 {
        Some(ErrorCodes::PlayerNameTooLong)
    } else if email.len() > 50 {
        Some(ErrorCodes::PlayerEmailTooLong)
    } else if date_of_birth.len() > 10 {
        Some(ErrorCodes::PlayerDobTooLong)
    } else {
        None
    }
}

/// The profile after a signup that is not refused: the one that was
/// there, or a new one for the caller that takes part in no competition.
pub open spec fn signed_up(pre: Signup) -> PlayerProfile {
    match pre.player_profile {
        Some(existing) => existing,
        None => PlayerProfile {
            player_wallet_address: pre.signer,
            participating_in_other_competition: false,
        },
    }
}

/// Creates the caller's profile if there is none. The descriptive fields
/// are checked for length and not kept. A signup of a caller who has a
/// profile leaves that profile as it is, so it cannot be used to clear the
/// participation flag.
pub fn signup_player_handler(ctx: &mut Signup, name: &str, email: &str, date_of_birth: &str) -> (result:
    Result<(), ErrorCodes>)
    ensures
        final(ctx).signer == old(ctx).signer,
        match signup_refusal(name@, email@, date_of_birth@) {
            Some(reason) => result == Err::<(), ErrorCodes>(reason) && *final(ctx) == *old(ctx),
            None => result is Ok && final(ctx).player_profile == Some(signed_up(*old(ctx))),
        },
{
    if name.unicode_len() > 20 {
        return Err(ErrorCodes::PlayerNameTooLong);
    }
    if email.unicode_len() > 50 {
        return Err(ErrorCodes::PlayerEmailTooLong);
    }
    if date_of_birth.unicode_len() > 10 {
        return Err(ErrorCodes::PlayerDobTooLong);
    }
    if ctx.player_profile.is_none() {
        ctx.player_profile = Some(
            PlayerProfile {
                player_wallet_address: ctx.signer,
                participating_in_other_competition: false,
            },
        );
    }
    Ok(())
}

} // verus!
