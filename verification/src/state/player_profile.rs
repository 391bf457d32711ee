use vstd::prelude::*;
use crate::address::Address;

verus! {

/// The profile of one participant. There is at most one per identity.
#[derive(Clone, Copy, Debug, PartialEq, Eq)]
pub struct PlayerProfile {
    pub player_wallet_address: Address,
    /// Set by a successful registration; a participant with the flag set
    /// cannot register again.
    pub participating_in_other_competition: bool,
}

} // verus!
