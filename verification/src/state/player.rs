use vstd::prelude::*;
use crate::address::Address;

verus! {

/// The registration of one participant in one competition.
#[derive(Clone, Copy, Debug, PartialEq, Eq)]
pub struct Player {
    pub competition_id: u32,
    pub player: Address,
    /// The competition's base amount at the time of registration.
    pub base_balance: u64,
    /// The balance that the participant stated when registering.
    pub current_balance: u64,
    pub bump: u8,
    pub participating_in_other_competition: bool,
}

} // verus!
