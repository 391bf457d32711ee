use vstd::prelude::*;
use crate::address::Address;

verus! {

/// The size classes of a competition. Each fixes the number of slots.
#[derive(Clone, Copy, Debug, PartialEq, Eq, Structural)]
pub enum CompetitionCategory {
    SixPlayers,
    TwelvePlayers,
    TwentyFivePlayers,
}

impl CompetitionCategory {
    /// The number of slots of a competition of this category.
    pub open spec fn spec_max_players(self) -> u8 {
        match self {
            CompetitionCategory::SixPlayers => 6,
            CompetitionCategory::TwelvePlayers => 12,
            CompetitionCategory::TwentyFivePlayers => 25,
        }
    }

    /// The number of slots of a competition of this category.
    #[verifier::when_used_as_spec(spec_max_players)]
    pub fn max_players(self) -> (slots: u8)
        ensures
            slots == self.spec_max_players(),
            slots <= MAX_PARTICIPANTS,
    {
        match self {
            CompetitionCategory::SixPlayers => 6,
            CompetitionCategory::TwelvePlayers => 12,
            CompetitionCategory::TwentyFivePlayers => 25,
        }
    }
}

/// The capacity of the roster array: the slots of the largest category.
pub const MAX_PARTICIPANTS: usize = 25;

/// The authoritative state of one competition.
#[derive(Clone, Copy, Debug, PartialEq, Eq)]
pub struct Competition {
    /// Who may declare the winner and close the competition.
    pub authority: Address,
    pub id: u32,
    pub max_players: u8,
    pub current_players: u8,
    pub entry_fee: u64,
    pub base_amount: u64,
    pub start_time: i64,
    pub end_time: i64,
    pub winning_amount: u64,
    pub category: CompetitionCategory,
    /// The winner, or the all-zero address while none is declared.
    pub winner: Address,
    pub payout_claimed: bool,
    pub bump: u8,
    /// The roster. Slots `0 .. current_players` hold the participants in
    /// the order in which they registered; the others are all-zero.
    pub participants: [Address; 25],
}

impl Competition {
    /// The participants, in the order in which they registered.
    pub open spec fn roster(&self) -> Seq<Address> {
        self.participants@.take(self.current_players as int)
    }

    /// What holds of a competition in every state: its capacity is that of
    /// its category, it holds no more participants than that, none of them
    /// twice, the free slots are empty, it starts before it ends, and it
    /// has no winner before the prize is paid.
    pub open spec fn wf(&self) -> bool {
        &&& self.max_players == self.category.spec_max_players()
        &&& 0 <= self.current_players <= self.max_players
        &&& self.roster().no_duplicates()
        &&& forall|i: int| self.current_players <= i < 25 ==> (#[trigger] self.participants[i]).spec_is_unset()
        &&& self.start_time < self.end_time
        &&& !self.payout_claimed ==> self.winner.spec_is_unset()
    }

    /// Whether the record is well-formed.
    pub fn is_valid(&self) -> (ok: bool)
        ensures
            ok == self.wf(),
    {
        if self.max_players != self.category.max_players() || self.current_players
            > self.max_players || self.start_time >= self.end_time {
            return false;
        }
        if !self.payout_claimed && !self.winner.is_unset() {
            return false;
        }
        let taken: usize = self.current_players as usize;
        let mut free: usize = taken;
        while free < 25
            invariant
                taken == self.current_players,
                taken <= free <= 25,
                forall|i: int| taken <= i < free ==> (#[trigger] self.participants[i]).spec_is_unset(),
            decreases 25 - free,
        {
            if !self.participants[free].is_unset() {
                return false;
            }
            free += 1;
        }
        let mut first: usize = 0;
        while first < taken
            invariant
                taken == self.current_players,
                taken <= 25,
                first <= taken,
                forall|i: int, j: int|
                    0 <= i < first && i < j < taken ==> self.participants[i] != self.participants[j],
            decreases taken - first,
        {
            let mut second: usize = first + 1;
            while second < taken
                invariant
                    taken == self.current_players,
                    taken <= 25,
                    first < second <= taken,
                    forall|j: int| first < j < second ==> self.participants[first as int] != self.participants[j],
                decreases taken - second,
            {
                if self.participants[first] == self.participants[second] {
                    assert(self.roster()[first as int] == self.roster()[second as int]);
                    return false;
                }
                second += 1;
            }
            first += 1;
        }
        assert forall|i: int, j: int|
            0 <= i < self.roster().len() && 0 <= j < self.roster().len() && i != j implies self.roster()[i]
            != self.roster()[j] by {
            if i < j {
                assert(self.participants[i] != self.participants[j]);
            } else {
                assert(self.participants[j] != self.participants[i]);
            }
        }
        true
    }

    /// Whether `who` is on the roster.
    pub fn is_participant(&self, who: &Address) -> (found: bool)
        requires
            self.current_players <= 25,
        ensures
            found == self.roster().contains(*who),
    {
        let mut i: u8 = 0;
        while i < self.current_players
            invariant
                i <= self.current_players <= 25,
                forall|j: int| 0 <= j < i ==> self.participants[j] != *who,
            decreases self.current_players - i,
        {
            if self.participants[i as usize] == *who {
                assert(self.roster()[i as int] == *who);
                return true;
            }
            i += 1;
        }
        false
    }
}

} // verus!
