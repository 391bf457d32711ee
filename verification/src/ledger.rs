use vstd::prelude::*;
use crate::address::Address;
use crate::error::ErrorCodes;
use crate::instructions::close_competition::{close_refusal, swept, CloseCompetition};
use crate::instructions::create_competition::new_competition;
use crate::instructions::determine_winner::{paid_out, payout_refusal, DetermineWinner};
use crate::instructions::register_player::{
    expected_usdt_mint,
    register_refusal,
    registered,
    RegisterPlayer,
};
use crate::instructions::signup_player::signup_refusal;
use crate::pda::{competition_address, competition_ata, player_address};
use crate::state::competition::{Competition, CompetitionCategory};
use crate::state::player::Player;
use crate::state::player_profile::PlayerProfile;
use crate::state::token_account::TokenAccount;

verus! {

/// A competition as the ledger keeps it: the record, its address, its
/// escrow, and whether the record has been reclaimed. A reclaimed record
/// stays in the ledger so that its identifier is never used again.
#[derive(Clone, Copy, Debug, PartialEq, Eq)]
pub struct CompetitionAccount {
    pub key: Address,
    pub competition: Competition,
    pub escrow: TokenAccount,
    pub closed: bool,
}

impl CompetitionAccount {
    /// What holds of a competition in the ledger in every state: the
    /// record is well-formed; the escrow is denominated in the expected
    /// asset and owned by the record; and a closed competition has paid
    /// its prize and has an empty escrow.
    pub open spec fn wf(self) -> bool {
        &&& self.competition.wf()
        &&& self.escrow.mint == expected_usdt_mint()
        &&& self.escrow.owner == self.key
        &&& self.closed ==> self.competition.payout_claimed && self.escrow.amount == 0
    }
}

/// All records: the competitions, one per identifier; the profiles, one
/// per identity; the registrations; and the treasury with its holding.
#[derive(Debug, PartialEq, Eq)]
pub struct Ledger {
    pub competitions: Vec<CompetitionAccount>,
    pub profiles: Vec<PlayerProfile>,
    pub players: Vec<Player>,
    pub master_treasury: Address,
    pub master_treasury_ata: TokenAccount,
}

/// The ledger as a mathematical value.
pub struct LedgerView {
    pub competitions: Seq<CompetitionAccount>,
    pub profiles: Seq<PlayerProfile>,
    pub players: Seq<Player>,
    pub master_treasury: Address,
    pub master_treasury_ata: TokenAccount,
}

impl View for Ledger {
    type V = LedgerView;

    open spec fn view(&self) -> LedgerView {
        LedgerView {
            competitions: self.competitions@,
            profiles: self.profiles@,
            players: self.players@,
            master_treasury: self.master_treasury,
            master_treasury_ata: self.master_treasury_ata,
        }
    }
}

/// The registration record before it is filled.
pub open spec fn blank_player() -> Player {
    Player {
        competition_id: 0,
        player: Address::spec_unset(),
        base_balance: 0,
        current_balance: 0,
        bump: 0,
        participating_in_other_competition: false,
    }
}

impl LedgerView {
    /// What holds of a ledger in every state: no two competitions share an
    /// identifier, every competition is well-formed, and no two profiles
    /// share an identity.
    pub open spec fn wf(self) -> bool {
        &&& forall|i: int, j: int|
            0 <= i < j < self.competitions.len() ==> (#[trigger] self.competitions[i]).competition.id
                != (#[trigger] self.competitions[j]).competition.id
        &&& forall|i: int| 0 <= i < self.competitions.len() ==> (#[trigger] self.competitions[i]).wf()
        &&& forall|i: int, j: int|
            0 <= i < j < self.profiles.len() ==> (#[trigger] self.profiles[i]).player_wallet_address
                != (#[trigger] self.profiles[j]).player_wallet_address
    }

    /// Whether the identifier is in use, by an open competition or by one
    /// that was closed.
    pub open spec fn has_competition(self, id: u32) -> bool {
        exists|i: int|
            0 <= i < self.competitions.len() && (#[trigger] self.competitions[i]).competition.id == id
    }

    /// Where the competition with this identifier stands.
    pub open spec fn slot_of(self, id: u32) -> int {
        choose|i: int|
            0 <= i < self.competitions.len() && (#[trigger] self.competitions[i]).competition.id == id
    }

    /// Whether a competition with this identifier exists and is not closed.
    pub open spec fn is_open(self, id: u32) -> bool {
        self.has_competition(id) && !self.competitions[self.slot_of(id)].closed
    }

    /// Whether the identity has a profile.
    pub open spec fn has_profile(self, who: Address) -> bool {
        exists|i: int|
            0 <= i < self.profiles.len() && (#[trigger] self.profiles[i]).player_wallet_address == who
    }

    /// Where the profile of this identity stands.
    pub open spec fn profile_slot(self, who: Address) -> int {
        choose|i: int|
            0 <= i < self.profiles.len() && (#[trigger] self.profiles[i]).player_wallet_address == who
    }

    /// The ledger after a signup, or why the signup is refused. A refused
    /// signup has a field that is too long. A signup of an identity that
    /// has a profile changes nothing.
    pub open spec fn signup_player(
        self,
        signer: Address,
        name: Seq<char>,
        email: Seq<char>,
        date_of_birth: Seq<char>,
    ) -> Result<LedgerView, ErrorCodes> {
        match signup_refusal(name, email, date_of_birth) {
            Some(reason) => Err(reason),
            None => if self.has_profile(signer) {
                Ok(self)
            } else {
                Ok(
                    LedgerView {
                        profiles: self.profiles.push(
                            PlayerProfile {
                                player_wallet_address: signer,
                                participating_in_other_competition: false,
                            },
                        ),
                        ..self
                    },
                )
            },
        }
    }

    /// The ledger after a creation, or why the creation is refused: the
    /// identifier is or was in use, or no address can be derived for the
    /// record or for its escrow. The record's address and bump seed are
    /// those that belong to the identifier; the escrow's address is the
    /// one that belongs to the authority and the expected asset.
    pub open spec fn create_competition(
        self,
        authority: Address,
        id: u32,
        entry_fee: u64,
        base_amount: u64,
        start_time: i64,
        winning_amount: u64,
        end_time: i64,
        category: CompetitionCategory,
    ) -> Result<LedgerView, ErrorCodes> {
        self.open_competition(
            authority,
            id,
            entry_fee,
            base_amount,
            start_time,
            winning_amount,
            end_time,
            category,
            competition_address(id),
            competition_ata(authority@, expected_usdt_mint()@),
        )
    }

    /// The ledger after a creation, given the address and bump seed that
    /// were derived for the record and the address that was derived for
    /// its escrow; or why the creation is refused: the identifier is or
    /// was in use, or one of the addresses is missing. The new competition
    /// has an empty escrow in the expected asset, owned by the record.
    pub open spec fn open_competition(
        self,
        authority: Address,
        id: u32,
        entry_fee: u64,
        base_amount: u64,
        start_time: i64,
        winning_amount: u64,
        end_time: i64,
        category: CompetitionCategory,
        record: Option<(Address, u8)>,
        escrow: Option<Address>,
    ) -> Result<LedgerView, ErrorCodes> {
        if self.has_competition(id) {
            Err(ErrorCodes::DuplicateCompetition)
        } else {
            match (record, escrow) {
                (Some(record), Some(escrow)) => Ok(
                    LedgerView {
                        competitions: self.competitions.push(
                            CompetitionAccount {
                                key: record.0,
                                competition: new_competition(
                                    authority,
                                    record.1,
                                    id,
                                    entry_fee,
                                    base_amount,
                                    start_time,
                                    winning_amount,
                                    end_time,
                                    category,
                                ),
                                escrow: TokenAccount {
                                    key: escrow,
                                    mint: expected_usdt_mint(),
                                    owner: record.0,
                                    amount: 0,
                                },
                                closed: false,
                            },
                        ),
                        ..self
                    },
                ),
                _ => Err(ErrorCodes::NoProgramAddress),
            }
        }
    }

    /// The accounts that a registration of `player` into the competition
    /// `id` works on, where both exist.
    pub open spec fn register_accounts(
        self,
        player: Address,
        usdt_mint: Address,
        player_ata: TokenAccount,
        id: u32,
        bump: u8,
    ) -> RegisterPlayer {
        RegisterPlayer {
            competition: self.competitions[self.slot_of(id)].competition,
            player: player,
            usdt_mint: usdt_mint,
            player_ata: player_ata,
            competition_ata: self.competitions[self.slot_of(id)].escrow,
            player_account: blank_player(),
            player_account_bump: bump,
            player_profile: self.profiles[self.profile_slot(player)],
        }
    }

    /// Why a registration is refused, if it is, given the address and
    /// bump seed that were derived for the registration. The first reason
    /// that applies is given: no open competition has the identifier; the
    /// competition is full; the caller has no profile; the caller takes
    /// part in a competition already; the address is missing; or a reason
    /// of `register_refusal`.
    pub open spec fn enroll_refusal(
        self,
        player: Address,
        usdt_mint: Address,
        player_ata: TokenAccount,
        id: u32,
        registration: Option<(Address, u8)>,
    ) -> Option<ErrorCodes> {
        if !self.is_open(id) {
            Some(ErrorCodes::CompetitionNotFound)
        } else if self.competitions[self.slot_of(id)].competition.current_players
            >= self.competitions[self.slot_of(id)].competition.max_players {
            Some(ErrorCodes::CompetitionFull)
        } else if !self.has_profile(player) {
            Some(ErrorCodes::ProfileNotFound)
        } else if self.profiles[self.profile_slot(player)].participating_in_other_competition {
            Some(ErrorCodes::AlreadyParticipant)
        } else {
            match registration {
                None => Some(ErrorCodes::NoProgramAddress),
                Some(derived) => register_refusal(
                    self.register_accounts(player, usdt_mint, player_ata, id, derived.1),
                ),
            }
        }
    }

    /// The ledger and the caller's holding after a registration, given
    /// the address and bump seed that were derived for the registration;
    /// or why the registration is refused.
    pub open spec fn enroll_player(
        self,
        player: Address,
        usdt_mint: Address,
        player_ata: TokenAccount,
        id: u32,
        current_usdt_balance: u64,
        registration: Option<(Address, u8)>,
    ) -> Result<(LedgerView, TokenAccount), ErrorCodes> {
        match self.enroll_refusal(player, usdt_mint, player_ata, id, registration) {
            Some(reason) => Err(reason),
            None => {
                let after = registered(
                    self.register_accounts(player, usdt_mint, player_ata, id, registration.unwrap().1),
                    id,
                    current_usdt_balance,
                );
                Ok(
                    (
                        LedgerView {
                            competitions: self.competitions.update(
                                self.slot_of(id),
                                CompetitionAccount {
                                    competition: after.competition,
                                    escrow: after.competition_ata,
                                    ..self.competitions[self.slot_of(id)]
                                },
                            ),
                            profiles: self.profiles.update(
                                self.profile_slot(player),
                                after.player_profile,
                            ),
                            players: self.players.push(after.player_account),
                            ..self
                        },
                        after.player_ata,
                    ),
                )
            },
        }
    }

    /// The address and bump seed that belong to the registration of
    /// `player` in the open competition `id`.
    pub open spec fn registration_address(self, player: Address, id: u32) -> Option<(Address, u8)> {
        if self.is_open(id) {
            player_address(self.competitions[self.slot_of(id)].key@, player@)
        } else {
            None
        }
    }

    /// The ledger and the caller's holding after a registration, or why
    /// the registration is refused: the outcome of `enroll_player` with
    /// the address that belongs to the registration.
    pub open spec fn register_player(
        self,
        player: Address,
        usdt_mint: Address,
        player_ata: TokenAccount,
        id: u32,
        current_usdt_balance: u64,
    ) -> Result<(LedgerView, TokenAccount), ErrorCodes> {
        self.enroll_player(
            player,
            usdt_mint,
            player_ata,
            id,
            current_usdt_balance,
            self.registration_address(player, id),
        )
    }

    /// The accounts that a payout of the competition `id` works on, where
    /// it exists.
    pub open spec fn payout_accounts(
        self,
        authority: Address,
        usdt_mint: Address,
        winner_ata: TokenAccount,
        id: u32,
    ) -> DetermineWinner {
        DetermineWinner {
            competition: self.competitions[self.slot_of(id)].competition,
            authority: authority,
            winner_ata: winner_ata,
            competition_ata: self.competitions[self.slot_of(id)].escrow,
            usdt_mint: usdt_mint,
        }
    }

    /// Why a payout is refused, if it is, given the escrow address that
    /// was derived for the competition: no open competition has the
    /// identifier, or a reason of `payout_refusal`.
    pub open spec fn settle_refusal(
        self,
        authority: Address,
        usdt_mint: Address,
        winner_ata: TokenAccount,
        id: u32,
        winner: Address,
        winning_amount: u64,
        current_time: i64,
        expected_ata: Option<Address>,
    ) -> Option<ErrorCodes> {
        if !self.is_open(id) {
            Some(ErrorCodes::CompetitionNotFound)
        } else {
            payout_refusal(
                self.payout_accounts(authority, usdt_mint, winner_ata, id),
                winner,
                winning_amount,
                current_time,
                expected_ata,
            )
        }
    }

    /// The ledger and the winner's holding after a payout, given the
    /// escrow address that was derived for the competition; or why the
    /// payout is refused.
    pub open spec fn settle_winner(
        self,
        authority: Address,
        usdt_mint: Address,
        winner_ata: TokenAccount,
        id: u32,
        winner: Address,
        winning_amount: u64,
        current_time: i64,
        expected_ata: Option<Address>,
    ) -> Result<(LedgerView, TokenAccount), ErrorCodes> {
        match self.settle_refusal(
            authority,
            usdt_mint,
            winner_ata,
            id,
            winner,
            winning_amount,
            current_time,
            expected_ata,
        ) {
            Some(reason) => Err(reason),
            None => {
                let after = paid_out(
                    self.payout_accounts(authority, usdt_mint, winner_ata, id),
                    winner,
                    winning_amount,
                );
                Ok(
                    (
                        LedgerView {
                            competitions: self.competitions.update(
                                self.slot_of(id),
                                CompetitionAccount {
                                    competition: after.competition,
                                    escrow: after.competition_ata,
                                    ..self.competitions[self.slot_of(id)]
                                },
                            ),
                            ..self
                        },
                        after.winner_ata,
                    ),
                )
            },
        }
    }

    /// The escrow address that belongs to the authority of the open
    /// competition `id` and the asset.
    pub open spec fn escrow_address(self, usdt_mint: Address, id: u32) -> Option<Address> {
        if self.is_open(id) {
            competition_ata(self.competitions[self.slot_of(id)].competition.authority@, usdt_mint@)
        } else {
            None
        }
    }

    /// The ledger and the winner's holding after a payout, or why the
    /// payout is refused: the outcome of `settle_winner` with the escrow
    /// address that belongs to the competition's authority and the asset.
    pub open spec fn determine_winner(
        self,
        authority: Address,
        usdt_mint: Address,
        winner_ata: TokenAccount,
        id: u32,
        winner: Address,
        winning_amount: u64,
        current_time: i64,
    ) -> Result<(LedgerView, TokenAccount), ErrorCodes> {
        self.settle_winner(
            authority,
            usdt_mint,
            winner_ata,
            id,
            winner,
            winning_amount,
            current_time,
            self.escrow_address(usdt_mint, id),
        )
    }

    /// The accounts that a closing of the competition `id` works on, where
    /// it exists.
    pub open spec fn close_accounts(self, authority: Address, usdt_mint: Address, id: u32) -> CloseCompetition {
        CloseCompetition {
            competition: self.competitions[self.slot_of(id)].competition,
            competition_ata: self.competitions[self.slot_of(id)].escrow,
            master_treasury: self.master_treasury,
            master_treasury_ata: self.master_treasury_ata,
            usdt_mint: usdt_mint,
            authority: authority,
        }
    }

    /// Why a closing is refused, if it is: no open competition has the
    /// identifier, or a reason of `close_refusal`.
    pub open spec fn close_competition_refusal(self, authority: Address, usdt_mint: Address, id: u32) -> Option<
        ErrorCodes,
    > {
        if !self.is_open(id) {
            Some(ErrorCodes::CompetitionNotFound)
        } else {
            close_refusal(self.close_accounts(authority, usdt_mint, id))
        }
    }

    /// The ledger after a closing, or why the closing is refused. A closed
    /// competition has an empty escrow, the treasury holds what the escrow
    /// held, and the record is marked as reclaimed.
    pub open spec fn close_competition(self, authority: Address, usdt_mint: Address, id: u32) -> Result<
        LedgerView,
        ErrorCodes,
    > {
        match self.close_competition_refusal(authority, usdt_mint, id) {
            Some(reason) => Err(reason),
            None => {
                let after = swept(self.close_accounts(authority, usdt_mint, id));
                Ok(
                    LedgerView {
                        competitions: self.competitions.update(
                            self.slot_of(id),
                            CompetitionAccount {
                                escrow: after.competition_ata,
                                closed: true,
                                ..self.competitions[self.slot_of(id)]
                            },
                        ),
                        master_treasury_ata: after.master_treasury_ata,
                        ..self
                    },
                )
            },
        }
    }
}

impl Ledger {
    /// A ledger without competitions, profiles or registrations, whose
    /// treasury holds nothing yet.
    pub fn new(master_treasury: Address, master_treasury_ata: TokenAccount) -> (ledger: Ledger)
        ensures
            ledger@ == (LedgerView {
                competitions: Seq::empty(),
                profiles: Seq::empty(),
                players: Seq::empty(),
                master_treasury: master_treasury,
                master_treasury_ata: master_treasury_ata,
            }),
            ledger@.wf(),
    {
        Ledger {
            competitions: Vec::new(),
            profiles: Vec::new(),
            players: Vec::new(),
            master_treasury,
            master_treasury_ata,
        }
    }

    /// Where the competition with this identifier stands, if the
    /// identifier is in use.
    pub fn find_competition(&self, id: u32) -> (slot: Option<usize>)
        requires
            self@.wf(),
        ensures
            slot is Some == self@.has_competition(id),
            slot matches Some(i) ==> i == self@.slot_of(id) && i < self.competitions.len(),
    {
        let mut i: usize = 0;
        while i < self.competitions.len()
            invariant
                self@.wf(),
                i <= self.competitions.len(),
                forall|j: int| 0 <= j < i ==> (#[trigger] self.competitions[j]).competition.id != id,
            decreases self.competitions.len() - i,
        {
            if self.competitions[i].competition.id == id {
                proof {
                    let here = self@.competitions[i as int];
                    assert(here.competition.id == id);
                    let chosen = self@.slot_of(id);
                    let there = self@.competitions[chosen];
                    assert(0 <= chosen < self.competitions.len() && there.competition.id == id);
                    assert(chosen == i);
                }
                return Some(i);
            }
            i += 1;
        }
        None
    }

    /// Where the profile of this identity stands, if it has one.
    pub fn find_profile(&self, who: &Address) -> (slot: Option<usize>)
        requires
            self@.wf(),
        ensures
            slot is Some == self@.has_profile(*who),
            slot matches Some(i) ==> i == self@.profile_slot(*who) && i < self.profiles.len(),
    {
        let mut i: usize = 0;
        while i < self.profiles.len()
            invariant
                self@.wf(),
                i <= self.profiles.len(),
                forall|j: int| 0 <= j < i ==> (#[trigger] self.profiles[j]).player_wallet_address != *who,
            decreases self.profiles.len() - i,
        {
            if self.profiles[i].player_wallet_address == *who {
                proof {
                    let here = self@.profiles[i as int];
                    assert(here.player_wallet_address == *who);
                    let chosen = self@.profile_slot(*who);
                    let there = self@.profiles[chosen];
                    assert(0 <= chosen < self.profiles.len() && there.player_wallet_address == *who);
                    assert(chosen == i);
                }
                return Some(i);
            }
            i += 1;
        }
        None
    }

    /// Where the open competition with this identifier stands, if there
    /// is one.
    pub fn find_open_competition(&self, id: u32) -> (slot: Option<usize>)
        requires
            self@.wf(),
        ensures
            slot is Some == self@.is_open(id),
            slot matches Some(i) ==> i == self@.slot_of(id) && i < self.competitions.len(),
    {
        match self.find_competition(id) {
            Some(i) => if self.competitions[i].closed {
                None
            } else {
                Some(i)
            },
            None => None,
        }
    }
}

} // verus!
