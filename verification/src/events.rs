use vstd::prelude::*;
use crate::pubkey::Pubkey;

verus! {

/// Notice that an experience was created.
#[derive(Clone, Debug, PartialEq, Eq)]
pub struct ExperienceCreated {
    pub organiser: Pubkey,
    pub experience: Pubkey,
    pub title: String,
}

/// Notice that a slot was booked and a token issued for it.
#[derive(Clone, Copy, Debug, PartialEq, Eq)]
pub struct ReservationCreated {
    pub user: Pubkey,
    pub reservation: Pubkey,
    pub nft_mint: Pubkey,
    pub start_time: i64,
}

/// Notice that a reservation was cancelled, with the fee that was kept.
#[derive(Clone, Copy, Debug, PartialEq, Eq)]
pub struct ReservationCancelled {
    pub user: Pubkey,
    pub reservation: Pubkey,
    pub cancellation_fee: u64,
}

/// Notice that a reservation was moved to another slot.
#[derive(Clone, Copy, Debug, PartialEq, Eq)]
pub struct ReservationUpdated {
    pub user: Pubkey,
    pub reservation: Pubkey,
    pub new_start_time: i64,
}

} // verus!
