use vstd::prelude::*;
use crate::pubkey::Pubkey;
use crate::state::{Experience, Reservation, TimeSlotAccount};
use crate::wallet::Wallet;

verus! {

/// What `create_experience` works on.
#[derive(Clone, Debug, PartialEq, Eq)]
pub struct CreateExperience {
    /// The caller, who becomes the experience's organiser.
    pub organiser: Pubkey,
    /// The address under which the experience is filed.
    pub experience_key: Pubkey,
    /// The record of the experience: `None` until it is created.
    pub experience: Option<Experience>,
}

/// What `add_time_slot` works on.
#[derive(Clone, Debug, PartialEq, Eq)]
pub struct AddTimeSlot {
    /// The caller.
    pub organiser: Pubkey,
    pub experience_key: Pubkey,
    pub experience: Experience,
    /// The slots on record, in the order in which they were added.
    pub slots: Vec<TimeSlotAccount>,
}

/// What `book_slot` works on. The two wallets stand for two accounts, whose
/// balances are kept apart.
#[derive(Clone, Debug, PartialEq, Eq)]
pub struct BookSlot {
    /// The caller, who pays for the slot and receives the token.
    pub user: Wallet,
    /// The account that is paid.
    pub organiser: Wallet,
    pub experience_key: Pubkey,
    pub experience: Experience,
    pub slot: TimeSlotAccount,
    /// The address under which the reservation is filed.
    pub reservation_key: Pubkey,
    /// The record of the reservation: `None` until the slot is booked.
    pub reservation: Option<Reservation>,
    /// The token that is issued for the booking.
    pub mint: Pubkey,
    /// The user's token account for that token, which receives it.
    pub user_nft_account: Pubkey,
    /// The account that holds the token's descriptor.
    pub metadata: Pubkey,
    /// The account that marks the token as one of a kind.
    pub master_edition: Pubkey,
    pub system_program: Pubkey,
    pub token_program: Pubkey,
}

/// What `cancel_reservation` works on. The two wallets stand for two accounts,
/// whose balances are kept apart.
#[derive(Clone, Debug, PartialEq, Eq)]
pub struct CancelReservation {
    /// The caller, who is refunded.
    pub user: Wallet,
    /// The account of the experience's organiser, who refunds.
    pub organiser: Wallet,
    pub experience: Experience,
    pub reservation_key: Pubkey,
    pub reservation: Reservation,
    pub slot: TimeSlotAccount,
}

/// What `update_reservation` works on.
#[derive(Clone, Copy, Debug, PartialEq, Eq)]
pub struct UpdateReservation {
    /// The caller.
    pub user: Pubkey,
    pub reservation_key: Pubkey,
    pub reservation: Reservation,
    /// The slot that the reservation leaves.
    pub old_slot: TimeSlotAccount,
    /// The slot that the reservation moves to.
    pub new_slot: TimeSlotAccount,
}

impl BookSlot {
    /// The experience meets its field constraints, and the two balances
    /// together fit a `u64`.
    pub open spec fn wf(&self) -> bool {
        &&& self.experience.wf()
        &&& self.user.lamports + self.organiser.lamports <= u64::MAX
    }

    /// Whether `book_slot` may be called on this.
    pub fn is_well_formed(&self) -> (ok: bool)
        ensures
            ok == self.wf(),
    {
        self.experience.is_well_formed() && self.user.lamports <= u64::MAX
            - self.organiser.lamports
    }
}

impl CancelReservation {
    /// The experience meets its field constraints, the account that refunds is
    /// that of the experience's organiser, and the two balances together fit a
    /// `u64`.
    pub open spec fn wf(&self) -> bool {
        &&& self.experience.wf()
        &&& self.organiser.key == self.experience.organiser
        &&& self.user.lamports + self.organiser.lamports <= u64::MAX
    }

    /// Whether `cancel_reservation` may be called on this.
    pub fn is_well_formed(&self) -> (ok: bool)
        ensures
            ok == self.wf(),
    {
        self.experience.is_well_formed() && self.organiser.key == self.experience.organiser
            && self.user.lamports <= u64::MAX - self.organiser.lamports
    }
}

} // verus!
