use vstd::prelude::*;
use vstd::string::StrSliceExecFns;
use crate::pubkey::Pubkey;

verus! {

/// A bookable offering that an organiser has published.
#[derive(Clone, Debug, PartialEq, Eq)]
pub struct Experience {
    /// The principal that owns the experience.
    pub organiser: Pubkey,
    pub title: String,
    pub description: String,
    pub location: Option<String>,
    /// Base price, in lamports.
    pub price_lamports: u64,
    /// The share of a slot's price that a cancellation costs, in percent.
    pub cancellation_fee_percent: u64,
    /// How many slots have been added to the experience.
    pub time_slot_count: u8,
}

impl Experience {
    /// Most characters that a title may have.
    pub const MAX_TITLE_LEN: usize = 32;

    /// Most characters that a location may have.
    pub const MAX_LOCATION_LEN: usize = 64;

    /// Most characters that a description may have.
    pub const MAX_DESCRIPTION_LEN: usize = 256;

    /// Highest cancellation fee, in percent.
    pub const MAX_CANCELLATION_FEE: u64 = 100;

    /// Most slots that one experience may have.
    pub const MAX_TIME_SLOTS: u8 = 10;

    /// The field constraints of an experience.
    pub open spec fn wf(&self) -> bool {
        &&& 1 <= self.title@.len() <= Self::MAX_TITLE_LEN
        &&& self.description@.len() <= Self::MAX_DESCRIPTION_LEN
        &&& self.location matches Some(location) ==> 1 <= location@.len()
            <= Self::MAX_LOCATION_LEN
        &&& self.price_lamports > 0
        &&& self.cancellation_fee_percent <= Self::MAX_CANCELLATION_FEE
        &&& self.time_slot_count <= Self::MAX_TIME_SLOTS
    }

    /// Whether the experience meets its field constraints.
    pub fn is_well_formed(&self) -> (ok: bool)
        ensures
            ok == self.wf(),
    {
        let title_len = self.title.as_str().unicode_len();
        let location_fits = match &self.location {
            Some(location) => {
                let location_len = location.as_str().unicode_len();
                1 <= location_len && location_len <= Self::MAX_LOCATION_LEN
            },
            None => true,
        };
        1 <= title_len && title_len <= Self::MAX_TITLE_LEN && self.description.as_str().unicode_len()
            <= Self::MAX_DESCRIPTION_LEN && location_fits && self.price_lamports > 0
            && self.cancellation_fee_percent <= Self::MAX_CANCELLATION_FEE && self.time_slot_count
            <= Self::MAX_TIME_SLOTS
    }
}

/// One bookable interval of an experience, `[start_time, end_time)` in epoch
/// seconds.
#[derive(Clone, Copy, Debug, PartialEq, Eq)]
pub struct TimeSlotAccount {
    /// The experience that the slot belongs to.
    pub experience: Pubkey,
    pub start_time: i64,
    pub end_time: i64,
    pub is_booked: bool,
    /// Price of the slot, in lamports.
    pub price: u64,
}

impl TimeSlotAccount {
    /// The field constraints of a slot.
    pub open spec fn wf(&self) -> bool {
        &&& self.start_time < self.end_time
        &&& self.price > 0
    }

    /// Whether the slot's interval and `[start_time, end_time)` share a moment.
    pub open spec fn intersects(&self, start_time: i64, end_time: i64) -> bool {
        self.start_time < end_time && start_time < self.end_time
    }

    /// Whether the two slots belong to one experience and their intervals share
    /// a moment.
    pub open spec fn overlaps(&self, other: TimeSlotAccount) -> bool {
        self.experience == other.experience && self.intersects(other.start_time, other.end_time)
    }

    /// Marks a free slot as booked. The caller has checked that it is free.
    pub(crate) fn mark_booked(&mut self)
        requires
            !old(self).is_booked,
        ensures
            *final(self) == (TimeSlotAccount { is_booked: true, ..*old(self) }),
    {
        self.is_booked = true;
    }

    /// Marks the slot as free.
    pub(crate) fn mark_free(&mut self)
        ensures
            *final(self) == (TimeSlotAccount { is_booked: false, ..*old(self) }),
    {
        self.is_booked = false;
    }
}

/// A user's claim on a slot, paired with the token that proves it.
#[derive(Clone, Copy, Debug, PartialEq, Eq)]
pub struct Reservation {
    pub experience_id: Pubkey,
    /// The principal that booked.
    pub user: Pubkey,
    /// The start time under which the claimed slot is filed.
    pub time_slot: i64,
    /// The token issued for the booking.
    pub nft_mint: Pubkey,
    pub start_time: i64,
    pub end_time: i64,
    pub is_active: bool,
}

} // verus!
