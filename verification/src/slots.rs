use vstd::prelude::*;
use crate::accounts::AddTimeSlot;
use crate::error::ErrorCode;
use crate::pubkey::Pubkey;
use crate::state::{Experience, TimeSlotAccount};

verus! {

/// Whether `[start_time, end_time)` shares a moment with a slot that
/// `experience` has among `slots`.
pub open spec fn overlaps_existing(
    slots: Seq<TimeSlotAccount>,
    experience: Pubkey,
    start_time: i64,
    end_time: i64,
) -> bool {
    exists|i: int|
        0 <= i < slots.len() && (#[trigger] slots[i]).experience == experience
            && slots[i].intersects(start_time, end_time)
}

/// No two slots of one experience share a moment.
pub open spec fn slots_disjoint(slots: Seq<TimeSlotAccount>) -> bool {
    forall|i: int, j: int|
        #![trigger slots[i], slots[j]]
        0 <= i < j < slots.len() ==> !slots[i].overlaps(slots[j])
}

/// The slot that an accepted request creates: free, and filed under the
/// experience.
pub open spec fn new_slot(experience: Pubkey, start_time: i64, end_time: i64, price: u64)
    -> TimeSlotAccount {
    TimeSlotAccount { experience, start_time, end_time, is_booked: false, price }
}

/// Why a new slot is refused, if it is: the caller is not the experience's
/// organiser, the interval is empty or reversed, the price is nothing, the
/// experience is full, the slot does not start after `current_time`, or it
/// intersects a slot of the experience, in this order.
pub open spec fn add_time_slot_rejection(
    ctx: AddTimeSlot,
    start_time: i64,
    end_time: i64,
    price: u64,
    current_time: i64,
) -> Option<ErrorCode> {
    if ctx.experience.organiser != ctx.organiser {
        Some(ErrorCode::Unauthorized)
    } else if start_time >= end_time {
        Some(ErrorCode::InvalidTimeSlot)
    } else if price == 0 {
        Some(ErrorCode::InvalidPrice)
    } else if ctx.experience.time_slot_count >= Experience::MAX_TIME_SLOTS {
        Some(ErrorCode::TooManyTimeSlots)
    } else if start_time <= current_time {
        Some(ErrorCode::InvalidTimeSlot)
    } else if overlaps_existing(ctx.slots@, ctx.experience_key, start_time, end_time) {
        Some(ErrorCode::OverlappingTimeSlot)
    } else {
        None
    }
}

/// Whether `[start_time, end_time)` shares a moment with a slot that
/// `experience` has among `slots`.
pub fn intersects_existing(
    slots: &Vec<TimeSlotAccount>,
    experience: &Pubkey,
    start_time: i64,
    end_time: i64,
) -> (found: bool)
    ensures
        found == overlaps_existing(slots@, *experience, start_time, end_time),
{
    let mut i: usize = 0;
    while i < slots.len()
        invariant
            i <= slots.len(),
            !overlaps_existing(slots@.take(i as int), *experience, start_time, end_time),
        decreases slots.len() - i,
    {
        let slot = &slots[i];
        if slot.experience == *experience && slot.start_time < end_time && start_time
            < slot.end_time {
            return true;
        }
        assert forall|k: int| 0 <= k < i + 1 implies !((#[trigger] slots@.take(i + 1)[k]).experience
            == *experience && slots@.take(i + 1)[k].intersects(start_time, end_time)) by {
            if k < i {
                assert(slots@.take(i + 1)[k] == slots@.take(i as int)[k]);
            }
        }
        i = i + 1;
    }
    assert(slots@.take(i as int) == slots@);
    false
}

/// Adding a slot that intersects none of its experience keeps the slots apart.
pub proof fn lemma_push_keeps_disjoint(slots: Seq<TimeSlotAccount>, slot: TimeSlotAccount)
    requires
        slots_disjoint(slots),
        !overlaps_existing(slots, slot.experience, slot.start_time, slot.end_time),
    ensures
        slots_disjoint(slots.push(slot)),
{
    let grown = slots.push(slot);
    assert forall|i: int, j: int|
        #![trigger grown[i], grown[j]]
        0 <= i < j < grown.len() implies !grown[i].overlaps(grown[j]) by {
        if j < slots.len() {
            assert(grown[i] == slots[i] && grown[j] == slots[j]);
        } else {
            assert(grown[i] == slots[i]);
        }
    }
}

/// `slots` came about from `before` by additions alone, each of a slot that
/// shared no moment with the slots that its experience had by then.
pub open spec fn grown_by_additions(before: Seq<TimeSlotAccount>, slots: Seq<TimeSlotAccount>)
    -> bool {
    &&& before.len() <= slots.len()
    &&& slots.take(before.len() as int) == before
    &&& forall|k: int|
        before.len() <= k < slots.len() ==> !overlaps_existing(
            slots.take(k),
            (#[trigger] slots[k]).experience,
            slots[k].start_time,
            slots[k].end_time,
        )
}

/// One accepted addition is a growth by additions.
pub proof fn lemma_addition_grows(slots: Seq<TimeSlotAccount>, slot: TimeSlotAccount)
    requires
        !overlaps_existing(slots, slot.experience, slot.start_time, slot.end_time),
    ensures
        grown_by_additions(slots, slots.push(slot)),
{
    let grown = slots.push(slot);
    assert(grown.take(slots.len() as int) == slots);
}

/// Whether `records` are the slots that the experience has, each once: as
/// many as the experience counts, all of that experience, and no two at one
/// address.
pub open spec fn are_slots_on_record(
    records: Seq<(Pubkey, TimeSlotAccount)>,
    experience_key: Pubkey,
    count: u8,
) -> bool {
    &&& records.len() == count
    &&& forall|i: int| 0 <= i < records.len() ==> (#[trigger] records[i]).1.experience
        == experience_key
    &&& forall|i: int, j: int|
        #![trigger records[i], records[j]]
        0 <= i < j < records.len() ==> records[i].0 != records[j].0
}

/// Whether the records, each with the address it was read from, are the slots
/// that the experience has, each once.
pub fn slots_on_record(
    records: &Vec<(Pubkey, TimeSlotAccount)>,
    experience_key: &Pubkey,
    count: u8,
) -> (ok: bool)
    ensures
        ok == are_slots_on_record(records@, *experience_key, count),
{
    if records.len() != count as usize {
        return false;
    }
    let mut j: usize = 0;
    while j < records.len()
        invariant
            j <= records.len(),
            records.len() == count,
            forall|k: int| 0 <= k < j ==> (#[trigger] records[k]).1.experience == *experience_key,
            forall|i: int, k: int|
                #![trigger records[i], records[k]]
                0 <= i < k < j ==> records[i].0 != records[k].0,
        decreases records.len() - j,
    {
        if !(records[j].1.experience == *experience_key) {
            return false;
        }
        let mut i: usize = 0;
        while i < j
            invariant
                i <= j < records.len(),
                forall|k: int| 0 <= k < i ==> (#[trigger] records[k]).0 != records[j as int].0,
            decreases j - i,
        {
            if records[i].0 == records[j].0 {
                return false;
            }
            i = i + 1;
        }
        j = j + 1;
    }
    true
}

/// Adds a free slot `[start_time, end_time)` at the given price to the
/// organiser's experience, at `current_time`: the slot goes to the end of the
/// slots on record, and the experience counts one slot more. When the slot is
/// refused, nothing changes. Slots that were apart stay apart.
pub fn add_time_slot(
    ctx: &mut AddTimeSlot,
    start_time: i64,
    end_time: i64,
    price: u64,
    current_time: i64,
) -> (r: Result<TimeSlotAccount, ErrorCode>)
    ensures
        match r {
            Ok(slot) => {
                &&& add_time_slot_rejection(*old(ctx), start_time, end_time, price, current_time)
                    is None
                &&& slot == new_slot(old(ctx).experience_key, start_time, end_time, price)
                &&& slot.wf()
                &&& final(ctx).slots@ == old(ctx).slots@.push(slot)
                &&& grown_by_additions(old(ctx).slots@, final(ctx).slots@)
                &&& final(ctx).experience == (Experience {
                    time_slot_count: (old(ctx).experience.time_slot_count + 1) as u8,
                    ..old(ctx).experience
                })
                &&& final(ctx).organiser == old(ctx).organiser
                &&& final(ctx).experience_key == old(ctx).experience_key
            },
            Err(e) => {
                &&& add_time_slot_rejection(*old(ctx), start_time, end_time, price, current_time)
                    == Some(e)
                &&& *final(ctx) == *old(ctx)
            },
        },
        slots_disjoint(old(ctx).slots@) ==> slots_disjoint(final(ctx).slots@),
        old(ctx).experience.wf() ==> final(ctx).experience.wf(),
{
    if !(ctx.experience.organiser == ctx.organiser) {
        return Err(ErrorCode::Unauthorized);
    }
    if start_time >= end_time {
        return Err(ErrorCode::InvalidTimeSlot);
    }
    if price == 0 {
        return Err(ErrorCode::InvalidPrice);
    }
    if ctx.experience.time_slot_count >= Experience::MAX_TIME_SLOTS {
        return Err(ErrorCode::TooManyTimeSlots);
    }
    if start_time <= current_time {
        return Err(ErrorCode::InvalidTimeSlot);
    }
    if intersects_existing(&ctx.slots, &ctx.experience_key, start_time, end_time) {
        return Err(ErrorCode::OverlappingTimeSlot);
    }
    let count = match ctx.experience.time_slot_count.checked_add(1) {
        Some(count) => count,
        None => {
            return Err(ErrorCode::TooManyTimeSlots);
        },
    };
    let slot = TimeSlotAccount {
        experience: ctx.experience_key,
        start_time,
        end_time,
        is_booked: false,
        price,
    };
    proof {
        lemma_addition_grows(ctx.slots@, slot);
        if slots_disjoint(ctx.slots@) {
            lemma_push_keeps_disjoint(ctx.slots@, slot);
        }
    }
    ctx.slots.push(slot);
    ctx.experience.time_slot_count = count;
    Ok(slot)
}

} // verus!
