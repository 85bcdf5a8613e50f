use vstd::prelude::*;
use crate::accounts::{BookSlot, CancelReservation, UpdateReservation};
use crate::error::ErrorCode;
use crate::instruction::SPL_TOKEN_PROGRAM_ID;
use crate::reservations::{
    after_booking, after_cancellation, after_update, book_slot_rejection, cancel_rejection, fee_of,
    lemma_fee_bounds, refund_of, update_rejection, MINIMUM_NOTICE_SECONDS,
};
use crate::slots::{grown_by_additions, overlaps_existing, slots_disjoint};
use crate::state::TimeSlotAccount;

verus! {

/// Growth by additions composes: additions after additions are additions.
pub proof fn lemma_growth_composes(
    first: Seq<TimeSlotAccount>,
    second: Seq<TimeSlotAccount>,
    third: Seq<TimeSlotAccount>,
)
    requires
        grown_by_additions(first, second),
        grown_by_additions(second, third),
    ensures
        grown_by_additions(first, third),
{
    assert(third.take(first.len() as int) == first) by {
        assert(third.take(second.len() as int).take(first.len() as int) == third.take(
            first.len() as int,
        ));
    }
    assert forall|k: int| first.len() <= k < third.len() implies !overlaps_existing(
        third.take(k),
        (#[trigger] third[k]).experience,
        third[k].start_time,
        third[k].end_time,
    ) by {
        if k < second.len() {
            assert(third[k] == third.take(second.len() as int)[k]);
            assert(third.take(k) == second.take(k)) by {
                assert(third.take(second.len() as int).take(k) == third.take(k));
            }
        }
    }
}

/// Whatever slots are added, and in whatever order, the slots of one
/// experience never share a moment: slots that were apart are still apart
/// after any number of accepted additions.
pub proof fn lemma_additions_keep_slots_apart(
    before: Seq<TimeSlotAccount>,
    slots: Seq<TimeSlotAccount>,
)
    requires
        slots_disjoint(before),
        grown_by_additions(before, slots),
    ensures
        slots_disjoint(slots),
{
    assert forall|i: int, j: int|
        #![trigger slots[i], slots[j]]
        0 <= i < j < slots.len() implies !slots[i].overlaps(slots[j]) by {
        if j < before.len() {
            assert(slots[i] == before[i] && slots[j] == before[j]);
        } else {
            assert(slots.take(j)[i] == slots[i]);
        }
    }
}

/// Slots that were added to an experience without slots, in whatever order,
/// never share a moment.
pub proof fn lemma_slots_added_to_none_are_apart(slots: Seq<TimeSlotAccount>)
    requires
        grown_by_additions(Seq::empty(), slots),
    ensures
        slots_disjoint(slots),
{
    lemma_additions_keep_slots_apart(Seq::empty(), slots);
}

/// A slot is booked at most once: once a booking has gone through, every
/// further booking of the slot is refused as already booked, whoever asks.
pub proof fn lemma_slot_books_at_most_once(first: BookSlot, start_time: i64, second: BookSlot)
    requires
        book_slot_rejection(first) is None,
        second.slot == after_booking(first, start_time).slot,
    ensures
        book_slot_rejection(second) == Some(ErrorCode::AlreadyBooked),
{
}

/// A booking moves exactly the slot's price from the user to the organiser.
pub proof fn lemma_booking_moves_the_price(ctx: BookSlot, start_time: i64)
    requires
        ctx.wf(),
        book_slot_rejection(ctx) is None,
    ensures
        after_booking(ctx, start_time).user.lamports == ctx.user.lamports - ctx.slot.price,
        after_booking(ctx, start_time).organiser.lamports == ctx.organiser.lamports
            + ctx.slot.price,
{
}

/// A cancellation moves the refund to the user and the fee back to the
/// organiser: the user ends with the refund less the fee more than before, the
/// organiser with as much less, and fee and refund together are the price.
pub proof fn lemma_cancellation_settles(ctx: CancelReservation, current_time: i64)
    requires
        ctx.wf(),
        cancel_rejection(ctx, current_time) is None,
    ensures
        ({
            let fee = fee_of(ctx.slot.price, ctx.experience.cancellation_fee_percent);
            let refund = refund_of(ctx.slot.price, ctx.experience.cancellation_fee_percent);
            &&& fee + refund == ctx.slot.price
            &&& after_cancellation(ctx).user.lamports == ctx.user.lamports + refund - fee
            &&& after_cancellation(ctx).organiser.lamports == ctx.organiser.lamports - refund + fee
        }),
{
    lemma_fee_bounds(ctx.slot.price, ctx.experience.cancellation_fee_percent);
}

/// Booking a slot and then cancelling the reservation costs the user the fee
/// twice and earns the organiser as much: the price goes one way, the refund
/// comes back without the fee, and the fee is then paid once more.
pub proof fn lemma_book_then_cancel(
    book: BookSlot,
    start_time: i64,
    cancel: CancelReservation,
    current_time: i64,
)
    requires
        book.wf(),
        book_slot_rejection(book) is None,
        cancel.user == after_booking(book, start_time).user,
        cancel.organiser == after_booking(book, start_time).organiser,
        cancel.experience == book.experience,
        cancel.slot == after_booking(book, start_time).slot,
        Some(cancel.reservation) == after_booking(book, start_time).reservation,
        cancel_rejection(cancel, current_time) is None,
    ensures
        ({
            let fee = fee_of(book.slot.price, book.experience.cancellation_fee_percent);
            &&& after_cancellation(cancel).user.lamports == book.user.lamports - 2 * fee
            &&& after_cancellation(cancel).organiser.lamports == book.organiser.lamports + 2 * fee
            &&& !after_cancellation(cancel).slot.is_booked
            &&& !after_cancellation(cancel).reservation.is_active
        }),
{
    lemma_fee_bounds(book.slot.price, book.experience.cancellation_fee_percent);
}

/// Where no token can be issued, the booking is refused, whatever else
/// holds: no payment is made, the slot stays as it was, and no reservation is
/// recorded. Where nothing else stood in the way, that is the reason given.
pub proof fn lemma_failed_issuance_refuses(ctx: BookSlot)
    requires
        ctx.token_program.bytes != SPL_TOKEN_PROGRAM_ID,
    ensures
        book_slot_rejection(ctx) is Some,
        !ctx.slot.is_booked && ctx.user.lamports >= ctx.slot.price ==> book_slot_rejection(ctx)
            == Some(ErrorCode::TokenIssuanceFailed),
{
}

/// A reservation that is no longer active cannot be cancelled, whoever asks
/// and whenever.
pub proof fn lemma_inactive_reservation_stays_cancelled(
    ctx: CancelReservation,
    current_time: i64,
)
    requires
        !ctx.reservation.is_active,
    ensures
        cancel_rejection(ctx, current_time) == Some(ErrorCode::InvalidReservation),
{
}

/// The user of an active reservation may cancel up to and including the
/// moment that lies the minimum notice before the slot's start, and no later:
/// after that moment the cancellation is refused as too late, and until then it
/// goes through whenever both legs can be paid.
pub proof fn lemma_cancellation_deadline(ctx: CancelReservation, current_time: i64)
    requires
        ctx.reservation.is_active,
        ctx.reservation.user == ctx.user.key,
    ensures
        current_time > ctx.slot.start_time - MINIMUM_NOTICE_SECONDS ==> cancel_rejection(
            ctx,
            current_time,
        ) == Some(ErrorCode::TooLateToCancel),
        current_time <= ctx.slot.start_time - MINIMUM_NOTICE_SECONDS ==> (cancel_rejection(
            ctx,
            current_time,
        ) is None <==> {
            let fee = fee_of(ctx.slot.price, ctx.experience.cancellation_fee_percent);
            let refund = refund_of(ctx.slot.price, ctx.experience.cancellation_fee_percent);
            ctx.organiser.lamports >= refund && ctx.user.lamports + refund >= fee
        }),
{
}

/// A move hands the claim from the old slot to the new one: afterwards the old
/// slot is free and the new one taken, never both taken or both free.
pub proof fn lemma_update_moves_the_claim(ctx: UpdateReservation, new_start_time: i64)
    requires
        update_rejection(ctx) is None,
    ensures
        !after_update(ctx, new_start_time).old_slot.is_booked,
        after_update(ctx, new_start_time).new_slot.is_booked,
        after_update(ctx, new_start_time).reservation.is_active,
        after_update(ctx, new_start_time).reservation.user == ctx.reservation.user,
{
}

/// No settlement makes or loses lamports: what the user and the organiser
/// hold together is the same after a booking as before, and the same after a
/// cancellation as before.
pub proof fn lemma_settlements_conserve_lamports(
    book: BookSlot,
    start_time: i64,
    cancel: CancelReservation,
    current_time: i64,
)
    requires
        book.wf(),
        cancel.wf(),
    ensures
        book_slot_rejection(book) is None ==> after_booking(book, start_time).user.lamports
            + after_booking(book, start_time).organiser.lamports == book.user.lamports
            + book.organiser.lamports,
        cancel_rejection(cancel, current_time) is None ==> after_cancellation(cancel).user.lamports
            + after_cancellation(cancel).organiser.lamports == cancel.user.lamports
            + cancel.organiser.lamports,
{
    lemma_fee_bounds(cancel.slot.price, cancel.experience.cancellation_fee_percent);
}

/// A reservation stays with the user who booked it, with its experience and
/// with its token: neither a cancellation nor a move to another slot changes
/// them.
pub proof fn lemma_reservation_keeps_its_owner(
    cancel: CancelReservation,
    update: UpdateReservation,
    new_start_time: i64,
)
    ensures
        after_cancellation(cancel).reservation.user == cancel.reservation.user,
        after_cancellation(cancel).reservation.experience_id == cancel.reservation.experience_id,
        after_cancellation(cancel).reservation.nft_mint == cancel.reservation.nft_mint,
        after_update(update, new_start_time).reservation.user == update.reservation.user,
        after_update(update, new_start_time).reservation.experience_id
            == update.reservation.experience_id,
        after_update(update, new_start_time).reservation.nft_mint == update.reservation.nft_mint,
{
}

} // verus!
