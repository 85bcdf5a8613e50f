use vstd::prelude::*;
use crate::accounts::{BookSlot, CancelReservation, UpdateReservation};
use crate::build_metadata::{build_metadata_ix, is_metadata_instruction};
use crate::instruction::{
    create_mint_account_instruction, initialize_mint_instruction, mint_account_creation,
    mint_initialisation, steps_view, transfer_instruction, transfer_of, Step, StepView,
    SPL_TOKEN_PROGRAM_ID,
};
use crate::error::ErrorCode;
use crate::events::{ReservationCancelled, ReservationCreated, ReservationUpdated};
use crate::nft_metadata::{
    create_metadata_uri, lemma_encoded_len, symbol_of, template_uri, token_symbol,
};
use crate::state::{Reservation, TimeSlotAccount};
use crate::wallet::{transfer, Transfer, Wallet};

verus! {

/// How many tokens a booking issues.
pub const TOKENS_PER_BOOKING: u64 = 1;

/// What a booking hands back: the notice for observers, the payment that
/// settles it, and the steps that carry it out, in the order in which they are
/// to be taken.
#[derive(Clone, Debug, PartialEq, Eq)]
pub struct Booking {
    pub event: ReservationCreated,
    /// The slot's price, from the user to the organiser.
    pub payment: Transfer,
    pub steps: Vec<Step>,
}

/// Why a booking is refused, if it is: the slot is taken, the user cannot pay
/// the slot's price, or no token can be issued because the token program is
/// not the SPL token program, in this order.
pub open spec fn book_slot_rejection(ctx: BookSlot) -> Option<ErrorCode> {
    if ctx.slot.is_booked {
        Some(ErrorCode::AlreadyBooked)
    } else if ctx.user.lamports < ctx.slot.price {
        Some(ErrorCode::InsufficientFunds)
    } else if ctx.token_program.bytes != SPL_TOKEN_PROGRAM_ID {
        Some(ErrorCode::TokenIssuanceFailed)
    } else {
        None
    }
}

/// The reservation that a booking records.
pub open spec fn booked_reservation(ctx: BookSlot, start_time: i64) -> Reservation {
    Reservation {
        experience_id: ctx.experience_key,
        user: ctx.user.key,
        time_slot: start_time,
        nft_mint: ctx.mint,
        start_time: ctx.slot.start_time,
        end_time: ctx.slot.end_time,
        is_active: true,
    }
}

/// The state that a booking leaves: the price has moved from the user to the
/// organiser, the slot is taken, and the reservation is on record.
pub open spec fn after_booking(ctx: BookSlot, start_time: i64) -> BookSlot {
    BookSlot {
        user: ctx.user.debited(ctx.slot.price as int),
        organiser: ctx.organiser.credited(ctx.slot.price as int),
        slot: TimeSlotAccount { is_booked: true, ..ctx.slot },
        reservation: Some(booked_reservation(ctx, start_time)),
        ..ctx
    }
}

/// The notice of a booking.
pub open spec fn booking_event(ctx: BookSlot, start_time: i64) -> ReservationCreated {
    ReservationCreated {
        user: ctx.user.key,
        reservation: ctx.reservation_key,
        nft_mint: ctx.mint,
        start_time,
    }
}

/// The payment of a booking.
pub open spec fn booking_payment(ctx: BookSlot) -> Transfer {
    Transfer { from: ctx.user.key, to: ctx.organiser.key, lamports: ctx.slot.price }
}

/// Whether these are the steps of a booking, in order: the payment is made,
/// the account of the token's mint is created and paid for by the user, the
/// mint is initialised without decimals and with the user as its authority, the
/// user's token account is created, one token is minted into it, and the
/// descriptor is attached to the token.
pub open spec fn are_booking_steps(steps: Seq<StepView>, ctx: BookSlot, mint_rent: u64) -> bool {
    &&& steps.len() == 6
    &&& steps[0] == StepView::Invoke(transfer_of(booking_payment(ctx)))
    &&& steps[1] == StepView::Invoke(
        mint_account_creation(ctx.user.key, ctx.mint, mint_rent, ctx.token_program),
    )
    &&& steps[2] == StepView::Invoke(
        mint_initialisation(ctx.token_program, ctx.mint, ctx.user.key),
    )
    &&& steps[3] == (StepView::CreateTokenAccount {
        payer: ctx.user.key,
        token_account: ctx.user_nft_account,
        owner: ctx.user.key,
        mint: ctx.mint,
    })
    &&& steps[4] == (StepView::MintTo {
        mint: ctx.mint,
        to: ctx.user_nft_account,
        authority: ctx.user.key,
        amount: TOKENS_PER_BOOKING,
    })
    &&& steps[5] matches StepView::Invoke(ix) && is_metadata_instruction(
        ix,
        ctx,
        template_uri(),
        symbol_of(ctx.experience.title@),
    )
}

/// Claims the slot for the user: the user pays the slot's price to the
/// organiser, the slot is marked as booked, and an active reservation is
/// recorded under `start_time` with the slot's bounds and the token's address.
/// The token's mint is to hold `mint_rent` lamports. The steps handed back
/// issue one token to the user and attach its descriptor. Either all of this
/// happens or, when the booking is refused, nothing does: no payment, no change
/// to the slot, no reservation, no step.
pub fn book_slot(ctx: &mut BookSlot, start_time: i64, mint_rent: u64) -> (r: Result<
    Booking,
    ErrorCode,
>)
    requires
        old(ctx).wf(),
    ensures
        match r {
            Ok(booking) => {
                &&& book_slot_rejection(*old(ctx)) is None
                &&& *final(ctx) == after_booking(*old(ctx), start_time)
                &&& booking.event == booking_event(*old(ctx), start_time)
                &&& booking.payment == booking_payment(*old(ctx))
                &&& are_booking_steps(steps_view(booking.steps@), *old(ctx), mint_rent)
            },
            Err(e) => {
                &&& book_slot_rejection(*old(ctx)) == Some(e)
                &&& *final(ctx) == *old(ctx)
            },
        },
        final(ctx).wf(),
{
    if ctx.slot.is_booked {
        return Err(ErrorCode::AlreadyBooked);
    }
    if ctx.user.lamports < ctx.slot.price {
        return Err(ErrorCode::InsufficientFunds);
    }
    let initialize_mint_ix = match initialize_mint_instruction(
        &ctx.token_program,
        &ctx.mint,
        &ctx.user.key,
    ) {
        Some(ix) => ix,
        None => {
            return Err(ErrorCode::TokenIssuanceFailed);
        },
    };
    let create_mint_ix = create_mint_account_instruction(
        &ctx.user.key,
        &ctx.mint,
        mint_rent,
        &ctx.token_program,
    );
    let metadata_uri = create_metadata_uri(
        &ctx.experience,
        ctx.slot.start_time,
        ctx.slot.end_time,
    );
    let symbol = token_symbol(ctx.experience.title.as_str());
    proof {
        reveal_strlit(
            "https://raw.githubusercontent.com/JkrishnaD/slot-mint-asset/main/metadata/template.json",
        );
        lemma_encoded_len(metadata_uri@);
        lemma_encoded_len(symbol@);
        lemma_encoded_len(ctx.experience.title@);
    }
    let metadata_ix = build_metadata_ix(ctx, metadata_uri, symbol);
    let price = ctx.slot.price;
    let payment = match transfer(&mut ctx.user, &mut ctx.organiser, price) {
        Ok(leg) => leg,
        Err(e) => {
            return Err(e);
        },
    };
    let payment_ix = transfer_instruction(&payment);
    ctx.slot.mark_booked();
    ctx.reservation = Some(
        Reservation {
            experience_id: ctx.experience_key,
            user: ctx.user.key,
            time_slot: start_time,
            nft_mint: ctx.mint,
            start_time: ctx.slot.start_time,
            end_time: ctx.slot.end_time,
            is_active: true,
        },
    );
    let event = ReservationCreated {
        user: ctx.user.key,
        reservation: ctx.reservation_key,
        nft_mint: ctx.mint,
        start_time,
    };
    let mut steps: Vec<Step> = Vec::new();
    steps.push(Step::Invoke(payment_ix));
    steps.push(Step::Invoke(create_mint_ix));
    steps.push(Step::Invoke(initialize_mint_ix));
    steps.push(
        Step::CreateTokenAccount {
            payer: ctx.user.key,
            token_account: ctx.user_nft_account,
            owner: ctx.user.key,
            mint: ctx.mint,
        },
    );
    steps.push(
        Step::MintTo {
            mint: ctx.mint,
            to: ctx.user_nft_account,
            authority: ctx.user.key,
            amount: TOKENS_PER_BOOKING,
        },
    );
    steps.push(Step::Invoke(metadata_ix));
    Ok(Booking { event, payment, steps })
}

/// Seconds of notice that a cancellation must give before the slot starts.
pub const MINIMUM_NOTICE_SECONDS: i64 = 86400;

/// What a cancellation hands back: the notice for observers, the two legs
/// that settle it, and the steps that make them, in the order in which they are
/// to be taken.
#[derive(Clone, Debug, PartialEq, Eq)]
pub struct Cancellation {
    pub event: ReservationCancelled,
    /// The price less the fee, from the organiser to the user.
    pub refund: Transfer,
    /// The fee, from the user to the organiser.
    pub fee: Transfer,
    pub steps: Vec<Step>,
}

/// The fee for cancelling a slot of this price: the given percentage of the
/// price, rounded down.
pub open spec fn fee_of(price: u64, percent: u64) -> int {
    price * percent / 100
}

/// What the organiser hands back when a slot of this price is cancelled.
pub open spec fn refund_of(price: u64, percent: u64) -> int {
    price - fee_of(price, percent)
}

/// A fee of at most a hundred percent is at most the price.
pub proof fn lemma_fee_bounds(price: u64, percent: u64)
    requires
        percent <= 100,
    ensures
        0 <= fee_of(price, percent) <= price,
        0 <= refund_of(price, percent) <= price,
        price * percent <= u64::MAX * 100,
{
    assert(0 <= price * percent <= price * 100) by (nonlinear_arith)
        requires
            0 <= price,
            0 <= percent <= 100,
    ;
    assert(price * 100 <= u64::MAX * 100);
}

/// The fee for cancelling a slot of this price. The product is formed in 128
/// bits, so that no price is too high for it.
pub fn cancellation_fee(price: u64, percent: u64) -> (fee: u64)
    requires
        percent <= 100,
    ensures
        fee == fee_of(price, percent),
        fee <= price,
{
    proof {
        lemma_fee_bounds(price, percent);
    }
    let product: u128 = (price as u128) * (percent as u128);
    (product / 100) as u64
}

/// Whether less than the minimum notice is left at `current_time` before a
/// slot that starts at `start_time`.
pub open spec fn too_late_to_cancel(start_time: i64, current_time: i64) -> bool {
    start_time - current_time < MINIMUM_NOTICE_SECONDS
}

/// Why a cancellation is refused, if it is: the reservation is not active, the
/// caller is not its user, the notice is too short, or one of the two legs
/// cannot be paid, in this order.
pub open spec fn cancel_rejection(ctx: CancelReservation, current_time: i64) -> Option<ErrorCode> {
    let fee = fee_of(ctx.slot.price, ctx.experience.cancellation_fee_percent);
    let refund = refund_of(ctx.slot.price, ctx.experience.cancellation_fee_percent);
    if !ctx.reservation.is_active {
        Some(ErrorCode::InvalidReservation)
    } else if ctx.reservation.user != ctx.user.key {
        Some(ErrorCode::Unauthorized)
    } else if too_late_to_cancel(ctx.slot.start_time, current_time) {
        Some(ErrorCode::TooLateToCancel)
    } else if ctx.organiser.lamports < refund {
        Some(ErrorCode::InsufficientFunds)
    } else if ctx.user.lamports + refund < fee {
        Some(ErrorCode::InsufficientFunds)
    } else {
        None
    }
}

/// The state that a cancellation leaves: the refund has moved to the user and
/// the fee back to the organiser, the slot is free, and the reservation is no
/// longer active.
pub open spec fn after_cancellation(ctx: CancelReservation) -> CancelReservation {
    let fee = fee_of(ctx.slot.price, ctx.experience.cancellation_fee_percent);
    let refund = refund_of(ctx.slot.price, ctx.experience.cancellation_fee_percent);
    CancelReservation {
        user: ctx.user.credited(refund).debited(fee),
        organiser: ctx.organiser.debited(refund).credited(fee),
        slot: TimeSlotAccount { is_booked: false, ..ctx.slot },
        reservation: Reservation { is_active: false, ..ctx.reservation },
        ..ctx
    }
}

/// The notice of a cancellation.
pub open spec fn cancellation_event(ctx: CancelReservation) -> ReservationCancelled {
    ReservationCancelled {
        user: ctx.user.key,
        reservation: ctx.reservation_key,
        cancellation_fee: fee_of(ctx.slot.price, ctx.experience.cancellation_fee_percent) as u64,
    }
}

/// The first leg of a cancellation: the organiser hands the refund to the user.
pub open spec fn refund_leg(ctx: CancelReservation) -> Transfer {
    Transfer {
        from: ctx.organiser.key,
        to: ctx.user.key,
        lamports: refund_of(ctx.slot.price, ctx.experience.cancellation_fee_percent) as u64,
    }
}

/// The second leg of a cancellation: the user pays the fee to the organiser.
pub open spec fn fee_leg(ctx: CancelReservation) -> Transfer {
    Transfer {
        from: ctx.user.key,
        to: ctx.organiser.key,
        lamports: fee_of(ctx.slot.price, ctx.experience.cancellation_fee_percent) as u64,
    }
}

/// The steps of a cancellation, in order: the refund is made, then the fee is
/// paid.
pub open spec fn cancellation_steps(ctx: CancelReservation) -> Seq<StepView> {
    seq![
        StepView::Invoke(transfer_of(refund_leg(ctx))),
        StepView::Invoke(transfer_of(fee_leg(ctx))),
    ]
}

/// Cancels the user's reservation at `current_time`. The organiser refunds the
/// slot's price less the cancellation fee, the user then pays the fee, the slot
/// becomes free and the reservation inactive. Both legs are made, also when the
/// fee is nothing. Either all of this happens or, when the cancellation is
/// refused, nothing does.
pub fn cancel_reservation(ctx: &mut CancelReservation, current_time: i64) -> (r: Result<
    Cancellation,
    ErrorCode,
>)
    requires
        old(ctx).wf(),
    ensures
        match r {
            Ok(cancellation) => {
                &&& cancel_rejection(*old(ctx), current_time) is None
                &&& *final(ctx) == after_cancellation(*old(ctx))
                &&& cancellation.event == cancellation_event(*old(ctx))
                &&& cancellation.refund == refund_leg(*old(ctx))
                &&& cancellation.fee == fee_leg(*old(ctx))
                &&& steps_view(cancellation.steps@) == cancellation_steps(*old(ctx))
            },
            Err(e) => {
                &&& cancel_rejection(*old(ctx), current_time) == Some(e)
                &&& *final(ctx) == *old(ctx)
            },
        },
        final(ctx).wf(),
{
    if !ctx.reservation.is_active {
        return Err(ErrorCode::InvalidReservation);
    }
    if !(ctx.reservation.user == ctx.user.key) {
        return Err(ErrorCode::Unauthorized);
    }
    if (ctx.slot.start_time as i128) - (current_time as i128) < (MINIMUM_NOTICE_SECONDS as i128) {
        return Err(ErrorCode::TooLateToCancel);
    }
    let fee = cancellation_fee(ctx.slot.price, ctx.experience.cancellation_fee_percent);
    let refund_due = ctx.slot.price - fee;
    let user_before: Wallet = ctx.user;
    let organiser_before: Wallet = ctx.organiser;
    let refund = match transfer(&mut ctx.organiser, &mut ctx.user, refund_due) {
        Ok(leg) => leg,
        Err(e) => {
            return Err(e);
        },
    };
    let fee_paid = match transfer(&mut ctx.user, &mut ctx.organiser, fee) {
        Ok(leg) => leg,
        Err(e) => {
            ctx.user = user_before;
            ctx.organiser = organiser_before;
            return Err(e);
        },
    };
    ctx.slot.mark_free();
    ctx.reservation.is_active = false;
    let event = ReservationCancelled {
        user: ctx.user.key,
        reservation: ctx.reservation_key,
        cancellation_fee: fee,
    };
    let refund_ix = transfer_instruction(&refund);
    let fee_ix = transfer_instruction(&fee_paid);
    let mut steps: Vec<Step> = Vec::new();
    steps.push(Step::Invoke(refund_ix));
    steps.push(Step::Invoke(fee_ix));
    assert(steps_view(steps@) =~= cancellation_steps(*old(ctx)));
    Ok(Cancellation { event, refund, fee: fee_paid, steps })
}

/// Why a move to another slot is refused, if it is: the reservation is not
/// active, the caller is not its user, or the new slot is taken, in this order.
pub open spec fn update_rejection(ctx: UpdateReservation) -> Option<ErrorCode> {
    if !ctx.reservation.is_active {
        Some(ErrorCode::AlreadyCancelled)
    } else if ctx.reservation.user != ctx.user {
        Some(ErrorCode::Unauthorized)
    } else if ctx.new_slot.is_booked {
        Some(ErrorCode::AlreadyBooked)
    } else {
        None
    }
}

/// The state that a move leaves: the old slot is free, the new one is taken,
/// and the reservation is filed under `new_start_time` with the new slot's
/// bounds.
pub open spec fn after_update(ctx: UpdateReservation, new_start_time: i64) -> UpdateReservation {
    UpdateReservation {
        old_slot: TimeSlotAccount { is_booked: false, ..ctx.old_slot },
        new_slot: TimeSlotAccount { is_booked: true, ..ctx.new_slot },
        reservation: Reservation {
            time_slot: new_start_time,
            start_time: ctx.new_slot.start_time,
            end_time: ctx.new_slot.end_time,
            ..ctx.reservation
        },
        ..ctx
    }
}

/// Moves the user's reservation from its slot to a free one. No payment is
/// made, whatever the two prices are. Either the old slot is freed, the new one
/// taken and the reservation rewritten, or, when the move is refused, nothing
/// changes.
pub fn update_reservation(ctx: &mut UpdateReservation, new_start_time: i64) -> (r: Result<
    ReservationUpdated,
    ErrorCode,
>)
    ensures
        match r {
            Ok(event) => {
                &&& update_rejection(*old(ctx)) is None
                &&& *final(ctx) == after_update(*old(ctx), new_start_time)
                &&& event == (ReservationUpdated {
                    user: old(ctx).user,
                    reservation: old(ctx).reservation_key,
                    new_start_time,
                })
            },
            Err(e) => {
                &&& update_rejection(*old(ctx)) == Some(e)
                &&& *final(ctx) == *old(ctx)
            },
        },
{
    if !ctx.reservation.is_active {
        return Err(ErrorCode::AlreadyCancelled);
    }
    if !(ctx.reservation.user == ctx.user) {
        return Err(ErrorCode::Unauthorized);
    }
    if ctx.new_slot.is_booked {
        return Err(ErrorCode::AlreadyBooked);
    }
    ctx.old_slot.mark_free();
    ctx.new_slot.mark_booked();
    ctx.reservation.time_slot = new_start_time;
    ctx.reservation.start_time = ctx.new_slot.start_time;
    ctx.reservation.end_time = ctx.new_slot.end_time;
    Ok(ReservationUpdated { user: ctx.user, reservation: ctx.reservation_key, new_start_time })
}

} // verus!
