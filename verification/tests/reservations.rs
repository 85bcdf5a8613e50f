use reservation_ledger::{
    book_slot, cancel_reservation, cancellation_fee, update_reservation, BookSlot,
    CancelReservation, ErrorCode, Experience, Pubkey, Reservation, ReservationCancelled,
    ReservationCreated, ReservationUpdated, TimeSlotAccount, Transfer, UpdateReservation, Wallet,
    MINIMUM_NOTICE_SECONDS, SPL_TOKEN_PROGRAM_ID,
};

const START: i64 = 2_000_000;
const END: i64 = 2_003_600;
const DAY: i64 = 86_400;
const RENT: u64 = 1_461_600;

fn id(tag: u8) -> Pubkey {
    Pubkey::new_from_array([tag; 32])
}

fn workshop(fee_percent: u64) -> Experience {
    Experience {
        organiser: id(1),
        title: "Pottery".to_string(),
        description: "Throw a bowl".to_string(),
        location: Some("Studio".to_string()),
        price_lamports: 1000,
        cancellation_fee_percent: fee_percent,
        time_slot_count: 1,
    }
}

fn free_slot(price: u64) -> TimeSlotAccount {
    TimeSlotAccount { experience: id(3), start_time: START, end_time: END, is_booked: false, price }
}

fn booking_of(price: u64, user_funds: u64, organiser_funds: u64) -> BookSlot {
    BookSlot {
        user: Wallet { key: id(2), lamports: user_funds },
        organiser: Wallet { key: id(1), lamports: organiser_funds },
        experience_key: id(3),
        experience: workshop(10),
        slot: free_slot(price),
        reservation_key: id(4),
        reservation: None,
        mint: id(5),
        user_nft_account: id(12),
        metadata: id(6),
        master_edition: id(7),
        system_program: id(0),
        token_program: Pubkey::new_from_array(SPL_TOKEN_PROGRAM_ID),
    }
}

fn claim() -> Reservation {
    Reservation {
        experience_id: id(3),
        user: id(2),
        time_slot: START,
        nft_mint: id(5),
        start_time: START,
        end_time: END,
        is_active: true,
    }
}

fn cancelling(price: u64, fee_percent: u64, user_funds: u64, organiser_funds: u64)
    -> CancelReservation {
    CancelReservation {
        user: Wallet { key: id(2), lamports: user_funds },
        organiser: Wallet { key: id(1), lamports: organiser_funds },
        experience: workshop(fee_percent),
        reservation_key: id(4),
        reservation: claim(),
        slot: TimeSlotAccount { is_booked: true, ..free_slot(price) },
    }
}

fn moving() -> UpdateReservation {
    UpdateReservation {
        user: id(2),
        reservation_key: id(4),
        reservation: claim(),
        old_slot: TimeSlotAccount { is_booked: true, ..free_slot(1000) },
        new_slot: TimeSlotAccount {
            experience: id(3),
            start_time: START + 7200,
            end_time: END + 7200,
            is_booked: false,
            price: 4000,
        },
    }
}

#[test]
fn booking_pays_the_organiser_and_records_the_claim() {
    let mut ctx = booking_of(1000, 1500, 40);
    let booking = book_slot(&mut ctx, START, RENT).unwrap();
    assert_eq!(ctx.user, Wallet { key: id(2), lamports: 500 });
    assert_eq!(ctx.organiser, Wallet { key: id(1), lamports: 1040 });
    assert!(ctx.slot.is_booked);
    assert_eq!(ctx.slot, TimeSlotAccount { is_booked: true, ..free_slot(1000) });
    assert_eq!(ctx.reservation, Some(claim()));
    assert_eq!(
        booking.event,
        ReservationCreated { user: id(2), reservation: id(4), nft_mint: id(5), start_time: START }
    );
    assert_eq!(booking.payment, Transfer { from: id(2), to: id(1), lamports: 1000 });
    assert_eq!(ctx.experience, workshop(10));
}

#[test]
fn reservation_is_filed_under_the_given_start_time() {
    let mut ctx = booking_of(1000, 1500, 40);
    let booking = book_slot(&mut ctx, START + 5, RENT).unwrap();
    let reservation = ctx.reservation.unwrap();
    assert_eq!(reservation.time_slot, START + 5);
    assert_eq!(reservation.start_time, START);
    assert_eq!(reservation.end_time, END);
    assert_eq!(booking.event.start_time, START + 5);
}

#[test]
fn user_may_spend_the_last_lamport() {
    let mut ctx = booking_of(1000, 1000, 0);
    assert!(book_slot(&mut ctx, START, RENT).is_ok());
    assert_eq!(ctx.user.lamports, 0);
    assert_eq!(ctx.organiser.lamports, 1000);
}

#[test]
fn booking_without_funds_is_refused() {
    let mut ctx = booking_of(1000, 999, 40);
    let before = ctx.clone();
    assert_eq!(book_slot(&mut ctx, START, RENT), Err(ErrorCode::InsufficientFunds));
    assert_eq!(ctx, before);
}

#[test]
fn booked_slot_cannot_be_booked_again() {
    let mut ctx = booking_of(1000, 5000, 40);
    book_slot(&mut ctx, START, RENT).unwrap();
    let after_first = ctx.clone();
    assert_eq!(book_slot(&mut ctx, START, RENT), Err(ErrorCode::AlreadyBooked));
    assert_eq!(ctx, after_first);

    // Nor by anybody else, rich or poor.
    let mut other = booking_of(1000, 1_000_000, 40);
    other.user.key = id(9);
    other.reservation_key = id(8);
    other.slot = after_first.slot;
    let before = other.clone();
    assert_eq!(book_slot(&mut other, START, RENT), Err(ErrorCode::AlreadyBooked));
    assert_eq!(other, before);
    other.user.lamports = 0;
    assert_eq!(book_slot(&mut other, START, RENT), Err(ErrorCode::AlreadyBooked));
}

#[test]
fn failed_issuance_leaves_no_trace() {
    let mut ctx = booking_of(1000, 5000, 40);
    ctx.token_program = id(77);
    let before = ctx.clone();
    assert_eq!(book_slot(&mut ctx, START, RENT), Err(ErrorCode::TokenIssuanceFailed));
    assert_eq!(ctx, before);
    assert!(!ctx.slot.is_booked);
    assert_eq!(ctx.reservation, None);
    assert_eq!(ctx.user.lamports, 5000);
    assert_eq!(ctx.organiser.lamports, 40);

    // With the token program in place the same booking goes through.
    ctx.token_program = Pubkey::new_from_array(SPL_TOKEN_PROGRAM_ID);
    assert!(book_slot(&mut ctx, START, RENT).is_ok());
}

#[test]
fn lack_of_funds_is_reported_before_failed_issuance() {
    let mut ctx = booking_of(1000, 10, 40);
    ctx.token_program = id(77);
    assert_eq!(book_slot(&mut ctx, START, RENT), Err(ErrorCode::InsufficientFunds));
    ctx.slot.is_booked = true;
    assert_eq!(book_slot(&mut ctx, START, RENT), Err(ErrorCode::AlreadyBooked));
}

#[test]
fn booking_needs_balances_that_fit_together() {
    let mut ctx = booking_of(1000, u64::MAX, 1);
    assert!(!ctx.is_well_formed());
    ctx.organiser.lamports = 0;
    assert!(ctx.is_well_formed());
    assert!(book_slot(&mut ctx, START, RENT).is_ok());
    assert_eq!(ctx.user.lamports, u64::MAX - 1000);
    assert_eq!(ctx.organiser.lamports, 1000);
    ctx.experience.title = String::new();
    assert!(!ctx.is_well_formed());
}

#[test]
fn fee_is_the_percentage_rounded_down() {
    assert_eq!(cancellation_fee(1000, 10), 100);
    assert_eq!(cancellation_fee(2000, 10), 200);
    assert_eq!(cancellation_fee(999, 33), 329);
    assert_eq!(cancellation_fee(1, 99), 0);
    assert_eq!(cancellation_fee(199, 50), 99);
    assert_eq!(cancellation_fee(1000, 0), 0);
    assert_eq!(cancellation_fee(1000, 100), 1000);
    assert_eq!(cancellation_fee(0, 100), 0);
}

#[test]
fn fee_of_the_highest_price_does_not_overflow() {
    assert_eq!(cancellation_fee(u64::MAX, 100), u64::MAX);
    assert_eq!(cancellation_fee(u64::MAX, 50), u64::MAX / 2);
    assert_eq!(cancellation_fee(u64::MAX, 1), 184_467_440_737_095_516);
}

#[test]
fn cancellation_refunds_the_price_less_the_fee() {
    let mut ctx = cancelling(1000, 10, 500, 1040);
    let cancellation = cancel_reservation(&mut ctx, START - 2 * DAY).unwrap();
    assert_eq!(
        cancellation.event,
        ReservationCancelled { user: id(2), reservation: id(4), cancellation_fee: 100 }
    );
    assert_eq!(cancellation.refund, Transfer { from: id(1), to: id(2), lamports: 900 });
    assert_eq!(cancellation.fee, Transfer { from: id(2), to: id(1), lamports: 100 });
    assert_eq!(ctx.user.lamports, 500 + 900 - 100);
    assert_eq!(ctx.organiser.lamports, 1040 - 900 + 100);
    assert!(!ctx.slot.is_booked);
    assert_eq!(ctx.reservation, Reservation { is_active: false, ..claim() });
    assert_eq!(ctx.experience, workshop(10));
}

#[test]
fn booking_and_cancelling_costs_the_fee_twice() {
    let mut book = booking_of(1000, 1500, 40);
    book_slot(&mut book, START, RENT).unwrap();
    let mut cancel = CancelReservation {
        user: book.user,
        organiser: book.organiser,
        experience: book.experience.clone(),
        reservation_key: book.reservation_key,
        reservation: book.reservation.unwrap(),
        slot: book.slot,
    };
    cancel_reservation(&mut cancel, START - 2 * DAY).unwrap();
    // -1000 + 900 - 100
    assert_eq!(cancel.user.lamports, 1500 - 200);
    assert_eq!(cancel.organiser.lamports, 40 + 200);
}

#[test]
fn cancellation_without_fee_still_has_two_legs() {
    let mut ctx = cancelling(1000, 0, 0, 1000);
    let cancellation = cancel_reservation(&mut ctx, START - 2 * DAY).unwrap();
    assert_eq!(cancellation.event.cancellation_fee, 0);
    assert_eq!(cancellation.refund, Transfer { from: id(1), to: id(2), lamports: 1000 });
    assert_eq!(cancellation.fee, Transfer { from: id(2), to: id(1), lamports: 0 });
    assert_eq!(cancellation.steps.len(), 2);
    assert_eq!(ctx.user.lamports, 1000);
    assert_eq!(ctx.organiser.lamports, 0);
}

#[test]
fn cancellation_with_full_fee_refunds_nothing() {
    let mut ctx = cancelling(1000, 100, 1000, 0);
    let cancellation = cancel_reservation(&mut ctx, START - 2 * DAY).unwrap();
    assert_eq!(cancellation.refund.lamports, 0);
    assert_eq!(cancellation.fee.lamports, 1000);
    assert_eq!(ctx.user.lamports, 0);
    assert_eq!(ctx.organiser.lamports, 1000);
}

#[test]
fn inactive_reservation_cannot_be_cancelled() {
    let mut ctx = cancelling(1000, 10, 500, 1040);
    ctx.reservation.is_active = false;
    let before = ctx.clone();
    assert_eq!(cancel_reservation(&mut ctx, START - 2 * DAY), Err(ErrorCode::InvalidReservation));
    assert_eq!(ctx, before);
    // Neither too late, nor by a stranger, nor without funds.
    assert_eq!(cancel_reservation(&mut ctx, START), Err(ErrorCode::InvalidReservation));
    ctx.user.key = id(9);
    ctx.organiser.lamports = 0;
    assert_eq!(cancel_reservation(&mut ctx, START + DAY), Err(ErrorCode::InvalidReservation));
    assert_eq!(ctx.user.lamports, 500);
    assert!(ctx.slot.is_booked);
}

#[test]
fn only_the_user_cancels() {
    let mut ctx = cancelling(1000, 10, 500, 1040);
    ctx.user.key = id(9);
    let before = ctx.clone();
    assert_eq!(cancel_reservation(&mut ctx, START - 2 * DAY), Err(ErrorCode::Unauthorized));
    assert_eq!(ctx, before);
    // A stranger is told so even when it is too late.
    assert_eq!(cancel_reservation(&mut ctx, START), Err(ErrorCode::Unauthorized));
}

#[test]
fn cancellation_is_due_a_day_before_the_start() {
    assert_eq!(MINIMUM_NOTICE_SECONDS, 86_400);
    let mut late = cancelling(1000, 10, 500, 1040);
    let before = late.clone();
    assert_eq!(cancel_reservation(&mut late, START - DAY + 1), Err(ErrorCode::TooLateToCancel));
    assert_eq!(late, before);
    assert_eq!(cancel_reservation(&mut late, START), Err(ErrorCode::TooLateToCancel));
    assert_eq!(cancel_reservation(&mut late, START + DAY), Err(ErrorCode::TooLateToCancel));
    assert_eq!(cancel_reservation(&mut late, i64::MAX), Err(ErrorCode::TooLateToCancel));

    let mut on_time = cancelling(1000, 10, 500, 1040);
    assert!(cancel_reservation(&mut on_time, START - DAY).is_ok());
    let mut early = cancelling(1000, 10, 500, 1040);
    assert!(cancel_reservation(&mut early, i64::MIN).is_ok());
}

#[test]
fn deadline_is_exact_at_the_ends_of_time() {
    let mut ctx = cancelling(1000, 10, 500, 1040);
    ctx.slot.start_time = i64::MIN;
    assert_eq!(cancel_reservation(&mut ctx, i64::MIN), Err(ErrorCode::TooLateToCancel));
    assert_eq!(cancel_reservation(&mut ctx, i64::MAX), Err(ErrorCode::TooLateToCancel));
    ctx.slot.start_time = i64::MAX;
    assert_eq!(cancel_reservation(&mut ctx, i64::MAX - DAY + 1), Err(ErrorCode::TooLateToCancel));
    assert!(cancel_reservation(&mut ctx, i64::MAX - DAY).is_ok());
}

#[test]
fn organiser_must_hold_the_refund() {
    let mut ctx = cancelling(1000, 10, 500, 899);
    let before = ctx.clone();
    assert_eq!(cancel_reservation(&mut ctx, START - 2 * DAY), Err(ErrorCode::InsufficientFunds));
    assert_eq!(ctx, before);
    ctx.organiser.lamports = 900;
    assert!(cancel_reservation(&mut ctx, START - 2 * DAY).is_ok());
}

#[test]
fn user_must_hold_the_fee_after_the_refund() {
    // Refund 100, fee 900: the user holds 799 + 100 when the fee is due.
    let mut ctx = cancelling(1000, 90, 799, 100);
    let before = ctx.clone();
    assert_eq!(cancel_reservation(&mut ctx, START - 2 * DAY), Err(ErrorCode::InsufficientFunds));
    assert_eq!(ctx, before);
    ctx.user.lamports = 800;
    assert!(cancel_reservation(&mut ctx, START - 2 * DAY).is_ok());
    assert_eq!(ctx.user.lamports, 0);
    assert_eq!(ctx.organiser.lamports, 900);
}

#[test]
fn cancellation_needs_a_fee_of_at_most_a_hundred_percent() {
    let mut ctx = cancelling(1000, 101, 500, 1040);
    assert!(!ctx.is_well_formed());
    ctx.experience.cancellation_fee_percent = 100;
    assert!(ctx.is_well_formed());
    ctx.user.lamports = u64::MAX;
    assert!(!ctx.is_well_formed());
}

#[test]
fn refund_comes_from_the_organiser_of_the_experience() {
    let mut ctx = cancelling(1000, 10, 500, 1040);
    assert!(ctx.is_well_formed());
    ctx.organiser.key = id(9);
    assert!(!ctx.is_well_formed());
}

#[test]
fn update_moves_the_claim_to_the_new_slot() {
    let mut ctx = moving();
    let event = update_reservation(&mut ctx, START + 7200).unwrap();
    assert_eq!(
        event,
        ReservationUpdated { user: id(2), reservation: id(4), new_start_time: START + 7200 }
    );
    assert!(!ctx.old_slot.is_booked);
    assert!(ctx.new_slot.is_booked);
    assert_eq!(
        ctx.reservation,
        Reservation {
            time_slot: START + 7200,
            start_time: START + 7200,
            end_time: END + 7200,
            ..claim()
        }
    );
    assert_eq!(ctx.old_slot, free_slot(1000));
    assert_eq!(ctx.new_slot.price, 4000);
    assert_eq!(ctx.user, id(2));
}

#[test]
fn update_files_the_claim_under_the_given_start_time() {
    let mut ctx = moving();
    update_reservation(&mut ctx, 42).unwrap();
    assert_eq!(ctx.reservation.time_slot, 42);
    assert_eq!(ctx.reservation.start_time, START + 7200);
}

#[test]
fn cancelled_reservation_cannot_be_moved() {
    let mut ctx = moving();
    ctx.reservation.is_active = false;
    ctx.user = id(9);
    ctx.new_slot.is_booked = true;
    let before = ctx;
    assert_eq!(update_reservation(&mut ctx, START + 7200), Err(ErrorCode::AlreadyCancelled));
    assert_eq!(ctx, before);
}

#[test]
fn only_the_user_moves_a_reservation() {
    let mut ctx = moving();
    ctx.user = id(9);
    ctx.new_slot.is_booked = true;
    let before = ctx;
    assert_eq!(update_reservation(&mut ctx, START + 7200), Err(ErrorCode::Unauthorized));
    assert_eq!(ctx, before);
}

#[test]
fn reservation_cannot_move_to_a_taken_slot() {
    let mut ctx = moving();
    ctx.new_slot.is_booked = true;
    let before = ctx;
    assert_eq!(update_reservation(&mut ctx, START + 7200), Err(ErrorCode::AlreadyBooked));
    assert_eq!(ctx, before);
    // Both slots are as they were: the old one taken, the new one taken by another.
    assert!(ctx.old_slot.is_booked && ctx.new_slot.is_booked);
}

#[test]
fn update_never_leaves_both_slots_taken_or_both_free() {
    for old_booked in [false, true] {
        let mut ctx = moving();
        ctx.old_slot.is_booked = old_booked;
        update_reservation(&mut ctx, START + 7200).unwrap();
        assert!(!ctx.old_slot.is_booked);
        assert!(ctx.new_slot.is_booked);
    }
}
