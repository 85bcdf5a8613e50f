use vstd::prelude::*;
use vstd::string::StringExecFns;

verus! {

/// Why an operation of the ledger was refused.
#[derive(Clone, Copy, Debug, PartialEq, Eq, Structural)]
pub enum ErrorCode {
    /// The interval is empty or reversed, or does not start in the future.
    InvalidTimeSlot,
    /// The slot is already claimed.
    AlreadyBooked,
    /// A payer does not hold the amount it has to hand over.
    InsufficientFunds,
    /// The title has more characters than a title may have.
    TitleTooLong,
    /// The location has more characters than a location may have.
    LocationTooLong,
    /// The reservation is no longer active.
    InvalidReservation,
    /// The caller is not the principal that the record names.
    Unauthorized,
    /// The reservation was cancelled before.
    AlreadyCancelled,
    /// The price is nothing.
    InvalidPrice,
    TitleEmpty,
    LocationEmpty,
    /// The experience holds as many slots as it may.
    TooManyTimeSlots,
    /// Less than the minimum notice is left before the slot starts.
    TooLateToCancel,
    /// The description has more characters than a description may have.
    DescriptionTooLong,
    /// The interval intersects a slot that the experience already has.
    OverlappingTimeSlot,
    /// No token could be issued for the booking.
    TokenIssuanceFailed,
}

impl ErrorCode {
    /// The text that describes the error to a caller.
    pub open spec fn message_text(self) -> Seq<char> {
        match self {
            ErrorCode::InvalidTimeSlot => "Invalid time slot provided."@,
            ErrorCode::AlreadyBooked => "The time slot is already booked."@,
            ErrorCode::InsufficientFunds => "Insufficient funds"@,
            ErrorCode::TitleTooLong => "Name is too long"@,
            ErrorCode::LocationTooLong => "Location is too long"@,
            ErrorCode::InvalidReservation => "Invalid reservation"@,
            ErrorCode::Unauthorized => "Unauthorized"@,
            ErrorCode::AlreadyCancelled => "Reservation already cancelled"@,
            ErrorCode::InvalidPrice => "Invalid price - must be greater than 0"@,
            ErrorCode::TitleEmpty => "Title cannot be empty"@,
            ErrorCode::LocationEmpty => "Location cannot be empty"@,
            ErrorCode::TooManyTimeSlots => "Maximum number of time slots reached"@,
            ErrorCode::TooLateToCancel => "Too late to cancel reservation"@,
            ErrorCode::DescriptionTooLong => "Description is too long"@,
            ErrorCode::OverlappingTimeSlot => "The time slot overlaps an existing one"@,
            ErrorCode::TokenIssuanceFailed => "Failed to issue the booking token"@,
        }
    }

    pub fn message(&self) -> (text: String)
        ensures
            text@ == self.message_text(),
    {
        match self {
            ErrorCode::InvalidTimeSlot => String::from_str("Invalid time slot provided."),
            ErrorCode::AlreadyBooked => String::from_str("The time slot is already booked."),
            ErrorCode::InsufficientFunds => String::from_str("Insufficient funds"),
            ErrorCode::TitleTooLong => String::from_str("Name is too long"),
            ErrorCode::LocationTooLong => String::from_str("Location is too long"),
            ErrorCode::InvalidReservation => String::from_str("Invalid reservation"),
            ErrorCode::Unauthorized => String::from_str("Unauthorized"),
            ErrorCode::AlreadyCancelled => String::from_str("Reservation already cancelled"),
            ErrorCode::InvalidPrice => String::from_str("Invalid price - must be greater than 0"),
            ErrorCode::TitleEmpty => String::from_str("Title cannot be empty"),
            ErrorCode::LocationEmpty => String::from_str("Location cannot be empty"),
            ErrorCode::TooManyTimeSlots => String::from_str("Maximum number of time slots reached"),
            ErrorCode::TooLateToCancel => String::from_str("Too late to cancel reservation"),
            ErrorCode::DescriptionTooLong => String::from_str("Description is too long"),
            ErrorCode::OverlappingTimeSlot => String::from_str(
                "The time slot overlaps an existing one",
            ),
            ErrorCode::TokenIssuanceFailed => String::from_str("Failed to issue the booking token"),
        }
    }
}

} // verus!
