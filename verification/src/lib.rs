//! A reservation ledger: an organiser publishes an experience with time slots,
//! a user books a slot, paying for it and receiving a token in one step, and
//! may later cancel the reservation or move it to another slot.
//!
//! Every operation works on a context of plain values, the records and balances
//! that it touches, and either carries through in full or changes nothing. What
//! it hands back tells the caller what to emit and which instructions to
//! invoke. The contracts say exactly when an operation is refused and what it
//! leaves behind; `laws` states what holds across operations.

pub mod accounts;
pub mod address;
pub mod build_metadata;
pub mod error;
pub mod events;
pub mod experiences;
pub mod instruction;
pub mod laws;
pub mod nft_metadata;
pub mod pubkey;
pub mod reservations;
pub mod slots;
pub mod state;
pub mod wallet;

pub use accounts::{AddTimeSlot, BookSlot, CancelReservation, CreateExperience, UpdateReservation};
pub use address::{seed_chunk, MAX_SEED_LEN, TITLE_SEEDS};
pub use build_metadata::{build_metadata_ix, Creator, PrintSupply, TokenStandard};
pub use error::ErrorCode;
pub use events::{ExperienceCreated, ReservationCancelled, ReservationCreated, ReservationUpdated};
pub use experiences::create_experience;
pub use instruction::{
    create_mint_account_instruction, initialize_mint_instruction, transfer_instruction, AccountMeta,
    Instruction, Step, MINT_ACCOUNT_LEN, SPL_TOKEN_PROGRAM_ID, SYSTEM_PROGRAM_ID, SYSVAR_INSTRUCTIONS_ID,
    SYSVAR_RENT_ID, TOKEN_METADATA_PROGRAM_ID,
};
pub use nft_metadata::{create_metadata_uri, token_symbol, MetadataError, MAX_SYMBOL_LEN};
pub use pubkey::Pubkey;
pub use reservations::{
    book_slot, cancel_reservation, cancellation_fee, update_reservation, Booking, Cancellation,
    MINIMUM_NOTICE_SECONDS, TOKENS_PER_BOOKING,
};
pub use slots::{add_time_slot, intersects_existing, slots_on_record};
pub use state::{Experience, Reservation, TimeSlotAccount};
pub use wallet::{transfer, Transfer, Wallet};
