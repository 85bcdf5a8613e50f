use vstd::prelude::*;
use vstd::string::{StrSliceExecFns, StringExecFns};
use vstd::utf8::encode_utf8;
use crate::state::Experience;

verus! {

/// Most characters that a token's symbol may have.
pub const MAX_SYMBOL_LEN: usize = 10;

/// The document that every booking token refers to.
pub open spec fn template_uri() -> Seq<char> {
    "https://raw.githubusercontent.com/JkrishnaD/slot-mint-asset/main/metadata/template.json"@
}

/// The symbol of the token issued for a booking: the first characters of the
/// experience's title, `MAX_SYMBOL_LEN` at most.
pub open spec fn symbol_of(title: Seq<char>) -> Seq<char> {
    if title.len() <= MAX_SYMBOL_LEN {
        title
    } else {
        title.subrange(0, MAX_SYMBOL_LEN as int)
    }
}

/// The address of the document that describes the token of a booking. All
/// bookings share one template, whatever the experience and the interval.
pub fn create_metadata_uri(experience: &Experience, start_time: i64, end_time: i64) -> (uri:
    String)
    ensures
        uri@ == template_uri(),
{
    String::from_str(
        "https://raw.githubusercontent.com/JkrishnaD/slot-mint-asset/main/metadata/template.json",
    )
}

/// The symbol of the token issued for a booking of an experience with this
/// title.
pub fn token_symbol(title: &str) -> (symbol: String)
    ensures
        symbol@ == symbol_of(title@),
{
    let len = title.unicode_len();
    if len <= MAX_SYMBOL_LEN {
        title.to_owned()
    } else {
        title.substring_char(0, MAX_SYMBOL_LEN).to_owned()
    }
}

/// Why a token's descriptor could not be made.
#[derive(Clone, Copy, Debug, PartialEq, Eq, Structural)]
pub enum MetadataError {
    MetadataCreationFailed,
}

impl MetadataError {
    pub open spec fn message_text(self) -> Seq<char> {
        "Failed to create metadata"@
    }

    pub fn message(&self) -> (text: String)
        ensures
            text@ == self.message_text(),
    {
        String::from_str("Failed to create metadata")
    }
}

/// A string of `n` characters takes `4 * n` bytes at most.
pub proof fn lemma_encoded_len(chars: Seq<char>)
    ensures
        encode_utf8(chars).len() <= 4 * chars.len(),
    decreases chars.len(),
{
    if chars.len() > 0 {
        lemma_encoded_len(chars.drop_first());
    }
}

} // verus!
