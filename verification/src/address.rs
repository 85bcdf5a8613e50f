use vstd::prelude::*;
use vstd::slice::slice_subrange;
use vstd::utf8::encode_utf8;
use crate::nft_metadata::lemma_encoded_len;
use crate::state::Experience;

verus! {

/// Most bytes that one seed of an address may have.
pub const MAX_SEED_LEN: usize = 32;

/// How many seeds a title is given: enough for the longest title in its
/// longest encoding.
pub const TITLE_SEEDS: u8 = 4;

/// Where the seed with this number starts among `len` bytes.
pub open spec fn seed_start(len: nat, index: u8) -> int {
    if index * MAX_SEED_LEN <= len {
        index * MAX_SEED_LEN
    } else {
        len as int
    }
}

/// The seed with this number of a name of any length: the bytes from
/// `index * MAX_SEED_LEN` on, `MAX_SEED_LEN` at most, and none where the name
/// ends before.
pub open spec fn seed_chunk_of(bytes: Seq<u8>, index: u8) -> Seq<u8> {
    let start = seed_start(bytes.len(), index);
    let end = if start + MAX_SEED_LEN <= bytes.len() {
        start + MAX_SEED_LEN
    } else {
        bytes.len() as int
    };
    bytes.subrange(start, end)
}

/// The seed with this number of a name. A name is filed under its seeds in
/// turn, so that a name longer than one seed can still be filed.
pub fn seed_chunk(bytes: &[u8], index: u8) -> (chunk: &[u8])
    ensures
        chunk@ == seed_chunk_of(bytes@, index),
        chunk@.len() <= MAX_SEED_LEN,
{
    let len = bytes.len();
    let offset: usize = (index as usize) * MAX_SEED_LEN;
    let start: usize = if offset <= len {
        offset
    } else {
        len
    };
    let end: usize = if len - start >= MAX_SEED_LEN {
        start + MAX_SEED_LEN
    } else {
        len
    };
    slice_subrange(bytes, start, end)
}

/// The seeds of a title that an experience may have are the title's bytes in
/// full: put end to end, the first `TITLE_SEEDS` seeds give the bytes back.
pub proof fn lemma_title_seeds_cover(title: Seq<char>)
    requires
        title.len() <= Experience::MAX_TITLE_LEN,
    ensures
        seed_chunk_of(encode_utf8(title), 0) + seed_chunk_of(encode_utf8(title), 1)
            + seed_chunk_of(encode_utf8(title), 2) + seed_chunk_of(encode_utf8(title), 3)
            == encode_utf8(title),
{
    lemma_encoded_len(title);
    let bytes = encode_utf8(title);
    assert(seed_chunk_of(bytes, 0) + seed_chunk_of(bytes, 1) + seed_chunk_of(bytes, 2)
        + seed_chunk_of(bytes, 3) =~= bytes);
}

/// A name that fits one seed is its own first seed, and its other seeds are
/// empty.
pub proof fn lemma_short_name_is_one_seed(bytes: Seq<u8>, index: u8)
    requires
        bytes.len() <= MAX_SEED_LEN,
    ensures
        seed_chunk_of(bytes, 0) == bytes,
        index > 0 ==> seed_chunk_of(bytes, index).len() == 0,
{
    assert(seed_chunk_of(bytes, 0) =~= bytes);
}

} // verus!
