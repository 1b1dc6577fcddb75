//! Content hashing: a 64-bit digest over a record's canonical textual
//! payload, rendered as lowercase hexadecimal. The digest detects divergence
//! between the local and the remote copy of a record, and serves as the
//! dedup index key for completed games.

use vstd::prelude::*;

use crate::text::hex_digits;
use crate::text::u64_to_hex;

verus! {

/// The 64-bit digest that `xxhash_rust::const_xxh3::xxh3_64` computes over
/// the UTF-8 bytes of a string. It depends on the characters alone.
pub uninterp spec fn xxh3_of(s: Seq<char>) -> u64;

/// Relies on `xxhash_rust::const_xxh3::xxh3_64`: a pure, deterministic
/// function of the input bytes, here the UTF-8 bytes of `s`.
#[verifier::external_body]
fn xxh3_str(s: &str) -> (r: u64)
    ensures
        r == xxh3_of(s@),
{
    xxhash_rust::const_xxh3::xxh3_64(s.as_bytes())
}

/// The content hash of a canonical payload: its 64-bit digest in lowercase
/// hexadecimal.
pub open spec fn content_hash_spec(payload: Seq<char>) -> Seq<char> {
    hex_digits(xxh3_of(payload))
}

/// Hash a canonical payload into its hexadecimal digest string.
pub fn content_hash(payload: &str) -> (r: String)
    ensures
        r@ == content_hash_spec(payload@),
{
    u64_to_hex(xxh3_str(payload))
}

} // verus!
