//! CRC-32 (IEEE) checksums, computed by `crc32fast`.

use vstd::prelude::*;
use crc32fast::Hasher;

verus! {

/// `crc32fast::Hasher`, the running state of one checksum computation.
#[verifier::external_type_specification]
#[verifier::external_body]
pub struct ExHasher(Hasher);

/// The CRC-32 (IEEE) checksum of a byte sequence, as `crc32fast` computes it.
pub uninterp spec fn crc32(data: Seq<u8>) -> u32;

/// The bytes that a hasher has been fed so far, in order.
pub uninterp spec fn hasher_input(h: Hasher) -> Seq<u8>;

/// `Hasher::new` starts a computation that has seen no byte yet.
pub assume_specification[ Hasher::new ]() -> (h: Hasher)
    ensures
        hasher_input(h) == Seq::<u8>::empty(),
;

/// `Hasher::update` feeds `buf` after everything fed before.
pub assume_specification[ Hasher::update ](h: &mut Hasher, buf: &[u8])
    ensures
        hasher_input(*final(h)) == hasher_input(*old(h)) + buf@,
;

/// `Hasher::finalize` returns the checksum of all the bytes fed, taken as one
/// sequence: splitting the input over several updates does not change it.
pub assume_specification[ Hasher::finalize ](h: Hasher) -> (sum: u32)
    ensures
        sum == crc32(hasher_input(h)),
;

} // verus!
