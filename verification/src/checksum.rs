use vstd::prelude::*;

verus! {

/// The CRC-32 (IEEE 802.3 polynomial) checksum of `bytes`, as crc32fast computes it.
pub uninterp spec fn crc32_checksum(bytes: Seq<u8>) -> u32;

/// Calls `crc32fast::Hasher::new`, `Hasher::update` with `bytes` and
/// `Hasher::finalize`. The contract claims that the checksum depends on the
/// bytes alone, and names it `crc32_checksum`.
#[verifier::external_body]
pub(crate) fn crc32(bytes: &[u8]) -> (checksum: u32)
    ensures
        checksum == crc32_checksum(bytes@),
{
    let mut hasher = crc32fast::Hasher::new();
    hasher.update(bytes);
    hasher.finalize()
}

} // verus!
