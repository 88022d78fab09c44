//! Decoding the 8-byte tail of a Parquet file.
//!
//! A Parquet file ends in a 4-byte little-endian metadata length followed by
//! the 4 magic bytes `PAR1`. Decoding those 8 bytes is a few lines with an
//! exact statement, so it is implemented and proved here rather than taken
//! on trust; it lets a caller read only the footer region of a large file
//! instead of the whole file. An encrypted footer (magic `PARE`) or any
//! other tail is not recognized, and a caller then falls back to handing
//! the parser the whole file, whose own error stands.

use vstd::prelude::*;

verus! {

/// The value of 4 bytes read as a little-endian unsigned integer.
pub open spec fn le_u32_of(s: Seq<u8>) -> int {
    s[0] + 0x100 * s[1] + 0x1_0000 * s[2] + 0x100_0000 * s[3]
}

/// The plain footer magic, the ASCII bytes of `PAR1`.
pub open spec fn footer_magic() -> Seq<u8> {
    seq![0x50u8, 0x41, 0x52, 0x31]
}

/// Decodes a file's last 8 bytes: when they end in the plain magic, the
/// length in bytes of the file's whole footer region (the metadata plus
/// these 8 bytes), counted from the end of the file; `None` for any other
/// tail.
pub fn footer_region_len(tail: &[u8]) -> (r: Option<u64>)
    requires
        tail@.len() == 8,
    ensures
        tail@.subrange(4, 8) == footer_magic() ==> (r matches Some(n) && n as int == le_u32_of(
            tail@.subrange(0, 4),
        ) + 8),
        tail@.subrange(4, 8) != footer_magic() ==> r is None,
{
    if tail[4] == 0x50 && tail[5] == 0x41 && tail[6] == 0x52 && tail[7] == 0x31 {
        let n: u64 = (tail[0] as u64) + 0x100 * (tail[1] as u64) + 0x1_0000 * (tail[2] as u64)
            + 0x100_0000 * (tail[3] as u64) + 8;
        proof {
            assert(tail@.subrange(4, 8) =~= footer_magic());
        }
        Some(n)
    } else {
        proof {
            if tail@.subrange(4, 8) == footer_magic() {
                assert(tail@.subrange(4, 8)[0] == tail@[4]);
                assert(tail@.subrange(4, 8)[1] == tail@[5]);
                assert(tail@.subrange(4, 8)[2] == tail@[6]);
                assert(tail@.subrange(4, 8)[3] == tail@[7]);
            }
        }
        None
    }
}

} // verus!
