//! Big-endian framing of the one control packet this core writes itself:
//! the fixed 12-byte close-session packet.

use byteorder::{BigEndian, WriteBytesExt};
use vstd::prelude::*;

verus! {

/// The reserved operation code of the close-session control packet.
pub const OP_CLOSE_SESSION: i32 = -11;

/// The value of a signed 32-bit integer read as its two's-complement bit
/// pattern.
pub open spec fn bits_of_i32(v: i32) -> u32 {
    if v >= 0 {
        v as u32
    } else {
        ((v as int) + 0x1_0000_0000) as u32
    }
}

/// The four big-endian bytes of a signed 32-bit integer.
pub open spec fn be_bytes(v: i32) -> Seq<u8> {
    let n = bits_of_i32(v);
    seq![
        ((n >> 24) & 0xff) as u8,
        ((n >> 16) & 0xff) as u8,
        ((n >> 8) & 0xff) as u8,
        (n & 0xff) as u8,
    ]
}

/// The close-session packet: a length field of 8, the reserved correlation
/// id 0, and the close-session operation code, each as a big-endian signed
/// 32-bit integer.
pub open spec fn close_packet() -> Seq<u8> {
    be_bytes(8) + be_bytes(0) + be_bytes(OP_CLOSE_SESSION)
}

/// Relies on byteorder's `WriteBytesExt::write_i32::<BigEndian>`: it appends
/// exactly the four big-endian two's-complement bytes of the value, and the
/// `io::Write` impl for `Vec<u8>` never fails.
#[verifier::external_body]
pub(crate) fn write_i32_be(out: &mut Vec<u8>, v: i32)
    ensures
        final(out)@ == old(out)@ + be_bytes(v),
{
    out.write_i32::<BigEndian>(v)
        .expect("writing to a Vec cannot fail");
}

} // verus!
