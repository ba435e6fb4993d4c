//! What holds across calls: framing, round trips, and the integer codecs.

use vstd::prelude::*;

use crate::bus::{ReadTransfer, WriteTransfer};
use crate::registers::{read_frame, write_frame, Register};
use crate::value::RegisterValue;

verus! {

/// The reply of the combined transaction `t` is what a device that keeps
/// what is written to it gives back after the write `w`: where both address
/// the same device and the same register, the reply is the first bytes that
/// `w` wrote after the register address.
pub open spec fn answers_from_write<E, F>(w: WriteTransfer<F>, t: ReadTransfer<E>) -> bool {
    (w.device == t.device && w.bytes.len() >= 1 && t.command.len() >= 1 && w.bytes[0]
        == t.command[0]) ==> t.reply == w.bytes.drop_first().take(t.reply.len() as int)
}

/// A write frame is one byte longer than the raw value, starts with the
/// register address, and carries the raw bytes after it in order.
pub proof fn lemma_write_framing(address: u8, raw: Seq<u8>)
    ensures
        write_frame(address, raw).len() == raw.len() + 1,
        write_frame(address, raw)[0] == address,
        forall|i: int| 0 <= i < raw.len() ==> #[trigger] write_frame(address, raw)[i + 1] == raw[i],
        write_frame(address, raw).drop_first() == raw,
{
    assert(write_frame(address, raw).drop_first() =~= raw);
}

/// Writing a value to a readable and writable register and then reading the
/// register back gives the value again, whenever decoding undoes encoding and
/// the device answers the read with what the write left in the register.
/// `w` and `t` are the transactions that `write_register` and `read_register`
/// record on the bus, and `read` is what `read_register` returned: `Ok` of the
/// value whenever the bus reported success on the read.
pub proof fn lemma_round_trip<R: Register, V: RegisterValue, E, F>(
    register: R,
    value: V,
    device: u8,
    w: WriteTransfer<F>,
    t: ReadTransfer<E>,
    read: Result<V, E>,
)
    requires
        register.spec_readable(),
        register.spec_writable(),
        register.spec_size() == V::raw_len(),
        V::decode(value.encode()) == value,
        w.device == device,
        w.bytes == write_frame(register.spec_address(), value.encode()),
        t.device == device,
        t.command == read_frame(register.spec_address()),
        t.reply.len() == register.spec_size(),
        answers_from_write(w, t),
        t.outcome is Ok ==> read == Ok::<V, E>(V::decode(t.reply)),
    ensures
        V::decode(t.reply) == value,
        t.outcome is Ok ==> read == Ok::<V, E>(value),
{
    value.lemma_encode_len();
    lemma_write_framing(register.spec_address(), value.encode());
    assert(value.encode().take(register.spec_size() as int) =~= value.encode());
}

/// A byte decodes to itself, and every one-byte buffer encodes back to itself.
pub proof fn lemma_u8_inverse(v: u8, raw: Seq<u8>)
    requires
        raw.len() == 1,
    ensures
        u8::decode(v.encode()) == v,
        u8::decode(raw).encode() == raw,
{
    assert(u8::decode(raw).encode() =~= raw);
}

/// Big-endian `u16` decoding undoes encoding, and encoding undoes decoding
/// on every two-byte buffer.
pub proof fn lemma_u16_inverse(v: u16, raw: Seq<u8>)
    requires
        raw.len() == 2,
    ensures
        u16::decode(v.encode()) == v,
        u16::decode(raw).encode() == raw,
{
    assert((((v >> 8u16) as u8) as u16) << 8u16 | ((v as u8) as u16) == v) by (bit_vector);
    let (b0, b1) = (raw[0], raw[1]);
    let w = u16::decode(raw);
    assert(w == (b0 as u16) << 8u16 | b1 as u16);
    assert(((((b0 as u16) << 8u16 | b1 as u16) >> 8u16) as u8) == b0) by (bit_vector);
    assert((((b0 as u16) << 8u16 | b1 as u16) as u8) == b1) by (bit_vector);
    assert(w.encode() =~= raw);
}

/// Big-endian `u32` decoding undoes encoding, and encoding undoes decoding
/// on every four-byte buffer.
pub proof fn lemma_u32_inverse(v: u32, raw: Seq<u8>)
    requires
        raw.len() == 4,
    ensures
        u32::decode(v.encode()) == v,
        u32::decode(raw).encode() == raw,
{
    assert((((v >> 24u32) as u8) as u32) << 24u32 | (((v >> 16u32) as u8) as u32) << 16u32 | (((
    v >> 8u32) as u8) as u32) << 8u32 | ((v as u8) as u32) == v) by (bit_vector);
    let (b0, b1, b2, b3) = (raw[0], raw[1], raw[2], raw[3]);
    let w = u32::decode(raw);
    assert(w == (b0 as u32) << 24u32 | (b1 as u32) << 16u32 | (b2 as u32) << 8u32 | b3 as u32);
    assert({
        let x = (b0 as u32) << 24u32 | (b1 as u32) << 16u32 | (b2 as u32) << 8u32 | b3 as u32;
        &&& (x >> 24u32) as u8 == b0
        &&& (x >> 16u32) as u8 == b1
        &&& (x >> 8u32) as u8 == b2
        &&& x as u8 == b3
    }) by (bit_vector);
    assert(w.encode() =~= raw);
}

/// Big-endian `u64` decoding undoes encoding, and encoding undoes decoding
/// on every eight-byte buffer.
pub proof fn lemma_u64_inverse(v: u64, raw: Seq<u8>)
    requires
        raw.len() == 8,
    ensures
        u64::decode(v.encode()) == v,
        u64::decode(raw).encode() == raw,
{
    assert((((v >> 56u64) as u8) as u64) << 56u64 | (((v >> 48u64) as u8) as u64) << 48u64 | (((
    v >> 40u64) as u8) as u64) << 40u64 | (((v >> 32u64) as u8) as u64) << 32u64 | (((v
        >> 24u64) as u8) as u64) << 24u64 | (((v >> 16u64) as u8) as u64) << 16u64 | (((v
        >> 8u64) as u8) as u64) << 8u64 | ((v as u8) as u64) == v) by (bit_vector);
    let (b0, b1, b2, b3, b4, b5, b6, b7) = (
        raw[0],
        raw[1],
        raw[2],
        raw[3],
        raw[4],
        raw[5],
        raw[6],
        raw[7],
    );
    let w = u64::decode(raw);
    assert(w == (b0 as u64) << 56u64 | (b1 as u64) << 48u64 | (b2 as u64) << 40u64 | (b3 as u64)
        << 32u64 | (b4 as u64) << 24u64 | (b5 as u64) << 16u64 | (b6 as u64) << 8u64 | b7 as u64);
    assert({
        let x = (b0 as u64) << 56u64 | (b1 as u64) << 48u64 | (b2 as u64) << 40u64 | (b3 as u64)
            << 32u64 | (b4 as u64) << 24u64 | (b5 as u64) << 16u64 | (b6 as u64) << 8u64
            | b7 as u64;
        &&& (x >> 56u64) as u8 == b0
        &&& (x >> 48u64) as u8 == b1
        &&& (x >> 40u64) as u8 == b2
        &&& (x >> 32u64) as u8 == b3
        &&& (x >> 24u64) as u8 == b4
        &&& (x >> 16u64) as u8 == b5
        &&& (x >> 8u64) as u8 == b6
        &&& x as u8 == b7
    }) by (bit_vector);
    assert(w.encode() =~= raw);
}

/// A raw byte array decodes back to itself.
pub proof fn lemma_array_decode_encode<const N: usize>(a: [u8; N])
    ensures
        <[u8; N]>::decode(a.encode()) == a,
{
    let b = <[u8; N]>::decode(a.encode());
    assert(b@ == a@);
    assert(b =~= a);
}

} // verus!
