//! Fixed-width integers on the wire.
//!
//! Netlink carries integers in the byte order of the host, so every codec in
//! this crate takes the order as a value and is proved for both.

use vstd::arithmetic::div_mod::lemma_fundamental_div_mod_converse;
use vstd::prelude::*;

verus! {

/// The order in which the bytes of an integer are laid out.
#[derive(Clone, Copy, Debug, PartialEq, Eq, Structural)]
pub enum Endian {
    Little,
    Big,
}

/// The two bytes of `x` in the given order.
pub open spec fn spec_u16_bytes(order: Endian, x: u16) -> Seq<u8> {
    let lo = (x % 256) as u8;
    let hi = (x / 256) as u8;
    match order {
        Endian::Little => seq![lo, hi],
        Endian::Big => seq![hi, lo],
    }
}

/// The integer that two bytes stand for in the given order.
pub open spec fn spec_u16_value(order: Endian, b: Seq<u8>) -> u16
    recommends
        b.len() == 2,
{
    match order {
        Endian::Little => (b[0] + 256 * b[1]) as u16,
        Endian::Big => (b[1] + 256 * b[0]) as u16,
    }
}

/// The four bytes of `x` in the given order.
pub open spec fn spec_u32_bytes(order: Endian, x: u32) -> Seq<u8> {
    let b0 = (x % 256) as u8;
    let b1 = ((x / 256) % 256) as u8;
    let b2 = ((x / 65536) % 256) as u8;
    let b3 = (x / 16777216) as u8;
    match order {
        Endian::Little => seq![b0, b1, b2, b3],
        Endian::Big => seq![b3, b2, b1, b0],
    }
}

/// The integer that four bytes stand for in the given order.
pub open spec fn spec_u32_value(order: Endian, b: Seq<u8>) -> u32
    recommends
        b.len() == 4,
{
    match order {
        Endian::Little => (b[0] + 256 * b[1] + 65536 * b[2] + 16777216 * b[3]) as u32,
        Endian::Big => (b[3] + 256 * b[2] + 65536 * b[1] + 16777216 * b[0]) as u32,
    }
}

/// Decoding undoes encoding, for 16-bit values.
pub proof fn law_u16_round_trip(order: Endian, x: u16)
    ensures
        spec_u16_bytes(order, x).len() == 2,
        spec_u16_value(order, spec_u16_bytes(order, x)) == x,
{
}

/// Decoding undoes encoding, for 32-bit values.
pub proof fn law_u32_round_trip(order: Endian, x: u32)
    ensures
        spec_u32_bytes(order, x).len() == 4,
        spec_u32_value(order, spec_u32_bytes(order, x)) == x,
{
}

/// Encoding undoes decoding, for 32-bit values.
pub proof fn law_u32_bytes_of_value(order: Endian, b: Seq<u8>)
    requires
        b.len() == 4,
    ensures
        spec_u32_bytes(order, spec_u32_value(order, b)) == b,
{
    let (b0, b1, b2, b3): (int, int, int, int) = match order {
        Endian::Little => (b[0] as int, b[1] as int, b[2] as int, b[3] as int),
        Endian::Big => (b[3] as int, b[2] as int, b[1] as int, b[0] as int),
    };
    let v = b0 + 256 * b1 + 65536 * b2 + 16777216 * b3;
    let w1 = b1 + 256 * b2 + 65536 * b3;
    let w2 = b2 + 256 * b3;
    assert(spec_u32_value(order, b) == v);
    lemma_fundamental_div_mod_converse(v, 256, w1, b0);
    lemma_fundamental_div_mod_converse(w1, 256, w2, b1);
    lemma_fundamental_div_mod_converse(w2, 256, b3, b2);
    lemma_fundamental_div_mod_converse(v, 65536, w2, b0 + 256 * b1);
    lemma_fundamental_div_mod_converse(v, 16777216, b3, b0 + 256 * b1 + 65536 * b2);
    assert(spec_u32_bytes(order, spec_u32_value(order, b)) =~= b);
}

/// `u16::to_ne_bytes`: the memory representation of `x` on this machine,
/// which is its little-endian or its big-endian encoding.
#[verifier::external_body]
fn u16_to_ne_bytes(x: u16) -> (r: [u8; 2])
    ensures
        r@ == spec_u16_bytes(Endian::Little, x) || r@ == spec_u16_bytes(Endian::Big, x),
{
    x.to_ne_bytes()
}

impl Endian {
    /// The byte order of the machine this runs on.
    pub fn native() -> Endian {
        Endian::of_probe(u16_to_ne_bytes(1))
    }

    /// The byte order in which `probe` is the encoding of the number one.
    pub fn of_probe(probe: [u8; 2]) -> (order: Endian)
        ensures
            order == spec_of_probe(probe@),
            forall|laid: Endian| probe@ == spec_u16_bytes(laid, 1) ==> order == laid,
    {
        if probe[0] == 1 {
            Endian::Little
        } else {
            Endian::Big
        }
    }
}

/// The byte order that a probe shows: little-endian where the low byte of
/// the number one comes first, and big-endian otherwise.
pub open spec fn spec_of_probe(probe: Seq<u8>) -> Endian {
    if probe[0] == 1 {
        Endian::Little
    } else {
        Endian::Big
    }
}

/// Appends the two bytes of `x` to `out`.
pub fn put_u16(order: Endian, x: u16, out: &mut Vec<u8>)
    ensures
        final(out)@ == old(out)@ + spec_u16_bytes(order, x),
{
    let lo = (x % 256) as u8;
    let hi = (x / 256) as u8;
    match order {
        Endian::Little => {
            out.push(lo);
            out.push(hi);
        },
        Endian::Big => {
            out.push(hi);
            out.push(lo);
        },
    }
    assert(out@ =~= old(out)@ + spec_u16_bytes(order, x));
}

/// Appends the four bytes of `x` to `out`.
pub fn put_u32(order: Endian, x: u32, out: &mut Vec<u8>)
    ensures
        final(out)@ == old(out)@ + spec_u32_bytes(order, x),
{
    let b0 = (x % 256) as u8;
    let b1 = ((x / 256) % 256) as u8;
    let b2 = ((x / 65536) % 256) as u8;
    let b3 = (x / 16777216) as u8;
    match order {
        Endian::Little => {
            out.push(b0);
            out.push(b1);
            out.push(b2);
            out.push(b3);
        },
        Endian::Big => {
            out.push(b3);
            out.push(b2);
            out.push(b1);
            out.push(b0);
        },
    }
    assert(out@ =~= old(out)@ + spec_u32_bytes(order, x));
}

/// Reads the 16-bit value that starts at `at`.
pub fn get_u16(order: Endian, bytes: &[u8], at: usize) -> (x: u16)
    requires
        at + 2 <= bytes.len(),
    ensures
        x == spec_u16_value(order, bytes@.subrange(at as int, at + 2)),
{
    let a = bytes[at] as u16;
    let b = bytes[at + 1] as u16;
    match order {
        Endian::Little => a + 256 * b,
        Endian::Big => b + 256 * a,
    }
}

/// Reads the 32-bit value that starts at `at`.
pub fn get_u32(order: Endian, bytes: &[u8], at: usize) -> (x: u32)
    requires
        at + 4 <= bytes.len(),
    ensures
        x == spec_u32_value(order, bytes@.subrange(at as int, at + 4)),
{
    let a = bytes[at] as u32;
    let b = bytes[at + 1] as u32;
    let c = bytes[at + 2] as u32;
    let d = bytes[at + 3] as u32;
    match order {
        Endian::Little => a + 256 * b + 65536 * c + 16777216 * d,
        Endian::Big => d + 256 * c + 65536 * b + 16777216 * a,
    }
}

/// The signed value of a 32-bit pattern in two's complement.
pub open spec fn spec_i32_from_bits(v: u32) -> i32 {
    if v < 0x8000_0000 {
        v as i32
    } else {
        (v - 0x1_0000_0000) as i32
    }
}

/// The 32-bit pattern of a signed value in two's complement.
pub open spec fn spec_i32_bits(x: i32) -> u32 {
    if x >= 0 {
        x as u32
    } else {
        (x + 0x1_0000_0000) as u32
    }
}

/// The signed value of a 32-bit pattern in two's complement.
pub fn i32_from_bits(v: u32) -> (x: i32)
    ensures
        x == spec_i32_from_bits(v),
        spec_i32_bits(x) == v,
{
    if v < 0x8000_0000 {
        v as i32
    } else {
        -((0xffff_ffff - v) as i32) - 1
    }
}

/// The 32-bit pattern of a signed value in two's complement.
pub fn i32_bits(x: i32) -> (v: u32)
    ensures
        v == spec_i32_bits(x),
        spec_i32_from_bits(v) == x,
{
    if x >= 0 {
        x as u32
    } else {
        0xffff_ffff - ((-(x + 1)) as u32)
    }
}

} // verus!
