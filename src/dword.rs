//! Double-word programming units.
//!
//! Flash and OTP memory are programmed eight bytes at a time, as two
//! little-endian 32-bit words written to consecutive addresses. A final
//! partial unit is padded with the erased value `0xFF`, which leaves the
//! cells it covers unprogrammed.

use vstd::prelude::*;

verus! {

/// The value of an erased (unprogrammed) memory byte.
pub const ERASED: u8 = 0xFF;

/// One programming operation: `low` is written at `address`, `high` at
/// `address + 4`.
#[derive(Clone, Copy, Debug, PartialEq, Eq, Structural)]
pub struct DoubleWord {
    pub address: u32,
    pub low: u32,
    pub high: u32,
}

/// Byte `i` of `data`, or the erased value past its end.
pub open spec fn padded_byte(data: Seq<u8>, i: int) -> u8 {
    if 0 <= i < data.len() {
        data[i]
    } else {
        ERASED
    }
}

/// The little-endian word made of four bytes.
pub open spec fn le_word(b0: u8, b1: u8, b2: u8, b3: u8) -> u32 {
    (b0 as u32) | ((b1 as u32) << 8u32) | ((b2 as u32) << 16u32) | ((b3 as u32) << 24u32)
}

/// The little-endian word read from `data` at `start`, padded with the
/// erased value.
pub open spec fn padded_word(data: Seq<u8>, start: int) -> u32 {
    le_word(
        padded_byte(data, start),
        padded_byte(data, start + 1),
        padded_byte(data, start + 2),
        padded_byte(data, start + 3),
    )
}

/// Number of double-word units needed to hold `len` bytes.
pub open spec fn unit_count(len: nat) -> nat {
    (len + 7) / 8
}

/// The units that program `data` starting at `base`.
pub open spec fn double_words(base: u32, data: Seq<u8>) -> Seq<DoubleWord> {
    Seq::new(
        unit_count(data.len()),
        |k: int|
            DoubleWord {
                address: (base + 8 * k) as u32,
                low: padded_word(data, 8 * k),
                high: padded_word(data, 8 * k + 4),
            },
    )
}

/// Byte `j` (0 to 7) of a unit, in the order it lands in memory.
pub open spec fn unit_byte(u: DoubleWord, j: int) -> u8 {
    if j < 4 {
        ((u.low >> (8 * j) as u32) & 0xFF) as u8
    } else {
        ((u.high >> (8 * (j - 4)) as u32) & 0xFF) as u8
    }
}

/// The bytes that a sequence of units writes, in address order.
pub open spec fn unit_bytes(units: Seq<DoubleWord>) -> Seq<u8> {
    Seq::new(8 * units.len(), |i: int| unit_byte(units[i / 8], i % 8))
}

proof fn lemma_le_word_bytes(b0: u8, b1: u8, b2: u8, b3: u8)
    ensures
        ((le_word(b0, b1, b2, b3) >> 0u32) & 0xFF) as u8 == b0,
        ((le_word(b0, b1, b2, b3) >> 8u32) & 0xFF) as u8 == b1,
        ((le_word(b0, b1, b2, b3) >> 16u32) & 0xFF) as u8 == b2,
        ((le_word(b0, b1, b2, b3) >> 24u32) & 0xFF) as u8 == b3,
{
    assert(((((b0 as u32) | ((b1 as u32) << 8u32) | ((b2 as u32) << 16u32) | ((b3 as u32)
        << 24u32)) >> 0u32) & 0xFF) as u8 == b0) by (bit_vector);
    assert(((((b0 as u32) | ((b1 as u32) << 8u32) | ((b2 as u32) << 16u32) | ((b3 as u32)
        << 24u32)) >> 8u32) & 0xFF) as u8 == b1) by (bit_vector);
    assert(((((b0 as u32) | ((b1 as u32) << 8u32) | ((b2 as u32) << 16u32) | ((b3 as u32)
        << 24u32)) >> 16u32) & 0xFF) as u8 == b2) by (bit_vector);
    assert(((((b0 as u32) | ((b1 as u32) << 8u32) | ((b2 as u32) << 16u32) | ((b3 as u32)
        << 24u32)) >> 24u32) & 0xFF) as u8 == b3) by (bit_vector);
}

/// Reading back the bytes that the units for `data` write gives `data`,
/// followed by erased padding up to the end of the last unit.
pub proof fn lemma_units_read_back(base: u32, data: Seq<u8>)
    ensures
        unit_bytes(double_words(base, data)).len() == 8 * unit_count(data.len()),
        data.len() <= unit_bytes(double_words(base, data)).len() < data.len() + 8,
        forall|i: int|
            0 <= i < unit_bytes(double_words(base, data)).len() ==> #[trigger] unit_bytes(
                double_words(base, data),
            )[i] == padded_byte(data, i),
{
    let units = double_words(base, data);
    assert forall|i: int| 0 <= i < unit_bytes(units).len() implies #[trigger] unit_bytes(
        units,
    )[i] == padded_byte(data, i) by {
        let k = i / 8;
        let j = i % 8;
        assert(0 <= k < units.len()) by (nonlinear_arith)
            requires
                0 <= i < 8 * units.len(),
                k == i / 8,
        ;
        assert(i == 8 * k + j);
        lemma_le_word_bytes(
            padded_byte(data, 8 * k),
            padded_byte(data, 8 * k + 1),
            padded_byte(data, 8 * k + 2),
            padded_byte(data, 8 * k + 3),
        );
        lemma_le_word_bytes(
            padded_byte(data, 8 * k + 4),
            padded_byte(data, 8 * k + 5),
            padded_byte(data, 8 * k + 6),
            padded_byte(data, 8 * k + 7),
        );
    }
}

/// Byte `i` of `data`, or the erased value past its end.
fn byte_or_erased(data: &[u8], i: usize) -> (r: u8)
    ensures
        r == padded_byte(data@, i as int),
{
    if i < data.len() {
        data[i]
    } else {
        ERASED
    }
}

/// The little-endian word of `data` at `start`, padded with the erased value.
fn word_at(data: &[u8], start: usize) -> (r: u32)
    requires
        start + 3 <= usize::MAX,
    ensures
        r == padded_word(data@, start as int),
{
    let b0 = byte_or_erased(data, start) as u32;
    let b1 = byte_or_erased(data, start + 1) as u32;
    let b2 = byte_or_erased(data, start + 2) as u32;
    let b3 = byte_or_erased(data, start + 3) as u32;
    b0 | (b1 << 8u32) | (b2 << 16u32) | (b3 << 24u32)
}

/// Splits `data` into the double-word units that program it at `base`.
pub fn to_double_words(base: u32, data: &[u8]) -> (r: Vec<DoubleWord>)
    requires
        base + data@.len() + 8 <= u32::MAX,
    ensures
        r@ == double_words(base, data@),
{
    let mut out: Vec<DoubleWord> = Vec::new();
    let count: usize = (data.len() + 7) / 8;
    let mut k: usize = 0;
    while k < count
        invariant
            base + data@.len() + 8 <= u32::MAX,
            count == unit_count(data@.len()),
            k <= count,
            out@.len() == k,
            forall|m: int| 0 <= m < k ==> #[trigger] out@[m] == double_words(base, data@)[m],
        decreases count - k,
    {
        let idx: usize = 8 * k;
        let unit = DoubleWord {
            address: base + idx as u32,
            low: word_at(data, idx),
            high: word_at(data, idx + 4),
        };
        out.push(unit);
        k = k + 1;
    }
    assert(out@ =~= double_words(base, data@));
    out
}

} // verus!
