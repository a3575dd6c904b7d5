//! One-time-programmable memory.
//!
//! The OTP window is 1 KiB of memory that can only be programmed once per
//! byte. The hardware does not refuse a second programming attempt, so the
//! blank check performed by [`OtpRegion::write`] is what keeps a written
//! record from being overwritten.

use vstd::prelude::*;
use crate::dword::{
    double_words, lemma_units_read_back, padded_byte, to_double_words, unit_bytes, DoubleWord,
    ERASED,
};

verus! {

/// Length of the OTP window in bytes.
pub const OTP_LEN: usize = 1024;

/// Bus address of the first OTP byte.
pub const OTP_ADDRESS: u32 = 0x1FFF_7000;

/// OTP memory write error.
#[derive(Debug, Clone, Copy, PartialEq, Eq, Structural)]
pub enum OtpWriteError {
    /// Payload will not fit in OTP.
    PayloadSize,
    /// Memory region is already occupied.
    Occupied,
}

/// Whether every byte of `mem` in `[offset, offset + len)` is erased.
pub open spec fn is_erased(mem: Seq<u8>, offset: int, len: int) -> bool {
    forall|i: int| offset <= i < offset + len ==> #[trigger] mem[i] == ERASED
}

/// `mem` with `data` stored at `offset`.
pub open spec fn stored(mem: Seq<u8>, offset: int, data: Seq<u8>) -> Seq<u8> {
    mem.take(offset) + data + mem.skip(offset + data.len())
}

/// Whether `len` bytes at `offset` lie inside the OTP window.
pub open spec fn fits(offset: int, len: int) -> bool {
    offset + len <= OTP_LEN
}

/// Writing once to a fully erased range is read back exactly: the window
/// then holds `data` at `offset` and every other byte as before, and the
/// programming units carry `data` followed by erased padding only.
pub proof fn lemma_write_read_back(mem: Seq<u8>, offset: int, data: Seq<u8>)
    requires
        mem.len() == OTP_LEN,
        0 <= offset,
        fits(offset, data.len() as int),
        is_erased(mem, offset, data.len() as int),
    ensures
        stored(mem, offset, data).len() == OTP_LEN,
        stored(mem, offset, data).subrange(offset, offset + data.len()) == data,
        forall|i: int|
            0 <= i < OTP_LEN && !(offset <= i < offset + data.len()) ==> #[trigger] stored(
                mem,
                offset,
                data,
            )[i] == mem[i],
        forall|i: int|
            0 <= i < unit_bytes(double_words((OTP_ADDRESS + offset) as u32, data)).len()
                ==> #[trigger] unit_bytes(double_words((OTP_ADDRESS + offset) as u32, data))[i]
                == padded_byte(data, i),
{
    assert(stored(mem, offset, data).subrange(offset, offset + data.len()) =~= data);
    lemma_units_read_back((OTP_ADDRESS + offset) as u32, data);
}

/// The contents of the OTP window, as last read from or written to the
/// device.
pub struct OtpRegion {
    bytes: Vec<u8>,
}

impl View for OtpRegion {
    type V = Seq<u8>;

    closed spec fn view(&self) -> Seq<u8> {
        self.bytes@
    }
}

impl OtpRegion {
    #[verifier::type_invariant]
    spec fn window_sized(&self) -> bool {
        self.bytes@.len() == OTP_LEN
    }

    /// Takes the contents of the OTP window read from the device.
    pub fn new(bytes: Vec<u8>) -> (r: Self)
        requires
            bytes@.len() == OTP_LEN,
        ensures
            r@ == bytes@,
    {
        OtpRegion { bytes }
    }

    /// Reads the 1 kilobyte of OTP memory.
    pub fn read(&self) -> (r: &[u8])
        ensures
            r@ == self@,
            r@.len() == OTP_LEN,
    {
        proof {
            use_type_invariant(self);
        }
        self.bytes.as_slice()
    }

    /// Whether `len` bytes from `offset` all read as erased.
    fn is_blank(&self, offset: usize, len: usize) -> (r: bool)
        requires
            offset + len <= OTP_LEN,
        ensures
            r == is_erased(self@, offset as int, len as int),
    {
        proof {
            use_type_invariant(self);
        }
        let mut i: usize = offset;
        while i < offset + len
            invariant
                offset <= i <= offset + len <= OTP_LEN,
                self.bytes@.len() == OTP_LEN,
                is_erased(self@, offset as int, i - offset),
            decreases offset + len - i,
        {
            if self.bytes[i] != ERASED {
                return false;
            }
            i = i + 1;
        }
        true
    }

    /// Writes `data` at `offset` into the window.
    ///
    /// Fails with [`OtpWriteError::PayloadSize`] when the data does not fit
    /// and with [`OtpWriteError::Occupied`] when any byte of the target
    /// range is not erased; the contents are then unchanged. On success the
    /// contents hold `data` at `offset`, and the result lists the
    /// double-word units that program it into the device.
    pub fn write(&mut self, data: &[u8], offset: usize) -> (r: Result<
        Vec<DoubleWord>,
        OtpWriteError,
    >)
        ensures
            !fits(offset as int, data@.len() as int) ==> r == Err::<Vec<DoubleWord>, OtpWriteError>(
                OtpWriteError::PayloadSize,
            ),
            fits(offset as int, data@.len() as int) && !is_erased(
                old(self)@,
                offset as int,
                data@.len() as int,
            ) ==> r == Err::<Vec<DoubleWord>, OtpWriteError>(OtpWriteError::Occupied),
            fits(offset as int, data@.len() as int) && is_erased(
                old(self)@,
                offset as int,
                data@.len() as int,
            ) ==> r is Ok,
            r is Err ==> final(self)@ == old(self)@,
            r is Ok ==> final(self)@ == stored(old(self)@, offset as int, data@) && r->Ok_0@
                == double_words((OTP_ADDRESS + offset) as u32, data@),
            final(self)@.len() == OTP_LEN,
    {
        proof {
            use_type_invariant(&*self);
        }
        if offset > OTP_LEN || data.len() > OTP_LEN - offset {
            return Err(OtpWriteError::PayloadSize);
        }
        if !self.is_blank(offset, data.len()) {
            return Err(OtpWriteError::Occupied);
        }
        let mut bytes: Vec<u8> = Vec::new();
        let mut i: usize = 0;
        while i < OTP_LEN
            invariant
                offset + data@.len() <= OTP_LEN,
                i <= OTP_LEN,
                self.bytes@.len() == OTP_LEN,
                bytes@ =~= stored(self@, offset as int, data@).take(i as int),
            decreases OTP_LEN - i,
        {
            if offset <= i && i < offset + data.len() {
                bytes.push(data[i - offset]);
            } else {
                bytes.push(self.bytes[i]);
            }
            i = i + 1;
        }
        assert(bytes@ =~= stored(self@, offset as int, data@));
        self.bytes = bytes;
        Ok(to_double_words(OTP_ADDRESS + offset as u32, data))
    }
}

} // verus!
