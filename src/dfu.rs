//! Dual-bank flash update planning.
//!
//! The flash window `0x0800_0000..=0x0803_FFFF` always shows the bank the
//! device booted from; the other bank is visible `BANK2_OFFSET` bytes
//! higher. Every write and erase is aimed at that upper alias, so the
//! running image is never touched. Which physical bank boots is chosen by
//! one option bit, `BFB2`, and swapping it is the commit point of an
//! update.

use vstd::prelude::*;
use crate::dword::{double_words, to_double_words, DoubleWord};

verus! {

/// First word of the flash unlock key sequence.
pub const KEY1: u32 = 0x4567_0123;
/// Second word of the flash unlock key sequence.
pub const KEY2: u32 = 0xCDEF_89AB;
/// First word of the option-byte unlock key sequence.
pub const OPT_KEY1: u32 = 0x0819_2A3B;
/// Second word of the option-byte unlock key sequence.
pub const OPT_KEY2: u32 = 0x4C5D_6E7F;

/// First address of the flash window.
pub const FLASH_START: u32 = 0x0800_0000;
/// Last address of the flash window.
pub const FLASH_END: u32 = 0x0803_FFFF;
/// Distance from an address of the booted bank to the same address of the
/// other bank.
pub const BANK2_OFFSET: u32 = 0x0004_0000;
/// Size of a flash page, and of the write buffer.
pub const PAGE_SIZE: usize = 2048;
/// Number of pages in one bank.
pub const PAGE_COUNT: u32 = 128;

/// Boot from bank 2 enabled bit of the option register.
pub const OPTR_BFB2: u32 = 0x0010_0000;
/// Dual bank mode enabled bit of the option register.
pub const OPTR_DBANK: u32 = 0x0040_0000;

/// A physical flash bank.
#[derive(Debug, Clone, Copy, PartialEq, Eq, Structural)]
pub enum Bank {
    Bank1,
    Bank2,
}

/// The bank that is not `b`.
pub open spec fn other_bank(b: Bank) -> Bank {
    match b {
        Bank::Bank1 => Bank::Bank2,
        Bank::Bank2 => Bank::Bank1,
    }
}

/// The bank that boots under option register value `optr`.
pub open spec fn booted_bank(optr: u32) -> Bank {
    if optr & OPTR_BFB2 != 0 {
        Bank::Bank2
    } else {
        Bank::Bank1
    }
}

/// `optr` with the boot bank selection bit flipped.
pub open spec fn swapped_optr(optr: u32) -> u32 {
    if optr & OPTR_BFB2 != 0 {
        optr & !OPTR_BFB2
    } else {
        optr | OPTR_BFB2
    }
}

/// The physical bank behind bus address `address` while `active` is booted:
/// the lower half of the dual-bank map shows the booted bank, the upper
/// half the other one.
pub open spec fn bank_at(address: int, active: Bank) -> Bank {
    if address < FLASH_START + BANK2_OFFSET {
        active
    } else {
        other_bank(active)
    }
}

/// Whether `length` bytes from `address` lie inside the flash window.
pub open spec fn in_window(address: int, length: int) -> bool {
    FLASH_START <= address <= FLASH_END && address + length <= FLASH_END + 1
}

/// The page of the flash window that starts at `address`, if any.
pub open spec fn page_at(address: int) -> Option<u8> {
    if FLASH_START <= address && (address - FLASH_START) % (PAGE_SIZE as int) == 0 && (address
        - FLASH_START) / (PAGE_SIZE as int) < PAGE_COUNT {
        Some(((address - FLASH_START) / (PAGE_SIZE as int)) as u8)
    } else {
        None
    }
}

/// Flash memory error.
#[derive(Debug, Clone, Copy, PartialEq, Eq, Structural)]
pub enum FlashError {
    /// The address range is outside the flash window or not page aligned.
    Address,
    /// The requested length exceeds the write buffer.
    Prog,
    /// The operation is not supported.
    Unknown,
}

/// A page erase: `page` of physical bank `bank`.
#[derive(Debug, Clone, Copy, PartialEq, Eq, Structural)]
pub struct PageErase {
    pub bank: Bank,
    pub page: u8,
}

/// Get active bank number from the option register value.
pub fn active_bank(optr: u32) -> (r: Bank)
    ensures
        r == booted_bank(optr),
{
    if optr & OPTR_BFB2 != 0 {
        Bank::Bank2
    } else {
        Bank::Bank1
    }
}

/// The bank that updates are written to.
pub fn inactive_bank(optr: u32) -> (r: Bank)
    ensures
        r == other_bank(booted_bank(optr)),
{
    match active_bank(optr) {
        Bank::Bank1 => Bank::Bank2,
        Bank::Bank2 => Bank::Bank1,
    }
}

/// The option register value with dual bank mode enabled.
pub fn enable_dual_bank(optr: u32) -> (r: u32)
    ensures
        r == optr | OPTR_DBANK,
        booted_bank(r) == booted_bank(optr),
{
    let r = optr | OPTR_DBANK;
    assert((optr | 0x0040_0000u32) & 0x0010_0000u32 == optr & 0x0010_0000u32) by (bit_vector);
    r
}

/// The option register value that boots the other bank; no other bit
/// changes.
pub fn swap_banks(optr: u32) -> (r: u32)
    ensures
        r == swapped_optr(optr),
        booted_bank(r) == other_bank(booted_bank(optr)),
        r & !OPTR_BFB2 == optr & !OPTR_BFB2,
{
    match active_bank(optr) {
        Bank::Bank1 => {
            assert((optr | 0x0010_0000u32) & 0x0010_0000u32 != 0) by (bit_vector);
            assert((optr | 0x0010_0000u32) & !0x0010_0000u32 == optr & !0x0010_0000u32)
                by (bit_vector);
            optr | OPTR_BFB2
        },
        Bank::Bank2 => {
            assert((optr & !0x0010_0000u32) & 0x0010_0000u32 == 0) by (bit_vector);
            assert((optr & !0x0010_0000u32) & !0x0010_0000u32 == optr & !0x0010_0000u32)
                by (bit_vector);
            optr & !OPTR_BFB2
        },
    }
}

/// The physical bank behind bus address `address` while `active` is booted.
pub fn bank_of_address(address: u32, active: Bank) -> (r: Bank)
    ensures
        r == bank_at(address as int, active),
{
    if address < FLASH_START + BANK2_OFFSET {
        active
    } else {
        match active {
            Bank::Bank1 => Bank::Bank2,
            Bank::Bank2 => Bank::Bank1,
        }
    }
}

/// The page of the flash window that starts at `address`, if any.
pub fn sector_from_address(address: u32) -> (r: Option<u8>)
    ensures
        r == page_at(address as int),
{
    if address < FLASH_START {
        return None;
    }
    let rel: u32 = address - FLASH_START;
    if rel % (PAGE_SIZE as u32) != 0 {
        return None;
    }
    let sector: u32 = rel / (PAGE_SIZE as u32);
    if sector < PAGE_COUNT {
        Some(sector as u8)
    } else {
        None
    }
}

/// Whether `length` bytes from `address` lie inside the flash window.
fn range_in_window(address: u32, length: usize) -> (r: bool)
    ensures
        r == in_window(address as int, length as int),
{
    FLASH_START <= address && address <= FLASH_END && length <= (FLASH_END - address + 1) as usize
}

/// Flash update state: the page-sized write buffer staged for the next
/// program operation.
pub struct DfuFlash {
    buffer: Vec<u8>,
}

impl View for DfuFlash {
    type V = Seq<u8>;

    closed spec fn view(&self) -> Seq<u8> {
        self.buffer@
    }
}

impl DfuFlash {
    #[verifier::type_invariant]
    spec fn page_sized(&self) -> bool {
        self.buffer@.len() == PAGE_SIZE
    }

    /// Creates the update state with a zeroed write buffer.
    pub fn new() -> (r: Self)
        ensures
            r@ == Seq::new(PAGE_SIZE as nat, |i: int| 0u8),
            r@.len() == PAGE_SIZE,
    {
        let mut buffer: Vec<u8> = Vec::new();
        let mut i: usize = 0;
        while i < PAGE_SIZE
            invariant
                i <= PAGE_SIZE,
                buffer@ =~= Seq::new(i as nat, |j: int| 0u8),
            decreases PAGE_SIZE - i,
        {
            buffer.push(0);
            i = i + 1;
        }
        DfuFlash { buffer }
    }

    /// Checks a read of `length` bytes at `address`: it must lie inside
    /// the flash window.
    pub fn read(&self, address: u32, length: usize) -> (r: Result<(), FlashError>)
        ensures
            r is Ok <==> in_window(address as int, length as int),
            r is Err ==> r == Err::<(), FlashError>(FlashError::Address),
            self@.len() == PAGE_SIZE,
    {
        proof {
            use_type_invariant(self);
        }
        if range_in_window(address, length) {
            Ok(())
        } else {
            Err(FlashError::Address)
        }
    }

    /// Plans the erase of the page at `address` in the bank that is not
    /// booted under option register value `optr`.
    pub fn erase(&self, optr: u32, address: u32) -> (r: Result<PageErase, FlashError>)
        ensures
            page_at(address as int) is None ==> r == Err::<PageErase, FlashError>(
                FlashError::Address,
            ),
            page_at(address as int) is Some ==> r == Ok::<PageErase, FlashError>(
                PageErase {
                    bank: other_bank(booted_bank(optr)),
                    page: page_at(address as int)->Some_0,
                },
            ),
    {
        match sector_from_address(address) {
            None => Err(FlashError::Address),
            Some(page) => {
                let bank = bank_of_address(address + BANK2_OFFSET, active_bank(optr));
                Ok(PageErase { bank, page })
            },
        }
    }

    /// Mass erase is not supported.
    pub fn erase_all(&self) -> (r: Result<(), FlashError>)
        ensures
            r == Err::<(), FlashError>(FlashError::Unknown),
    {
        Err(FlashError::Unknown)
    }

    /// Stages `src` at the start of the write buffer.
    pub fn store_write_buffer(&mut self, src: &[u8]) -> (r: Result<(), ()>)
        ensures
            r is Ok <==> src@.len() <= PAGE_SIZE,
            old(self)@.len() == PAGE_SIZE,
            r is Ok ==> final(self)@ == src@ + old(self)@.skip(src@.len() as int),
            r is Err ==> final(self)@ == old(self)@,
            final(self)@.len() == PAGE_SIZE,
    {
        proof {
            use_type_invariant(&*self);
        }
        if src.len() > PAGE_SIZE {
            return Err(());
        }
        let mut bytes: Vec<u8> = Vec::new();
        let mut i: usize = 0;
        while i < PAGE_SIZE
            invariant
                src@.len() <= PAGE_SIZE,
                i <= PAGE_SIZE,
                self.buffer@.len() == PAGE_SIZE,
                bytes@ =~= (src@ + self@.skip(src@.len() as int)).take(i as int),
            decreases PAGE_SIZE - i,
        {
            if i < src.len() {
                bytes.push(src[i]);
            } else {
                bytes.push(self.buffer[i]);
            }
            i = i + 1;
        }
        assert(bytes@ =~= src@ + self@.skip(src@.len() as int));
        self.buffer = bytes;
        Ok(())
    }

    /// Plans programming the first `length` staged bytes at `address`.
    ///
    /// The units are aimed at the same address of the bank that is not
    /// booted, whatever address is given.
    pub fn program(&self, address: u32, length: usize) -> (r: Result<
        Vec<DoubleWord>,
        FlashError,
    >)
        ensures
            !in_window(address as int, length as int) ==> r == Err::<Vec<DoubleWord>, FlashError>(
                FlashError::Address,
            ),
            in_window(address as int, length as int) && length > PAGE_SIZE ==> r == Err::<
                Vec<DoubleWord>,
                FlashError,
            >(FlashError::Prog),
            in_window(address as int, length as int) && length <= PAGE_SIZE ==> r is Ok && r->Ok_0@
                == double_words((address + BANK2_OFFSET) as u32, self@.take(length as int)),
            self@.len() == PAGE_SIZE,
    {
        proof {
            use_type_invariant(self);
        }
        if !range_in_window(address, length) {
            return Err(FlashError::Address);
        }
        if length > PAGE_SIZE {
            return Err(FlashError::Prog);
        }
        let data = slice_prefix(self.buffer.as_slice(), length);
        Ok(to_double_words(address + BANK2_OFFSET, data))
    }
}

/// An update never touches the running image: for every address range
/// inside the flash window, each unit that [`DfuFlash::program`] plans lies,
/// from its first byte to its last, in the bank that is not booted; and
/// once the boot bank selection is swapped, that bank is the one booted.
pub proof fn lemma_program_targets_inactive_bank(optr: u32, address: u32, data: Seq<u8>)
    requires
        in_window(address as int, data.len() as int),
        data.len() <= PAGE_SIZE,
    ensures
        forall|k: int|
            0 <= k < double_words((address + BANK2_OFFSET) as u32, data).len() ==> {
                let u = #[trigger] double_words((address + BANK2_OFFSET) as u32, data)[k];
                &&& bank_at(u.address as int, booted_bank(optr)) == other_bank(booted_bank(optr))
                &&& bank_at(u.address + 7, booted_bank(optr)) == other_bank(booted_bank(optr))
            },
        booted_bank(swapped_optr(optr)) == other_bank(booted_bank(optr)),
{
    let units = double_words((address + BANK2_OFFSET) as u32, data);
    assert forall|k: int| 0 <= k < units.len() implies (#[trigger] units[k]).address == address
        + BANK2_OFFSET + 8 * k by {
        assert(8 * k <= data.len() + 7) by (nonlinear_arith)
            requires
                0 <= k < (data.len() + 7) / 8,
        ;
    }
    assert((optr & !0x0010_0000u32) & 0x0010_0000u32 == 0) by (bit_vector);
    assert((optr | 0x0010_0000u32) & 0x0010_0000u32 != 0) by (bit_vector);
}

/// The first `len` bytes of `s`.
fn slice_prefix(s: &[u8], len: usize) -> (r: &[u8])
    requires
        len <= s@.len(),
    ensures
        r@ == s@.take(len as int),
{
    let r = vstd::slice::slice_subrange(s, 0, len);
    assert(r@ =~= s@.take(len as int));
    r
}

} // verus!
