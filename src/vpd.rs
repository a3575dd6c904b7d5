//! Vital product data.
//!
//! The manufacturing record is stored once in OTP memory as a sequence of
//! TLV-C chunks, each with a four byte tag and a checksummed body. A field
//! whose chunk is absent, has the wrong length or fails its checksum takes
//! its default value, so the device always boots.

use vstd::prelude::*;

verus! {

/// Tag of the serial number chunk.
pub open spec fn serial_tag() -> Seq<u8> {
    seq![0x53u8, 0x45u8, 0x52u8, 0x20u8]
}

/// Tag of the hardware version chunk.
pub open spec fn hardware_tag() -> Seq<u8> {
    seq![0x48u8, 0x57u8, 0x20u8, 0x20u8]
}

/// Tag of the SKU chunk.
pub open spec fn sku_tag() -> Seq<u8> {
    seq![0x53u8, 0x4Bu8, 0x55u8, 0x20u8]
}

/// Serial number.
#[derive(Debug, Clone, Copy, PartialEq, Eq, Structural)]
pub struct Serial {
    pub year: u8,
    pub week: u8,
    pub seq: u16,
}

/// The serial number of an unprogrammed device: week 99 of year 99,
/// sequence 0x9999.
pub open spec fn default_serial() -> Serial {
    Serial { year: 99, week: 99, seq: 0x9999 }
}

impl Default for Serial {
    fn default() -> (r: Self)
        ensures
            r == default_serial(),
    {
        Serial { year: 99, week: 99, seq: 0x9999 }
    }
}

/// The serial number stored in four bytes: year, week, then the sequence
/// number little-endian.
pub open spec fn serial_of(b: Seq<u8>) -> Serial {
    Serial { year: b[0], week: b[1], seq: (b[2] + 256 * b[3]) as u16 }
}

impl Serial {
    /// Creates a new [`Serial`]
    pub fn new(year: u8, week: u8, seq: u16) -> (r: Self)
        ensures
            r == (Serial { year, week, seq }),
    {
        Self { year, week, seq }
    }

    /// Decodes the four byte record layout.
    pub fn from_bytes(b: &[u8]) -> (r: Self)
        requires
            b@.len() == 4,
        ensures
            r == serial_of(b@),
    {
        Serial { year: b[0], week: b[1], seq: b[2] as u16 + 256 * (b[3] as u16) }
    }

    /// The serial number as ASCII text: year and week as two or more
    /// decimal digits, a dash, then four upper-case hexadecimal digits of
    /// the sequence number (`"2412-0A3F"`).
    pub fn format(&self) -> (r: Vec<u8>)
        ensures
            r@ == padded2(self.year as nat) + padded2(self.week as nat) + seq![DASH] + hex4(
                self.seq as nat,
            ),
    {
        let mut out: Vec<u8> = Vec::new();
        push_padded2(&mut out, self.year);
        push_padded2(&mut out, self.week);
        out.push(DASH);
        let mut shift: u32 = 16;
        let mut k: usize = 0;
        while k < 4
            invariant
                k <= 4,
                shift == 16 - 4 * k,
                out@ == padded2(self.year as nat) + padded2(self.week as nat) + seq![DASH]
                    + hex4(self.seq as nat).take(k as int),
            decreases 4 - k,
        {
            shift = shift - 4;
            let nibble: u16 = (self.seq >> shift) & 0xF;
            proof {
                lemma_nibble(self.seq, k as int);
            }
            let ghost before = out@;
            out.push(hex_digit(nibble as u8));
            assert(hex4(self.seq as nat).take(k + 1) =~= hex4(self.seq as nat).take(k as int)
                + seq![hex4(self.seq as nat)[k as int]]);
            assert(out@ =~= before + seq![hex4(self.seq as nat)[k as int]]);
            k = k + 1;
        }
        assert(hex4(self.seq as nat).take(4) =~= hex4(self.seq as nat));
        out
    }
}

/// ASCII `-`.
pub const DASH: u8 = 0x2D;
/// ASCII `.`.
pub const DOT: u8 = 0x2E;

/// ASCII decimal digits of `n`, without leading zeros.
pub open spec fn decimal(n: nat) -> Seq<u8>
    decreases n,
{
    if n < 10 {
        seq![(0x30 + n) as u8]
    } else {
        decimal(n / 10) + seq![(0x30 + n % 10) as u8]
    }
}

/// ASCII decimal digits of `n`, at least two.
pub open spec fn padded2(n: nat) -> Seq<u8> {
    if n < 10 {
        seq![0x30u8] + decimal(n)
    } else {
        decimal(n)
    }
}

/// The upper-case ASCII hexadecimal digit of `d` (below 16).
pub open spec fn hex_char(d: nat) -> u8 {
    if d < 10 {
        (0x30 + d) as u8
    } else {
        (0x37 + d) as u8
    }
}

/// Four upper-case ASCII hexadecimal digits of `n`, most significant first.
pub open spec fn hex4(n: nat) -> Seq<u8> {
    seq![
        hex_char((n / 4096) % 16),
        hex_char((n / 256) % 16),
        hex_char((n / 16) % 16),
        hex_char(n % 16),
    ]
}

proof fn lemma_nibble(v: u16, k: int)
    requires
        0 <= k < 4,
    ensures
        (v >> (12 - 4 * k) as u16) & 0xF == hex_nibble(v as nat, k),
{
    if k == 0 {
        assert((v >> 12u16) & 0xF == v / 4096) by (bit_vector);
        assert(v / 4096 < 16) by (bit_vector);
    } else if k == 1 {
        assert((v >> 8u16) & 0xF == (v / 256) % 16) by (bit_vector);
    } else if k == 2 {
        assert((v >> 4u16) & 0xF == (v / 16) % 16) by (bit_vector);
    } else {
        assert((v >> 0u16) & 0xF == v % 16) by (bit_vector);
    }
}

/// Digit `k` (0 most significant) of the four hexadecimal digits of `n`.
pub open spec fn hex_nibble(n: nat, k: int) -> nat {
    if k == 0 {
        (n / 4096) % 16
    } else if k == 1 {
        (n / 256) % 16
    } else if k == 2 {
        (n / 16) % 16
    } else {
        n % 16
    }
}

fn hex_digit(d: u8) -> (r: u8)
    requires
        d < 16,
    ensures
        r == hex_char(d as nat),
{
    if d < 10 {
        0x30 + d
    } else {
        0x37 + d
    }
}

/// Appends the decimal digits of `n`.
fn push_decimal(out: &mut Vec<u8>, n: u8)
    ensures
        final(out)@ == old(out)@ + decimal(n as nat),
{
    proof {
        reveal_with_fuel(decimal, 3);
    }
    if n >= 100 {
        out.push(0x30 + n / 100);
    }
    if n >= 10 {
        out.push(0x30 + (n / 10) % 10);
    }
    out.push(0x30 + n % 10);
    proof {
        if n >= 100 {
            assert(decimal((n / 10) as nat) == decimal((n / 100) as nat) + seq![
                (0x30 + (n / 10) % 10) as u8,
            ]);
            assert(decimal((n / 100) as nat) == seq![(0x30 + n / 100) as u8]);
        }
        assert(final(out)@ =~= old(out)@ + decimal(n as nat));
    }
}

/// Appends the decimal digits of `n`, at least two.
fn push_padded2(out: &mut Vec<u8>, n: u8)
    ensures
        final(out)@ == old(out)@ + padded2(n as nat),
{
    if n < 10 {
        out.push(0x30);
    }
    push_decimal(out, n);
    assert(final(out)@ =~= old(out)@ + padded2(n as nat));
}

/// Semantic version number.
#[derive(Debug, Clone, Copy, PartialEq, Eq, Structural)]
pub struct Version {
    pub major: u8,
    pub minor: u8,
    pub patch: u8,
    pub pre: u8,
}

/// Version 0.0.0, the hardware version of an unprogrammed device.
pub open spec fn default_version() -> Version {
    Version { major: 0, minor: 0, patch: 0, pre: 0 }
}

impl Default for Version {
    fn default() -> (r: Self)
        ensures
            r == default_version(),
    {
        Version { major: 0, minor: 0, patch: 0, pre: 0 }
    }
}

/// The version stored in four bytes: major, minor, patch, pre-release.
pub open spec fn version_of(b: Seq<u8>) -> Version {
    Version { major: b[0], minor: b[1], patch: b[2], pre: b[3] }
}

/// `"-rc."`.
pub open spec fn rc_suffix() -> Seq<u8> {
    seq![DASH, 0x72u8, 0x63u8, DOT]
}

impl Version {
    /// Creates a new [`Version`].
    pub fn new(major: u8, minor: u8, patch: u8, pre: u8) -> (r: Self)
        ensures
            r == (Version { major, minor, patch, pre }),
    {
        Self { major, minor, patch, pre }
    }

    /// Decodes the four byte record layout.
    pub fn from_bytes(b: &[u8]) -> (r: Self)
        requires
            b@.len() == 4,
        ensures
            r == version_of(b@),
    {
        Version { major: b[0], minor: b[1], patch: b[2], pre: b[3] }
    }

    /// The version as ASCII text, `"major.minor.patch"`, followed by
    /// `"-rc.pre"` for a pre-release.
    pub fn format(&self) -> (r: Vec<u8>)
        ensures
            r@ == decimal(self.major as nat) + seq![DOT] + decimal(self.minor as nat) + seq![DOT]
                + decimal(self.patch as nat) + (if self.pre != 0 {
                rc_suffix() + decimal(self.pre as nat)
            } else {
                Seq::empty()
            }),
    {
        let mut out: Vec<u8> = Vec::new();
        push_decimal(&mut out, self.major);
        out.push(DOT);
        push_decimal(&mut out, self.minor);
        out.push(DOT);
        push_decimal(&mut out, self.patch);
        let ghost base = out@;
        if self.pre != 0 {
            out.push(DASH);
            out.push(0x72);
            out.push(0x63);
            out.push(DOT);
            assert(out@ =~= base + rc_suffix());
            push_decimal(&mut out, self.pre);
            assert(out@ =~= base + (rc_suffix() + decimal(self.pre as nat)));
        } else {
            assert(out@ =~= base + Seq::<u8>::empty());
        }
        out
    }
}

/// SKU identity
#[derive(Debug, Clone, Copy, PartialEq, Eq, Structural)]
pub enum SkuId {
    /// M.2 key E card, code 1.
    M2KeyE,
    /// Mini PCIe card, code 2.
    MiniPCIe,
}

/// The SKU with code `value`, if known.
pub open spec fn sku_id_of(value: u8) -> Option<SkuId> {
    if value == 1 {
        Some(SkuId::M2KeyE)
    } else if value == 2 {
        Some(SkuId::MiniPCIe)
    } else {
        None
    }
}

impl SkuId {
    /// The SKU with code `value`; an unknown code is handed back.
    pub fn try_from(value: u8) -> (r: Result<SkuId, u8>)
        ensures
            sku_id_of(value) is Some ==> r == Ok::<SkuId, u8>(sku_id_of(value)->Some_0),
            sku_id_of(value) is None ==> r == Err::<SkuId, u8>(value),
    {
        match value {
            1 => Ok(SkuId::M2KeyE),
            2 => Ok(SkuId::MiniPCIe),
            _ => Err(value),
        }
    }

    /// The code of this SKU.
    pub fn code(&self) -> (r: u8)
        ensures
            sku_id_of(r) == Some(*self),
    {
        match self {
            SkuId::M2KeyE => 1,
            SkuId::MiniPCIe => 2,
        }
    }
}

/// A SKU code, known or not.
#[derive(Debug, Clone, Copy, PartialEq, Eq, Structural)]
pub enum Sku {
    Known(SkuId),
    Unknown(u8),
}

/// The SKU for code `value`.
pub open spec fn sku_of(value: u8) -> Sku {
    match sku_id_of(value) {
        Some(id) => Sku::Known(id),
        None => Sku::Unknown(value),
    }
}

impl From<u8> for Sku {
    fn from(value: u8) -> (r: Self)
        ensures
            r == sku_of(value),
    {
        match SkuId::try_from(value) {
            Ok(sku) => Sku::Known(sku),
            Err(sku) => Sku::Unknown(sku),
        }
    }
}

impl vstd::std_specs::convert::FromSpecImpl<u8> for Sku {
    open spec fn obeys_from_spec() -> bool {
        true
    }

    open spec fn from_spec(v: u8) -> Sku {
        sku_of(v)
    }
}

/// Vital product data
#[derive(Debug, Clone, Copy, PartialEq, Eq, Structural)]
pub struct VitalProductData {
    pub serial: Serial,
    pub hardware: Version,
    pub sku: Sku,
}

/// The record of a device whose manufacturing data is absent or corrupt.
pub open spec fn default_vpd() -> VitalProductData {
    VitalProductData { serial: default_serial(), hardware: default_version(), sku: sku_of(0) }
}

impl Default for VitalProductData {
    fn default() -> (r: Self)
        ensures
            r == default_vpd(),
    {
        VitalProductData {
            serial: Serial::default(),
            hardware: Version::default(),
            sku: Sku::from(0),
        }
    }
}

/// A chunk as delivered by the TLV-C reader: its tag, its body, and whether
/// the body matched its checksum.
#[derive(Debug, Clone, PartialEq, Eq)]
pub struct Chunk {
    pub tag: [u8; 4],
    pub body: Vec<u8>,
    pub checksum_ok: bool,
}

/// The body of the last chunk tagged `tag`, if there is one, its body has
/// `size` bytes and it passed its checksum.
pub open spec fn field_body(chunks: Seq<Chunk>, tag: Seq<u8>, size: nat) -> Option<Seq<u8>>
    decreases chunks.len(),
{
    if chunks.len() == 0 {
        None
    } else if chunks.last().tag@ == tag {
        if chunks.last().body@.len() == size && chunks.last().checksum_ok {
            Some(chunks.last().body@)
        } else {
            None
        }
    } else {
        field_body(chunks.drop_last(), tag, size)
    }
}

proof fn lemma_field_body_size(chunks: Seq<Chunk>, tag: Seq<u8>, size: nat)
    ensures
        field_body(chunks, tag, size) is Some ==> field_body(chunks, tag, size)->Some_0.len()
            == size,
    decreases chunks.len(),
{
    if chunks.len() > 0 && chunks.last().tag@ != tag {
        lemma_field_body_size(chunks.drop_last(), tag, size);
    }
}

/// The record described by a sequence of chunks; each field absent or
/// rejected takes its default.
pub open spec fn vpd_of(chunks: Seq<Chunk>) -> VitalProductData {
    VitalProductData {
        serial: match field_body(chunks, serial_tag(), 4) {
            Some(b) => serial_of(b),
            None => default_serial(),
        },
        hardware: match field_body(chunks, hardware_tag(), 4) {
            Some(b) => version_of(b),
            None => default_version(),
        },
        sku: match field_body(chunks, sku_tag(), 1) {
            Some(b) => sku_of(b[0]),
            None => sku_of(0),
        },
    }
}

/// The bytes of an optional body.
pub open spec fn body_view(b: Option<&[u8]>) -> Option<Seq<u8>> {
    match b {
        Some(s) => Some(s@),
        None => None,
    }
}

/// Whether `tag` equals the four bytes `t`.
fn tag_is(tag: &[u8; 4], t0: u8, t1: u8, t2: u8, t3: u8) -> (r: bool)
    ensures
        r == (tag@ == seq![t0, t1, t2, t3]),
{
    let r = tag[0] == t0 && tag[1] == t1 && tag[2] == t2 && tag[3] == t3;
    if r {
        assert(tag@ =~= seq![t0, t1, t2, t3]);
    } else {
        assert(tag@ != seq![t0, t1, t2, t3] || tag@[0] != t0 || tag@[1] != t1 || tag@[2]
            != t2 || tag@[3] != t3);
    }
    r
}

proof fn lemma_rejected_chunks(chunks: Seq<Chunk>, tag: Seq<u8>, size: nat)
    requires
        forall|i: int| 0 <= i < chunks.len() ==> !(#[trigger] chunks[i]).checksum_ok,
    ensures
        field_body(chunks, tag, size) is None,
    decreases chunks.len(),
{
    if chunks.len() > 0 {
        lemma_rejected_chunks(chunks.drop_last(), tag, size);
    }
}

/// Absent or corrupt manufacturing data never stops the device: reading no
/// chunks at all, or only chunks that failed their checksum, gives the
/// default record (serial 99/99/0x9999, version 0.0.0, SKU code 0); and a
/// chunk that fails its checksum is rejected, its field taking the default
/// even when an earlier chunk with the same tag was valid.
pub proof fn lemma_default_fallback(chunks: Seq<Chunk>, corrupt: Chunk)
    ensures
        vpd_of(Seq::empty()) == default_vpd(),
        (forall|i: int| 0 <= i < chunks.len() ==> !(#[trigger] chunks[i]).checksum_ok) ==> vpd_of(
            chunks,
        ) == default_vpd(),
        !corrupt.checksum_ok && corrupt.tag@ == serial_tag() ==> vpd_of(chunks.push(corrupt)).serial
            == default_serial(),
        !corrupt.checksum_ok && corrupt.tag@ == hardware_tag() ==> vpd_of(
            chunks.push(corrupt),
        ).hardware == default_version(),
        !corrupt.checksum_ok && corrupt.tag@ == sku_tag() ==> vpd_of(chunks.push(corrupt)).sku
            == sku_of(0),
{
    if forall|i: int| 0 <= i < chunks.len() ==> !(#[trigger] chunks[i]).checksum_ok {
        lemma_rejected_chunks(chunks, serial_tag(), 4);
        lemma_rejected_chunks(chunks, hardware_tag(), 4);
        lemma_rejected_chunks(chunks, sku_tag(), 1);
    }
    assert(chunks.push(corrupt).last() == corrupt);
}

impl VitalProductData {
    /// Checks a chunk body: `Some` when it has `size` bytes and passed its
    /// checksum.
    fn process_chunk(chunk: &Chunk, size: usize) -> (r: Option<&[u8]>)
        ensures
            r is Some <==> chunk.body@.len() == size && chunk.checksum_ok,
            r is Some ==> r->Some_0@ == chunk.body@,
    {
        if chunk.body.len() != size || !chunk.checksum_ok {
            return None;
        }
        Some(chunk.body.as_slice())
    }

    /// Reads the record from the TLV-C chunks found in OTP memory, in
    /// order.
    ///
    /// For each field the last chunk with its tag counts; a field whose
    /// chunk is absent, of the wrong size or fails its checksum takes its
    /// default value. Unknown tags are ignored.
    pub fn from_tlvc(chunks: &[Chunk]) -> (r: Self)
        ensures
            r == vpd_of(chunks@),
    {
        let mut serial: Option<&[u8]> = None;
        let mut version: Option<&[u8]> = None;
        let mut sku: Option<&[u8]> = None;
        let mut i: usize = 0;
        while i < chunks.len()
            invariant
                i <= chunks@.len(),
                body_view(serial) == field_body(chunks@.take(i as int), serial_tag(), 4),
                body_view(version) == field_body(chunks@.take(i as int), hardware_tag(), 4),
                body_view(sku) == field_body(chunks@.take(i as int), sku_tag(), 1),
            decreases chunks.len() - i,
        {
            let chunk = &chunks[i];
            assert(chunks@.take(i + 1).drop_last() =~= chunks@.take(i as int));
            if tag_is(&chunk.tag, 0x53, 0x45, 0x52, 0x20) {
                serial = Self::process_chunk(chunk, 4);
            } else if tag_is(&chunk.tag, 0x48, 0x57, 0x20, 0x20) {
                version = Self::process_chunk(chunk, 4);
            } else if tag_is(&chunk.tag, 0x53, 0x4B, 0x55, 0x20) {
                sku = Self::process_chunk(chunk, 1);
            }
            i = i + 1;
        }
        assert(chunks@.take(chunks@.len() as int) =~= chunks@);
        proof {
            lemma_field_body_size(chunks@, serial_tag(), 4);
            lemma_field_body_size(chunks@, hardware_tag(), 4);
            lemma_field_body_size(chunks@, sku_tag(), 1);
        }
        let serial = match serial {
            Some(b) => Serial::from_bytes(b),
            None => Serial::default(),
        };
        let hardware = match version {
            Some(b) => Version::from_bytes(b),
            None => Version::default(),
        };
        let sku = match sku {
            Some(b) => Sku::from(b[0]),
            None => Sku::from(0),
        };
        VitalProductData { serial, hardware, sku }
    }
}

} // verus!
