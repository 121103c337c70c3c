//! ACPI tables read from the bytes of physical memory: the root system description pointer,
//! the header and checksum shared by all system description tables, and the tables the kernel
//! uses.

pub mod rsdt;
pub mod madt;
pub mod hpet;
pub mod rsdp;

use vstd::prelude::*;

verus! {

/// The little-endian 16 bit number at `offset`.
pub open spec fn le16(bytes: Seq<u8>, offset: int) -> int {
    bytes[offset] + bytes[offset + 1] * 0x100
}

/// The little-endian 32 bit number at `offset`.
pub open spec fn le32(bytes: Seq<u8>, offset: int) -> int {
    le16(bytes, offset) + le16(bytes, offset + 2) * 0x10000
}

/// The little-endian 64 bit number at `offset`.
pub open spec fn le64(bytes: Seq<u8>, offset: int) -> int {
    le32(bytes, offset) + le32(bytes, offset + 4) * 0x1_0000_0000
}

/// Reads the little-endian 16 bit number at `offset`.
pub fn read_u16(bytes: &[u8], offset: usize) -> (value: u16)
    requires
        offset + 2 <= bytes@.len(),
    ensures
        value == le16(bytes@, offset as int),
{
    bytes[offset] as u16 + bytes[offset + 1] as u16 * 0x100
}

/// Reads the little-endian 32 bit number at `offset`.
pub fn read_u32(bytes: &[u8], offset: usize) -> (value: u32)
    requires
        offset + 4 <= bytes@.len(),
    ensures
        value == le32(bytes@, offset as int),
{
    let _ = bytes.len();
    read_u16(bytes, offset) as u32 + read_u16(bytes, offset + 2) as u32 * 0x10000
}

/// Reads the little-endian 64 bit number at `offset`.
pub fn read_u64(bytes: &[u8], offset: usize) -> (value: u64)
    requires
        offset + 8 <= bytes@.len(),
    ensures
        value == le64(bytes@, offset as int),
{
    let _ = bytes.len();
    read_u32(bytes, offset) as u64 + read_u32(bytes, offset + 4) as u64 * 0x1_0000_0000
}

pub fn read4(bytes: &[u8], offset: usize) -> (array: [u8; 4])
    requires
        offset + 4 <= bytes@.len(),
    ensures
        array@ == bytes@.subrange(offset as int, offset + 4),
{
    let array = [bytes[offset], bytes[offset + 1], bytes[offset + 2], bytes[offset + 3]];
    assert(array@ =~= bytes@.subrange(offset as int, offset + 4));
    array
}

pub fn read6(bytes: &[u8], offset: usize) -> (array: [u8; 6])
    requires
        offset + 6 <= bytes@.len(),
    ensures
        array@ == bytes@.subrange(offset as int, offset + 6),
{
    let array = [
        bytes[offset],
        bytes[offset + 1],
        bytes[offset + 2],
        bytes[offset + 3],
        bytes[offset + 4],
        bytes[offset + 5],
    ];
    assert(array@ =~= bytes@.subrange(offset as int, offset + 6));
    array
}

pub fn read8(bytes: &[u8], offset: usize) -> (array: [u8; 8])
    requires
        offset + 8 <= bytes@.len(),
    ensures
        array@ == bytes@.subrange(offset as int, offset + 8),
{
    let array = [
        bytes[offset],
        bytes[offset + 1],
        bytes[offset + 2],
        bytes[offset + 3],
        bytes[offset + 4],
        bytes[offset + 5],
        bytes[offset + 6],
        bytes[offset + 7],
    ];
    assert(array@ =~= bytes@.subrange(offset as int, offset + 8));
    array
}

/// The sum of the bytes.
pub open spec fn byte_sum(bytes: Seq<u8>) -> nat
    decreases bytes.len(),
{
    if bytes.len() == 0 {
        0
    } else {
        byte_sum(bytes.drop_last()) + bytes.last() as nat
    }
}

proof fn lemma_byte_sum_bound(bytes: Seq<u8>)
    ensures
        byte_sum(bytes) <= 255 * bytes.len(),
    decreases bytes.len(),
{
    if bytes.len() > 0 {
        lemma_byte_sum_bound(bytes.drop_last());
    }
}

/// The sum of the first `len` bytes, in wrapping byte arithmetic.
pub fn checksum(bytes: &[u8], len: usize) -> (sum: u8)
    requires
        len <= bytes@.len(),
    ensures
        sum == byte_sum(bytes@.take(len as int)) % 256,
{
    let mut sum: u8 = 0;
    let mut i: usize = 0;
    while i < len
        invariant
            i <= len,
            len <= bytes@.len(),
            sum == byte_sum(bytes@.take(i as int)) % 256,
        decreases len - i,
    {
        assert(bytes@.take(i + 1int).drop_last() =~= bytes@.take(i as int));
        sum = sum.wrapping_add(bytes[i]);
        i = i + 1;
    }
    sum
}

/// Whether two signatures are the same.
pub fn same_signature(a: &[u8; 4], b: &[u8; 4]) -> (same: bool)
    ensures
        same == (a@ == b@),
{
    let same = a[0] == b[0] && a[1] == b[1] && a[2] == b[2] && a[3] == b[3];
    if same {
        assert(a@ =~= b@);
    }
    same
}

/// An error validating a system description table.
#[derive(Clone, Copy, PartialEq, Eq, Debug)]
pub enum ValidationError {
    /// The sum of all the bytes in the table was not zero.
    InvalidByteSum(u8),
    /// The signature was unexpected.
    UnexpectedSignature { expected: [u8; 4], read: [u8; 4] },
}

/// The size of a system description table header.
pub const SDT_HEADER_SIZE: usize = 36;

/// The raw ACPI layout of the system description table header.
#[derive(Clone, Copy, PartialEq, Eq, Debug)]
pub struct SdtHeader {
    /// The signature of the table, e.g "RSDT".
    pub signature: [u8; 4],
    /// The length of the table.
    pub len: u32,
    /// The ACPI revision for this table.
    pub revision: u8,
    pub checksum: u8,
    /// The OEM ID, e.g "BOCHS".
    pub oem_id: [u8; 6],
    /// The manufacturer model id.
    pub oem_table_id: [u8; 8],
    pub oem_revision: u32,
    /// ID of the tool that generated the table.
    pub creator_id: [u8; 4],
    /// Revision of the tool that generated the table.
    pub creator_revision: u32,
}

impl SdtHeader {
    /// The header whose bytes start `bytes`.
    pub open spec fn parse_spec(bytes: Seq<u8>) -> SdtHeader {
        SdtHeader {
            signature: [bytes[0], bytes[1], bytes[2], bytes[3]],
            len: le32(bytes, 4) as u32,
            revision: bytes[8],
            checksum: bytes[9],
            oem_id: [bytes[10], bytes[11], bytes[12], bytes[13], bytes[14], bytes[15]],
            oem_table_id: [
                bytes[16],
                bytes[17],
                bytes[18],
                bytes[19],
                bytes[20],
                bytes[21],
                bytes[22],
                bytes[23],
            ],
            oem_revision: le32(bytes, 24) as u32,
            creator_id: [bytes[28], bytes[29], bytes[30], bytes[31]],
            creator_revision: le32(bytes, 32) as u32,
        }
    }

    /// Reads the header at the start of a table.
    pub fn parse(bytes: &[u8]) -> (header: SdtHeader)
        requires
            bytes@.len() >= SDT_HEADER_SIZE,
        ensures
            header == Self::parse_spec(bytes@),
    {
        let header = SdtHeader {
            signature: read4(bytes, 0),
            len: read_u32(bytes, 4),
            revision: bytes[8],
            checksum: bytes[9],
            oem_id: read6(bytes, 10),
            oem_table_id: read8(bytes, 16),
            oem_revision: read_u32(bytes, 24),
            creator_id: read4(bytes, 28),
            creator_revision: read_u32(bytes, 32),
        };
        let ghost expected = Self::parse_spec(bytes@);
        assert(header.signature =~= expected.signature);
        assert(header.oem_id =~= expected.oem_id);
        assert(header.oem_table_id =~= expected.oem_table_id);
        assert(header.creator_id =~= expected.creator_id);
        header
    }
}

/// Validates a table by checking that its signature is the expected one and that all `len`
/// bytes of the table add up to zero.
pub fn validate(header: &SdtHeader, table: &[u8], expected_signature: &[u8; 4]) -> (result: Result<
    (),
    ValidationError,
>)
    requires
        header.len <= table@.len(),
    ensures
        header.signature@ != expected_signature@ ==> result == Err::<(), ValidationError>(
            ValidationError::UnexpectedSignature { expected: *expected_signature, read: header.signature },
        ),
        header.signature@ == expected_signature@ ==> (if byte_sum(
            table@.take(header.len as int),
        ) % 256 == 0 {
            result is Ok
        } else {
            result == Err::<(), ValidationError>(
                ValidationError::InvalidByteSum((byte_sum(table@.take(header.len as int)) % 256) as u8),
            )
        }),
{
    if !same_signature(&header.signature, expected_signature) {
        return Err(
            ValidationError::UnexpectedSignature {
                expected: *expected_signature,
                read: header.signature,
            },
        );
    }
    let sum = checksum(table, header.len as usize);
    if sum == 0 {
        Ok(())
    } else {
        Err(ValidationError::InvalidByteSum(sum))
    }
}

} // verus!
