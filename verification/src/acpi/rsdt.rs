//! The RSDT and XSDT: the lists of addresses of the other system description tables.

use vstd::prelude::*;
use crate::acpi::{le32, le64, read_u32, read_u64, SdtHeader, ValidationError, validate, byte_sum, SDT_HEADER_SIZE};

verus! {

/// The RSDT signature, "RSDT".
pub const RSDT_HEADER: [u8; 4] = [0x52, 0x53, 0x44, 0x54];
/// The XSDT signature, "XSDT".
pub const XSDT_HEADER: [u8; 4] = [0x58, 0x53, 0x44, 0x54];

/// The width of a table pointer found in the XSDT or RSDT. Implemented for `u32` and `u64`.
pub trait TablePtrWidth {
    /// The address the pointer holds.
    fn into_usize(self) -> usize;
}

impl TablePtrWidth for u32 {
    fn into_usize(self) -> (address: usize)
        ensures
            address == self as usize,
    {
        self as usize
    }
}

impl TablePtrWidth for u64 {
    fn into_usize(self) -> (address: usize)
        ensures
            address == self as usize,
    {
        self as usize
    }
}

/// The addresses of the tables listed in an RSDT (32 bit entries) or XSDT (64 bit entries).
#[derive(Clone, Copy, PartialEq, Eq, Structural, Debug)]
pub struct TableAddresses {
    pub entries: usize,
    pub cur: usize,
    pub extended: bool,
}

/// The bytes an entry takes.
pub open spec fn entry_width(extended: bool) -> int {
    if extended {
        8
    } else {
        4
    }
}

/// The `index`-th address listed in `entries` (the bytes after the table header).
pub open spec fn listed_address(entries: Seq<u8>, index: int, extended: bool) -> usize {
    if extended {
        le64(entries, index * 8) as usize
    } else {
        le32(entries, index * 4) as usize
    }
}

impl TableAddresses {
    /// The addresses of `entries` entries, from the first on.
    pub fn from(entries: usize, extended: bool) -> (addresses: TableAddresses)
        ensures
            addresses == (TableAddresses { entries, cur: 0, extended }),
    {
        TableAddresses { entries, cur: 0, extended }
    }

    /// The next address, read from `table` (the bytes after the header), or `None` after the
    /// last one.
    pub fn next(&mut self, table: &[u8]) -> (address: Option<usize>)
        requires
            old(self).cur < old(self).entries ==> (old(self).cur + 1) * entry_width(
                old(self).extended,
            ) <= table@.len(),
        ensures
            final(self).entries == old(self).entries,
            final(self).extended == old(self).extended,
            old(self).cur < old(self).entries ==> address == Some(
                listed_address(table@, old(self).cur as int, old(self).extended),
            ) && final(self).cur == old(self).cur + 1,
            old(self).cur >= old(self).entries ==> address is None && final(self).cur == old(
                self,
            ).cur,
    {
        if self.cur < self.entries {
            let _ = table.len();
            let address = if self.extended {
                read_u64(table, self.cur * 8).into_usize()
            } else {
                read_u32(table, self.cur * 4).into_usize()
            };
            self.cur = self.cur + 1;
            Some(address)
        } else {
            None
        }
    }

    /// How many addresses are left.
    pub fn size_hint(&self) -> (left: usize)
        requires
            self.cur <= self.entries,
        ensures
            left == self.entries - self.cur,
    {
        self.entries - self.cur
    }
}

/// Validates an RSDT (`is_extended` false) or XSDT from its header and bytes, and lists the
/// addresses of its tables: the entries fill the table after its header.
pub fn table_addresses(header: &SdtHeader, table: &[u8], is_extended: bool) -> (result: Result<
    TableAddresses,
    ValidationError,
>)
    requires
        header.len <= table@.len(),
        header.len >= SDT_HEADER_SIZE,
    ensures
        ({
            let expected = if is_extended {
                XSDT_HEADER
            } else {
                RSDT_HEADER
            };
            if header.signature@ != expected@ {
                result == Err::<TableAddresses, ValidationError>(
                    ValidationError::UnexpectedSignature { expected, read: header.signature },
                )
            } else if byte_sum(table@.take(header.len as int)) % 256 != 0 {
                result == Err::<TableAddresses, ValidationError>(
                    ValidationError::InvalidByteSum(
                        (byte_sum(table@.take(header.len as int)) % 256) as u8,
                    ),
                )
            } else {
                result == Ok::<TableAddresses, ValidationError>(
                    TableAddresses {
                        entries: ((header.len - SDT_HEADER_SIZE) / entry_width(is_extended)) as usize,
                        cur: 0,
                        extended: is_extended,
                    },
                )
            }
        }),
{
    let expected = if is_extended {
        XSDT_HEADER
    } else {
        RSDT_HEADER
    };
    match validate(header, table, &expected) {
        Ok(_) => {},
        Err(e) => {
            return Err(e);
        },
    }
    let width: usize = if is_extended {
        8
    } else {
        4
    };
    Ok(TableAddresses::from((header.len as usize - SDT_HEADER_SIZE) / width, is_extended))
}

} // verus!
