//! The CLI header: the fixed record that the COM descriptor directory of the
//! PE container points at.

use vstd::prelude::*;

use crate::bytes::{le32, fits, ByteReader};
use crate::error::Error;

verus! {

/// A relative virtual address and a size.
#[derive(Debug, Clone, Copy, PartialEq, Eq, Structural)]
pub struct RvaSize {
    pub rva: u32,
    pub size: u32,
}

impl RvaSize {
    /// Whether `v` is the pair encoded at `p`.
    pub open spec fn at(d: Seq<u8>, p: int, v: RvaSize) -> bool {
        v.rva as int == le32(d, p) && v.size as int == le32(d, p + 4)
    }

    fn read(r: &mut ByteReader) -> (v: RvaSize)
        requires
            fits(old(r).data@, old(r).pos as int, 8),
        ensures
            final(r).data@ == old(r).data@,
            final(r).pos == old(r).pos + 8,
            RvaSize::at(old(r).data@, old(r).pos as int, v),
    {
        let rva = r.u32().unwrap();
        let size = r.u32().unwrap();
        RvaSize { rva, size }
    }
}

/// The runtime flags of the CLI header; bits that no flag names are dropped.
#[derive(Debug, Clone, Copy, PartialEq, Eq, Structural)]
pub struct RuntimeFlags(pub u32);

impl RuntimeFlags {
    pub const ILONLY: u32 = 0x0000_0001;
    pub const REQUIRES_32BIT: u32 = 0x0000_0002;
    pub const STRONGNAMESIGNED: u32 = 0x0000_0008;
    pub const NATIVE_ENTRYPOINT: u32 = 0x0000_0010;
    pub const TRACKDEBUGDATA: u32 = 0x0001_0000;
    /// Every bit that some flag names.
    pub const ALL: u32 = 0x0001_001B;

    /// Keeps the named bits of `v` and drops the others.
    pub fn from_bits_truncate(v: u32) -> (r: RuntimeFlags)
        ensures
            r.0 == v & 0x0001_001B,
    {
        RuntimeFlags(v & 0x0001_001B)
    }

    /// Whether every bit of `flag` is set.
    pub fn contains(&self, flag: u32) -> (r: bool)
        ensures
            r == (self.0 & flag == flag),
    {
        self.0 & flag == flag
    }
}

/// The CLI header.
#[derive(Debug, Clone, Copy, PartialEq, Eq, Structural)]
pub struct CliHeader {
    pub size: u32,
    /// Currently always 2.
    pub major_version: u16,
    pub minor_version: u16,
    pub physical_metadata: RvaSize,
    pub flags: RuntimeFlags,
    pub entry_point_token: u32,
    pub resources: RvaSize,
    pub strong_name_signature: RvaSize,
    pub code_manager_table: RvaSize,
    pub vtable_fixups: RvaSize,
    pub export_address_table_jumps: RvaSize,
    pub managed_native_header: RvaSize,
}

impl CliHeader {
    /// The size of the record in bytes.
    pub const SIZE: usize = 72;

    /// Whether `h` is the header encoded at `p`.
    pub open spec fn at(d: Seq<u8>, p: int, h: CliHeader) -> bool {
        &&& fits(d, p, 72)
        &&& h.size as int == le32(d, p)
        &&& h.major_version as int == crate::bytes::le16(d, p + 4)
        &&& h.minor_version as int == crate::bytes::le16(d, p + 6)
        &&& RvaSize::at(d, p + 8, h.physical_metadata)
        &&& h.flags.0 == (le32(d, p + 16) as u32) & 0x0001_001B
        &&& h.entry_point_token as int == le32(d, p + 20)
        &&& RvaSize::at(d, p + 24, h.resources)
        &&& RvaSize::at(d, p + 32, h.strong_name_signature)
        &&& RvaSize::at(d, p + 40, h.code_manager_table)
        &&& RvaSize::at(d, p + 48, h.vtable_fixups)
        &&& RvaSize::at(d, p + 56, h.export_address_table_jumps)
        &&& RvaSize::at(d, p + 64, h.managed_native_header)
    }

    /// Reads the header at `pos`; `Malformed` where the 72 bytes are not there.
    pub fn read(d: &[u8], pos: usize) -> (r: Result<CliHeader, Error>)
        ensures
            r is Ok <==> fits(d@, pos as int, 72),
            r matches Ok(h) ==> CliHeader::at(d@, pos as int, h),
            r matches Err(e) ==> e == Error::Malformed,
    {
        if !(pos <= d.len() && d.len() - pos >= 72) {
            return Err(Error::Malformed);
        }
        let mut r = ByteReader::new(d, pos);
        let size = r.u32().unwrap();
        let major_version = r.u16().unwrap();
        let minor_version = r.u16().unwrap();
        let physical_metadata = RvaSize::read(&mut r);
        let flags = RuntimeFlags::from_bits_truncate(r.u32().unwrap());
        let entry_point_token = r.u32().unwrap();
        let resources = RvaSize::read(&mut r);
        let strong_name_signature = RvaSize::read(&mut r);
        let code_manager_table = RvaSize::read(&mut r);
        let vtable_fixups = RvaSize::read(&mut r);
        let export_address_table_jumps = RvaSize::read(&mut r);
        let managed_native_header = RvaSize::read(&mut r);
        Ok(CliHeader {
            size,
            major_version,
            minor_version,
            physical_metadata,
            flags,
            entry_point_token,
            resources,
            strong_name_signature,
            code_manager_table,
            vtable_fixups,
            export_address_table_jumps,
            managed_native_header,
        })
    }
}

} // verus!
