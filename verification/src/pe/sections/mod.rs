//! The section table and the resolution of addresses: the mapping of an
//! address in the loaded image to the bytes of the file that back it.
pub mod base_relocation;
pub mod certificate;
pub mod cor20;
pub mod edata;
pub mod idata;
pub mod pdata;
pub mod rsrc;

use crate::containers::{spec_read_n, spec_read_step, spec_reads_with, Table};
use crate::error::PerwError;
use crate::io::text::{find_nul, nul_position, str_from_utf8};
use crate::io::{
    fixed_read, get_u16, get_u32, get_u8_array, le16, le32, lemma_array_of_view,
    lemma_slice_len, put_slice,
    put_u16, put_u32, u16_at, u32_at, u8_array_at, ReadData, Reader, RoundTrip, WriteData,
};
use crate::pe::coff::CoffFileHeader;
use crate::pe::optional_header::data_directories::ImageDataDirectory;
use crate::pe::optional_header::OptionalHeader;
use crate::pe::options::ParseSectionFlags;
use certificate::{CertificateDataDirectory, CertificateView};
use edata::{ExportTableDataDirectory, ExportTableView};
use idata::{ImportTableDataDirectory, ImportTableEntryView};
use pdata::ExceptionHandlerDataDirectory;
use vstd::bytes::*;
use vstd::prelude::*;
use vstd::slice::{slice_subrange, slice_to_vec};
use vstd::string::StringSliceAdditionalSpecFns;
use vstd::utf8::{decode_utf8, valid_utf8};

verus! {

/// The characteristics of a section, one bit each. Bits that the format does
/// not name are kept.
#[derive(Default, Debug, Clone, Copy, PartialEq, Eq, PartialOrd, Ord, Hash)]
pub struct SectionFlags {
    pub bits: u32,
}

impl SectionFlags {
    /// The section should not be padded to the next boundary. Obsolete.
    pub const TYPE_NO_PAD: u32 = 0x00000008;

    /// The section contains executable code.
    pub const CNT_CODE: u32 = 0x00000020;

    /// The section contains initialized data.
    pub const CNT_INITIALIZED_DATA: u32 = 0x00000040;

    /// The section contains uninitialized data.
    pub const CNT_UNINITIALIZED_DATA: u32 = 0x00000080;

    /// Reserved for future use.
    pub const LNK_OTHER: u32 = 0x00000100;

    /// The section contains comments or other information.
    pub const LNK_INFO: u32 = 0x00000200;

    /// The section will not become part of the image.
    pub const LNK_REMOVE: u32 = 0x00000800;

    /// The section contains COMDAT data.
    pub const LNK_COMDAT: u32 = 0x00001000;

    /// The section contains data referenced through the global pointer.
    pub const SCN_GPREL: u32 = 0x00008000;

    /// Reserved for future use.
    pub const MEM_PURGEABLE: u32 = 0x00020000;

    /// Reserved for future use.
    pub const MEM_16BIT: u32 = 0x00020000;

    /// Reserved for future use.
    pub const MEM_LOCKED: u32 = 0x00040000;

    /// Reserved for future use.
    pub const MEM_PRELOAD: u32 = 0x00080000;

    /// Align data on a 1-byte boundary.
    pub const ALIGN_1BYTES: u32 = 0x00100000;

    /// Align data on a 2-byte boundary.
    pub const ALIGN_2BYTES: u32 = 0x00200000;

    /// Align data on a 4-byte boundary.
    pub const ALIGN_4BYTES: u32 = 0x00300000;

    /// Align data on an 8-byte boundary.
    pub const ALIGN_8BYTES: u32 = 0x00400000;

    /// Align data on a 16-byte boundary.
    pub const ALIGN_16BYTES: u32 = 0x00500000;

    /// Align data on a 32-byte boundary.
    pub const ALIGN_32BYTES: u32 = 0x00600000;

    /// Align data on a 64-byte boundary.
    pub const ALIGN_64BYTES: u32 = 0x00700000;

    /// Align data on a 128-byte boundary.
    pub const ALIGN_127BYTES: u32 = 0x00800000;

    /// Align data on a 256-byte boundary.
    pub const ALIGN_256BYTES: u32 = 0x00900000;

    /// Align data on a 512-byte boundary.
    pub const ALIGN_512BYTES: u32 = 0x00A00000;

    /// Align data on a 1024-byte boundary.
    pub const ALIGN_1024BYTES: u32 = 0x00B00000;

    /// Align data on a 2048-byte boundary.
    pub const ALIGN_2048BYTES: u32 = 0x00C00000;

    /// Align data on a 4096-byte boundary.
    pub const ALIGN_4096BYTES: u32 = 0x00D00000;

    /// Align data on an 8192-byte boundary.
    pub const ALIGN_8192BYTES: u32 = 0x00E00000;

    /// The section contains extended relocations.
    pub const LNK_NRELOC_OVFL: u32 = 0x01000000;

    /// The section can be discarded as needed.
    pub const MEM_DISCARDABLE: u32 = 0x02000000;

    /// The section cannot be cached.
    pub const MEM_NOT_CACHED: u32 = 0x04000000;

    /// The section is not pageable.
    pub const MEM_NOT_PAGED: u32 = 0x08000000;

    /// The section can be shared in memory.
    pub const MEM_SHARED: u32 = 0x10000000;

    /// The section can be executed as code.
    pub const MEM_EXECUTE: u32 = 0x20000000;

    /// The section can be read.
    pub const MEM_READ: u32 = 0x40000000;

    /// The section can be written to.
    pub const MEM_WRITE: u32 = 0x80000000;

    /// The flags with exactly the bits of `bits` set.
    pub fn from_bits_retain(bits: u32) -> (flags: Self)
        ensures
            flags.bits == bits,
    {
        Self { bits }
    }

    /// The bits that are set.
    pub fn bits(&self) -> (bits: u32)
        ensures
            bits == self.bits,
    {
        self.bits
    }

    /// Whether every bit of `flags` is set.
    pub fn contains(&self, flags: u32) -> (all: bool)
        ensures
            all == (self.bits & flags == flags),
    {
        self.bits & flags == flags
    }
}

/// One row of the section table: where a section lies in the file and where
/// it lies in the loaded image.
#[derive(Debug, Default, Copy, Clone, PartialEq, Eq)]
pub struct SectionTableRow {
    /// An 8-byte, null-padded UTF-8 encoded string. A name of exactly 8 bytes has
    /// no terminating null.
    pub name: [u8; 8],
    /// The total size of the section when loaded into memory.
    pub virtual_size: u32,
    /// The address of the first byte of the section relative to the image base
    /// when the section is loaded into memory.
    pub virtual_address: u32,
    /// The size of the initialized data on disk.
    pub size_of_raw_data: u32,
    /// The file pointer to the first page of the section.
    pub pointer_to_raw_data: u32,
    /// The file pointer to the beginning of relocation entries for the section.
    pub pointer_to_relocations: u32,
    /// The file pointer to the beginning of line-number entries for the section.
    pub pointer_to_line_numbers: u32,
    /// The number of relocation entries for the section.
    pub number_of_relocaions: u16,
    /// The number of line-number entries for the section.
    pub number_of_line_numbers: u16,
    /// The flags that describe the characteristics of the section.
    pub characteristics: SectionFlags,
}

impl SectionTableRow {
    /// The size of a row in bytes.
    pub const SIZE: usize = 40;

    /// The row that 40 bytes stand for.
    pub open spec fn spec_decode(bytes: Seq<u8>) -> Self {
        SectionTableRow {
            name: u8_array_at::<8>(bytes, 0),
            virtual_size: u32_at(bytes, 8),
            virtual_address: u32_at(bytes, 12),
            size_of_raw_data: u32_at(bytes, 16),
            pointer_to_raw_data: u32_at(bytes, 20),
            pointer_to_relocations: u32_at(bytes, 24),
            pointer_to_line_numbers: u32_at(bytes, 28),
            number_of_relocaions: u16_at(bytes, 32),
            number_of_line_numbers: u16_at(bytes, 34),
            characteristics: SectionFlags { bits: u32_at(bytes, 36) },
        }
    }

    /// The 40 bytes that stand for the row.
    pub open spec fn spec_encode(&self) -> Seq<u8> {
        self.name@
            + le32(self.virtual_size)
            + le32(self.virtual_address)
            + le32(self.size_of_raw_data)
            + le32(self.pointer_to_raw_data)
            + le32(self.pointer_to_relocations)
            + le32(self.pointer_to_line_numbers)
            + le16(self.number_of_relocaions)
            + le16(self.number_of_line_numbers)
            + le32(self.characteristics.bits)
    }

    /// Whether the section holds the address `virtual_address` of the loaded
    /// image: the addresses of a section start at its own and are as many as
    /// its virtual size.
    pub open spec fn spec_contains(&self, virtual_address: int) -> bool {
        self.virtual_address <= virtual_address < self.virtual_address + self.virtual_size
    }

    /// The file offset of the byte that backs `virtual_address`, and the file
    /// offset at which the raw data of the section end.
    pub open spec fn spec_data_range(&self, virtual_address: int) -> (int, int) {
        (
            self.pointer_to_raw_data + (virtual_address - self.virtual_address),
            self.pointer_to_raw_data + self.size_of_raw_data,
        )
    }

    /// The bytes of `file` from the one that backs `virtual_address` to the
    /// end of the raw data of the section, where the file holds that range.
    pub open spec fn spec_data(&self, file: Seq<u8>, virtual_address: int) -> Option<Seq<u8>> {
        let (start, end) = self.spec_data_range(virtual_address);
        if self.virtual_address <= virtual_address && start <= end <= file.len() {
            Some(file.subrange(start, end))
        } else {
            None
        }
    }

    /// The name up to its first NUL byte.
    pub open spec fn spec_name_bytes(&self) -> Seq<u8> {
        self.name@.take(nul_position(self.name@))
    }

    /// Decodes a row from exactly 40 bytes.
    pub(crate) fn decode(bytes: &[u8]) -> (row: Self)
        requires
            bytes@.len() == Self::SIZE,
        ensures
            row == Self::spec_decode(bytes@),
    {
        SectionTableRow {
            name: get_u8_array::<8>(bytes, 0),
            virtual_size: get_u32(bytes, 8),
            virtual_address: get_u32(bytes, 12),
            size_of_raw_data: get_u32(bytes, 16),
            pointer_to_raw_data: get_u32(bytes, 20),
            pointer_to_relocations: get_u32(bytes, 24),
            pointer_to_line_numbers: get_u32(bytes, 28),
            number_of_relocaions: get_u16(bytes, 32),
            number_of_line_numbers: get_u16(bytes, 34),
            characteristics: SectionFlags::from_bits_retain(get_u32(bytes, 36)),
        }
    }

    /// Whether the section holds the address `virtual_address`.
    pub fn contains(&self, virtual_address: usize) -> (b: bool)
        ensures
            b == self.spec_contains(virtual_address as int),
    {
        let address = virtual_address as u64;
        address >= self.virtual_address as u64 && address < self.virtual_address as u64
            + self.virtual_size as u64
    }

    /// The name as text: the bytes up to the first NUL, or the empty text
    /// where they are not valid UTF-8.
    pub fn name_str(&self) -> (name: &str)
        ensures
            name@ == if valid_utf8(self.spec_name_bytes()) {
                decode_utf8(self.spec_name_bytes())
            } else {
                Seq::empty()
            },
    {
        let end = find_nul(self.name.as_slice());
        match str_from_utf8(slice_subrange(self.name.as_slice(), 0, end)) {
            Some(name) => name,
            None => {
                proof {
                    reveal_strlit("");
                }
                assert(""@ =~= Seq::<char>::empty());
                ""
            },
        }
    }

    /// The file offset of the byte that backs `virtual_address` and the file
    /// offset at which the raw data of the section end.
    pub fn get_data_range(&self, virtual_address: usize) -> (range: (usize, usize))
        requires
            self.virtual_address <= virtual_address,
            self.pointer_to_raw_data + (virtual_address - self.virtual_address) <= usize::MAX,
            self.pointer_to_raw_data + self.size_of_raw_data <= usize::MAX,
        ensures
            (range.0 as int, range.1 as int) == self.spec_data_range(virtual_address as int),
    {
        let section_offset = virtual_address - self.virtual_address as usize;
        let section_start = self.pointer_to_raw_data as usize + section_offset;
        let section_end = self.pointer_to_raw_data as usize + self.size_of_raw_data as usize;
        (section_start, section_end)
    }

    /// The bytes of the file from the one that backs `virtual_address` to
    /// the end of the raw data of the section.
    pub fn get_data<'a>(&self, image_base: &'a [u8], virtual_address: usize) -> (data: &'a [u8])
        requires
            self.spec_data(image_base@, virtual_address as int) is Some,
        ensures
            Some(data@) == self.spec_data(image_base@, virtual_address as int),
    {
        proof {
            lemma_slice_len(image_base);
        }
        let (section_start, section_end) = self.get_data_range(virtual_address);
        slice_subrange(image_base, section_start, section_end)
    }

    /// The bytes of the file from the one that backs `virtual_address` to
    /// the end of the raw data of the section, where that range is not empty
    /// and ends before the end of the file.
    pub fn try_get_data<'a>(&self, image_base: &'a [u8], virtual_address: usize) -> (data: Option<
        &'a [u8],
    >)
        ensures
            ({
                let (start, end) = self.spec_data_range(virtual_address as int);
                if self.virtual_address <= virtual_address && start < end < image_base@.len() {
                    data matches Some(bytes) && bytes@ == image_base@.subrange(start, end)
                } else {
                    data is None
                }
            }),
    {
        if (virtual_address as u64) < self.virtual_address as u64 {
            return None;
        }
        let section_offset = virtual_address as u64 - self.virtual_address as u64;
        if section_offset >= self.size_of_raw_data as u64 {
            return None;
        }
        let section_start = self.pointer_to_raw_data as u64 + section_offset;
        let section_end = self.pointer_to_raw_data as u64 + self.size_of_raw_data as u64;
        if section_end < image_base.len() as u64 {
            Some(slice_subrange(image_base, section_start as usize, section_end as usize))
        } else {
            None
        }
    }

    /// The bytes of the file from the one that backs `virtual_address` to
    /// the end of the raw data of the section, where the file holds that range.
    pub fn data_at<'a>(&self, file_bytes: &'a [u8], virtual_address: usize) -> (data: Option<
        &'a [u8],
    >)
        ensures
            match self.spec_data(file_bytes@, virtual_address as int) {
                Some(bytes) => data matches Some(got) && got@ == bytes,
                None => data is None,
            },
    {
        if (virtual_address as u64) < self.virtual_address as u64 {
            return None;
        }
        let section_offset = virtual_address as u64 - self.virtual_address as u64;
        if section_offset > self.size_of_raw_data as u64 {
            return None;
        }
        let section_start = self.pointer_to_raw_data as u64 + section_offset;
        let section_end = self.pointer_to_raw_data as u64 + self.size_of_raw_data as u64;
        if section_end <= file_bytes.len() as u64 {
            Some(slice_subrange(file_bytes, section_start as usize, section_end as usize))
        } else {
            None
        }
    }

    /// A row that is written and read again is the same row, and its
    /// encoding has exactly 40 bytes.
    pub proof fn lemma_write_read(self)
        ensures
            self.spec_encode().len() == Self::SIZE,
            Self::spec_decode(self.spec_encode()) == self,
            Self::spec_read(self.spec_encode()) == Ok::<(Self, nat), PerwError>((self, 40)),
    {
        broadcast use vstd::array::group_array_axioms;

        lemma_auto_spec_u16_to_from_le_bytes();
        lemma_auto_spec_u32_to_from_le_bytes();
        lemma_array_of_view::<u8, 8>(self.name);
        let b = self.spec_encode();
        assert(b.len() == 40);
        assert(b.subrange(0, 8) =~= self.name@);
        assert(b.subrange(8, 12) =~= le32(self.virtual_size));
        assert(b.subrange(12, 16) =~= le32(self.virtual_address));
        assert(b.subrange(16, 20) =~= le32(self.size_of_raw_data));
        assert(b.subrange(20, 24) =~= le32(self.pointer_to_raw_data));
        assert(b.subrange(24, 28) =~= le32(self.pointer_to_relocations));
        assert(b.subrange(28, 32) =~= le32(self.pointer_to_line_numbers));
        assert(b.subrange(32, 34) =~= le16(self.number_of_relocaions));
        assert(b.subrange(34, 36) =~= le16(self.number_of_line_numbers));
        assert(b.subrange(36, 40) =~= le32(self.characteristics.bits));
        assert(b.take(40) =~= b);
    }
}

impl ReadData for SectionTableRow {
    open spec fn spec_read(bytes: Seq<u8>) -> Result<(Self, nat), PerwError> {
        fixed_read(bytes, 40, Self::spec_decode(bytes.take(40)))
    }

    fn read<'a, R: Reader<'a>>(reader: &mut R) -> (r: Result<Self, PerwError>) {
        let bytes = reader.read_slice(Self::SIZE)?;
        Ok(Self::decode(bytes))
    }
}

impl WriteData for SectionTableRow {
    open spec fn spec_write(&self) -> Result<Seq<u8>, PerwError> {
        Ok(self.spec_encode())
    }

    fn to_bytes(&self) -> (r: Result<Vec<u8>, PerwError>) {
        let mut out = Vec::new();
        put_slice(&mut out, self.name.as_slice());
        put_u32(&mut out, self.virtual_size);
        put_u32(&mut out, self.virtual_address);
        put_u32(&mut out, self.size_of_raw_data);
        put_u32(&mut out, self.pointer_to_raw_data);
        put_u32(&mut out, self.pointer_to_relocations);
        put_u32(&mut out, self.pointer_to_line_numbers);
        put_u16(&mut out, self.number_of_relocaions);
        put_u16(&mut out, self.number_of_line_numbers);
        put_u32(&mut out, self.characteristics.bits());
        assert(out@ =~= self.spec_encode());
        Ok(out)
    }
}

/// The position of the first row from `from` on that holds the address, if
/// there is one.
pub open spec fn first_row_from(rows: Seq<SectionTableRow>, virtual_address: int, from: int) -> Option<
    int,
>
    decreases rows.len() - from,
{
    if from < 0 || from >= rows.len() {
        None
    } else if rows[from].spec_contains(virtual_address) {
        Some(from)
    } else {
        first_row_from(rows, virtual_address, from + 1)
    }
}

/// The position of the row that resolves the address: the first row that
/// holds it. Address 0 stands for "absent" and never resolves.
pub open spec fn spec_find_rva(rows: Seq<SectionTableRow>, virtual_address: int) -> Option<int> {
    if virtual_address == 0 {
        None
    } else {
        first_row_from(rows, virtual_address, 0)
    }
}

/// The bytes of `file` that back the address: from the byte that backs it to
/// the end of the raw data of the section that resolves it.
pub open spec fn spec_find_rva_data(
    rows: Seq<SectionTableRow>,
    file: Seq<u8>,
    virtual_address: int,
) -> Option<Seq<u8>> {
    match spec_find_rva(rows, virtual_address) {
        Some(i) => rows[i].spec_data(file, virtual_address),
        None => None,
    }
}

/// The bytes of `file` that a data directory points to: none for a
/// directory with address 0 or with an address that does not resolve, else
/// the first `size` bytes that back the address, and an error where fewer
/// bytes back it.
pub open spec fn spec_directory_data(
    rows: Seq<SectionTableRow>,
    file: Seq<u8>,
    directory: ImageDataDirectory,
) -> Result<Option<Seq<u8>>, PerwError> {
    match spec_find_rva_data(rows, file, directory.virtual_address as int) {
        None => Ok(None),
        Some(data) => if directory.size <= data.len() {
            Ok(Some(data.take(directory.size as int)))
        } else {
            Err(PerwError::NotEnoughDataLeft { attempted_read: directory.size as usize })
        },
    }
}

/// The name that a lookup compares with the names of the rows: the first
/// eight bytes of `name`, filled up with NUL bytes.
pub open spec fn spec_padded_name(name: Seq<u8>) -> Seq<u8> {
    Seq::new(
        8,
        |i: int|
            if i < name.len() {
                name[i]
            } else {
                0u8
            },
    )
}

/// The position of the first row from `from` on whose name is `name`.
pub open spec fn first_named_from(rows: Seq<SectionTableRow>, name: Seq<u8>, from: int) -> Option<
    int,
>
    decreases rows.len() - from,
{
    if from < 0 || from >= rows.len() {
        None
    } else if rows[from].name@ == name {
        Some(from)
    } else {
        first_named_from(rows, name, from + 1)
    }
}

/// No row before `from` holds the address, so the search may start there.
proof fn lemma_first_row_skip(rows: Seq<SectionTableRow>, virtual_address: int, from: int)
    requires
        0 <= from <= rows.len(),
        forall|j: int| 0 <= j < from ==> !rows[j].spec_contains(virtual_address),
    ensures
        first_row_from(rows, virtual_address, 0) == first_row_from(rows, virtual_address, from),
    decreases from,
{
    if from > 0 {
        lemma_first_row_skip(rows, virtual_address, from - 1);
    }
}

/// What the search finds is a row that holds the address, and no row before
/// it does; where it finds nothing, no row holds the address.
pub proof fn lemma_first_row(rows: Seq<SectionTableRow>, virtual_address: int, from: int)
    requires
        0 <= from <= rows.len(),
    ensures
        match first_row_from(rows, virtual_address, from) {
            Some(i) => from <= i < rows.len() && rows[i].spec_contains(virtual_address)
                && forall|j: int| from <= j < i ==> !rows[j].spec_contains(virtual_address),
            None => forall|j: int|
                from <= j < rows.len() ==> !rows[j].spec_contains(virtual_address),
        },
    decreases rows.len() - from,
{
    if from < rows.len() && !rows[from].spec_contains(virtual_address) {
        lemma_first_row(rows, virtual_address, from + 1);
    }
}

/// An address other than 0 resolves to the row that holds it, as long as no
/// earlier row holds it too.
pub proof fn lemma_find_rva_hit(rows: Seq<SectionTableRow>, i: int, virtual_address: int)
    requires
        0 <= i < rows.len(),
        virtual_address != 0,
        rows[i].spec_contains(virtual_address),
        forall|j: int| 0 <= j < i ==> !rows[j].spec_contains(virtual_address),
    ensures
        spec_find_rva(rows, virtual_address) == Some(i),
{
    lemma_first_row_skip(rows, virtual_address, i);
}

/// An address that no row holds does not resolve, and address 0 never
/// resolves.
pub proof fn lemma_find_rva_miss(rows: Seq<SectionTableRow>, virtual_address: int)
    requires
        virtual_address == 0 || forall|j: int|
            0 <= j < rows.len() ==> !rows[j].spec_contains(virtual_address),
    ensures
        spec_find_rva(rows, virtual_address) is None,
{
    if virtual_address != 0 {
        lemma_first_row(rows, virtual_address, 0);
    }
}

/// The row that an address resolves to holds the address, and the address
/// is not 0.
pub proof fn lemma_find_rva_found(rows: Seq<SectionTableRow>, virtual_address: int)
    requires
        spec_find_rva(rows, virtual_address) is Some,
    ensures
        virtual_address != 0,
        0 <= spec_find_rva(rows, virtual_address)->0 < rows.len(),
        rows[spec_find_rva(rows, virtual_address)->0].spec_contains(virtual_address),
{
    lemma_first_row(rows, virtual_address, 0);
}

/// The section table: the rows in the order of the file.
#[derive(Debug, Default, Clone, PartialEq, Eq)]
pub struct SectionTable(pub Table<SectionTableRow>);

impl View for SectionTable {
    type V = Seq<SectionTableRow>;

    open spec fn view(&self) -> Seq<SectionTableRow> {
        self.0@
    }
}

impl SectionTable {
    /// The table with no row.
    pub fn new() -> (table: Self)
        ensures
            table@ == Seq::<SectionTableRow>::empty(),
    {
        SectionTable(Table::new())
    }

    /// Reads `items_count` rows, one after the other.
    pub fn new_linear<'a, R: Reader<'a>>(reader: &mut R, items_count: usize) -> (r: Result<
        Self,
        PerwError,
    >)
        ensures
            match spec_read_n::<SectionTableRow>(old(reader).unread(), items_count as nat) {
                Ok((rows, taken)) => {
                    &&& r matches Ok(table)
                    &&& table@ == rows
                    &&& taken <= old(reader).unread().len()
                    &&& final(reader).unread() == old(reader).unread().skip(taken as int)
                },
                Err(e) => r matches Err(got) && got == e,
            },
    {
        match Table::new_linear(reader, items_count) {
            Ok(rows) => Ok(SectionTable(rows)),
            Err(e) => Err(e),
        }
    }

    /// Reads `items_count` rows with `read_item`, one after the other. Each
    /// call gets the bytes that are left and gives a row and the count of
    /// bytes that the row takes.
    pub fn new_with_reader<'a, F: Fn(&[u8]) -> Result<(SectionTableRow, usize), PerwError>>(
        data_ptr: &mut &'a [u8],
        items_count: usize,
        read_item: F,
    ) -> (r: Result<Self, PerwError>)
        requires
            forall|bytes: &[u8]| call_requires(read_item, (bytes,)),
        ensures
            match r {
                Ok(table) => exists|taken: nat|
                    {
                        &&& table@.len() == items_count
                        &&& spec_reads_with(read_item, old(data_ptr)@, table@, taken)
                        &&& taken <= old(data_ptr)@.len()
                        &&& final(data_ptr)@ == old(data_ptr)@.skip(taken as int)
                    },
                Err(e) => exists|items: Seq<SectionTableRow>, taken: nat|
                    {
                        &&& items.len() < items_count
                        &&& spec_reads_with(read_item, old(data_ptr)@, items, taken)
                        &&& taken <= old(data_ptr)@.len()
                        &&& {
                            ||| spec_read_step(
                                read_item,
                                old(data_ptr)@.skip(taken as int),
                                Err::<(SectionTableRow, usize), PerwError>(e),
                            )
                            ||| exists|item: SectionTableRow, n: usize|
                                {
                                    &&& taken + n > old(data_ptr)@.len()
                                    &&& e == (PerwError::NotEnoughDataLeft { attempted_read: n })
                                    &&& spec_read_step(
                                        read_item,
                                        old(data_ptr)@.skip(taken as int),
                                        Ok::<(SectionTableRow, usize), PerwError>((item, n)),
                                    )
                                }
                        }
                    },
            },
    {
        match Table::new_with_reader(data_ptr, items_count, read_item) {
            Ok(rows) => Ok(SectionTable(rows)),
            Err(e) => Err(e),
        }
    }

    /// The count of rows.
    pub fn len(&self) -> (n: usize)
        ensures
            n == self@.len(),
    {
        self.0.len()
    }

    /// Whether the table has no row.
    pub fn is_empty(&self) -> (b: bool)
        ensures
            b == (self@.len() == 0),
    {
        self.0.is_empty()
    }

    /// The last row.
    pub fn last(&self) -> (row: Option<&SectionTableRow>)
        ensures
            self@.len() > 0 ==> row == Some(&self@.last()),
            self@.len() == 0 ==> row is None,
    {
        self.0.last()
    }

    /// Appends a row.
    pub fn push(&mut self, row: SectionTableRow)
        ensures
            final(self)@ == old(self)@.push(row),
    {
        self.0.push(row);
    }

    /// The first row whose name is `name`, where `name` is cut or filled up
    /// with NUL bytes to eight bytes, as the file holds names. Names that
    /// agree in their first eight bytes are not told apart.
    pub fn get_by_name(&self, name: &str) -> (row: Option<&SectionTableRow>)
        ensures
            match first_named_from(self@, spec_padded_name(name.spec_bytes()), 0) {
                Some(i) => row == Some(&self@[i]),
                None => row is None,
            },
    {
        broadcast use vstd::array::group_array_axioms;

        let name_bytes = name.as_bytes();
        let mut check_name_buffer = [0u8;8];
        let mut k: usize = 0;
        while k < 8 && k < name_bytes.len()
            invariant
                k <= 8,
                k <= name_bytes@.len(),
                forall|i: int| 0 <= i < k ==> check_name_buffer@[i] == name_bytes@[i],
                forall|i: int| k <= i < 8 ==> check_name_buffer@[i] == 0,
            decreases 8 - k,
        {
            check_name_buffer[k] = name_bytes[k];
            k += 1;
        }
        let ghost wanted = spec_padded_name(name.spec_bytes());
        assert(check_name_buffer@ =~= wanted);
        let mut i: usize = 0;
        while i < self.0.len()
            invariant
                i <= self@.len(),
                wanted == spec_padded_name(name.spec_bytes()),
                check_name_buffer@ == wanted,
                first_named_from(self@, wanted, 0) == first_named_from(self@, wanted, i as int),
            decreases self@.len() - i,
        {
            let section = &self.0.0[i];
            let mut same = true;
            let mut j: usize = 0;
            while j < 8
                invariant
                    j <= 8,
                    same == (forall|n: int| 0 <= n < j ==> section.name@[n] == check_name_buffer@[n]),
                decreases 8 - j,
            {
                if section.name[j] != check_name_buffer[j] {
                    same = false;
                }
                j += 1;
            }
            assert(same == (section.name@ =~= wanted));
            assert(*section == self@[i as int]);
            if same {
                assert(first_named_from(self@, wanted, i as int) == Some(i as int));
                return Some(section);
            }
            i += 1;
        }
        None
    }

    /// The row that resolves the address: the first row that holds it.
    /// Address 0 never resolves.
    pub fn find_rva(&self, virtual_address: usize) -> (row: Option<&SectionTableRow>)
        ensures
            match spec_find_rva(self@, virtual_address as int) {
                Some(i) => row == Some(&self@[i]),
                None => row is None,
            },
    {
        if virtual_address == 0 {
            return None;
        }
        let mut i: usize = 0;
        while i < self.0.len()
            invariant
                i <= self@.len(),
                virtual_address != 0,
                first_row_from(self@, virtual_address as int, 0) == first_row_from(
                    self@,
                    virtual_address as int,
                    i as int,
                ),
            decreases self@.len() - i,
        {
            let row = &self.0.0[i];
            assert(*row == self@[i as int]);
            if row.contains(virtual_address) {
                assert(first_row_from(self@, virtual_address as int, i as int) == Some(i as int));
                return Some(row);
            }
            i += 1;
        }
        None
    }

    /// The bytes of the file that back the address, from the byte that backs
    /// it to the end of the raw data of its section. The caller bounds its
    /// reads within them.
    pub fn find_rva_data<'a>(&self, file_bytes: &'a [u8], virtual_address: usize) -> (data: Option<
        &'a [u8],
    >)
        ensures
            match spec_find_rva_data(self@, file_bytes@, virtual_address as int) {
                Some(bytes) => data matches Some(got) && got@ == bytes,
                None => data is None,
            },
    {
        match self.find_rva(virtual_address) {
            Some(section) => section.data_at(file_bytes, virtual_address),
            None => None,
        }
    }

    /// The bytes of the file that a data directory points to, cut to the
    /// size that the directory declares.
    pub fn find_data_directory_data<'a>(
        &self,
        file_bytes: &'a [u8],
        data_directory: &ImageDataDirectory,
    ) -> (r: Result<Option<&'a [u8]>, PerwError>)
        ensures
            match spec_directory_data(self@, file_bytes@, *data_directory) {
                Ok(Some(bytes)) => r matches Ok(Some(got)) && got@ == bytes,
                Ok(None) => r matches Ok(None),
                Err(e) => r matches Err(got) && got == e,
            },
    {
        if data_directory.virtual_address == 0 {
            return Ok(None);
        }
        match self.find_rva_data(file_bytes, data_directory.virtual_address as usize) {
            None => Ok(None),
            Some(data) => {
                let size = data_directory.size as usize;
                if size <= data.len() {
                    Ok(Some(slice_subrange(data, 0, size)))
                } else {
                    Err(PerwError::not_enough_data(size))
                }
            },
        }
    }

    /// Applies `func` to the row that resolves the address, if there is one.
    pub fn find_rva_map<T, F: FnOnce(&SectionTableRow) -> Result<T, PerwError>>(
        &self,
        virtual_address: usize,
        func: F,
    ) -> (r: Result<Option<T>, PerwError>)
        requires
            spec_find_rva(self@, virtual_address as int) matches Some(i) ==> call_requires(
                func,
                (&self@[i],),
            ),
        ensures
            match spec_find_rva(self@, virtual_address as int) {
                Some(i) => match r {
                    Ok(Some(value)) => call_ensures(
                        func,
                        (&self@[i],),
                        Ok::<T, PerwError>(value),
                    ),
                    Ok(None) => false,
                    Err(e) => call_ensures(func, (&self@[i],), Err::<T, PerwError>(e)),
                },
                None => r matches Ok(None),
            },
    {
        match self.find_rva(virtual_address) {
            Some(row) => match func(row) {
                Ok(value) => Ok(Some(value)),
                Err(e) => Err(e),
            },
            None => Ok(None),
        }
    }

    /// Applies `func` to the bytes of the file that a data directory points
    /// to, cut to the size that the directory declares, if there are any.
    pub fn find_data_directory_data_map<T, F: FnOnce(&[u8]) -> Result<T, PerwError>>(
        &self,
        file_bytes: &[u8],
        data_directory: &ImageDataDirectory,
        func: F,
    ) -> (r: Result<Option<T>, PerwError>)
        requires
            forall|data: &[u8]|
                spec_directory_data(self@, file_bytes@, *data_directory) == Ok::<
                    Option<Seq<u8>>,
                    PerwError,
                >(Some(data@)) ==> call_requires(func, (data,)),
        ensures
            match spec_directory_data(self@, file_bytes@, *data_directory) {
                Ok(Some(bytes)) => exists|data: &[u8]|
                    data@ == bytes && match r {
                        Ok(Some(value)) => call_ensures(func, (data,), Ok::<T, PerwError>(value)),
                        Ok(None) => false,
                        Err(e) => call_ensures(func, (data,), Err::<T, PerwError>(e)),
                    },
                Ok(None) => r matches Ok(None),
                Err(e) => r matches Err(got) && got == e,
            },
    {
        match self.find_data_directory_data(file_bytes, data_directory)? {
            Some(data) => match func(data) {
                Ok(value) => Ok(Some(value)),
                Err(e) => Err(e),
            },
            None => Ok(None),
        }
    }

    /// The bytes that stand for the rows, in order.
    pub open spec fn spec_encode_rows(rows: Seq<SectionTableRow>) -> Seq<u8>
        decreases rows.len(),
    {
        if rows.len() == 0 {
            Seq::empty()
        } else {
            Self::spec_encode_rows(rows.drop_last()) + rows.last().spec_encode()
        }
    }
}

impl WriteData for SectionTable {
    open spec fn spec_write(&self) -> Result<Seq<u8>, PerwError> {
        Ok(Self::spec_encode_rows(self@))
    }

    fn to_bytes(&self) -> (r: Result<Vec<u8>, PerwError>) {
        let mut out = Vec::new();
        let mut i: usize = 0;
        assert(self@.take(0) =~= Seq::<SectionTableRow>::empty());
        while i < self.0.len()
            invariant
                i <= self@.len(),
                out@ == Self::spec_encode_rows(self@.take(i as int)),
            decreases self@.len() - i,
        {
            let row = self.0.0[i].to_bytes()?;
            put_slice(&mut out, row.as_slice());
            proof {
                assert(self@.take(i + 1).drop_last() =~= self@.take(i as int));
            }
            i += 1;
        }
        assert(self@.take(self@.len() as int) =~= self@);
        Ok(out)
    }
}

/// The special sections of an image, decoded from the tables that the data
/// directories point to. A section that a parse was not asked for is `None`,
/// and so is one whose directory is absent.
#[derive(Debug, Clone, Default, PartialEq, Eq)]
pub struct SpecialSections {
    /// The export data
    pub export_table: Option<ExportTableDataDirectory>,
    /// The resource data, as the bytes of its directory
    pub resource_table: Option<Vec<u8>>,
    /// The import data
    pub import_table: Option<ImportTableDataDirectory>,
    /// The exception data
    pub exception_table: Option<ExceptionHandlerDataDirectory>,
    /// The attribute certificate table
    pub certificate_table: Option<CertificateDataDirectory>,
}

/// What the special sections hold, as plain values.
pub struct SpecialSectionsView {
    pub export_table: Option<ExportTableView>,
    pub resource_table: Option<Seq<u8>>,
    pub import_table: Option<Seq<ImportTableEntryView>>,
    pub exception_table: Option<ExceptionHandlerDataDirectory>,
    pub certificate_table: Option<Seq<CertificateView>>,
}

impl View for SpecialSections {
    type V = SpecialSectionsView;

    open spec fn view(&self) -> SpecialSectionsView {
        SpecialSectionsView {
            export_table: match self.export_table {
                Some(table) => Some(table@),
                None => None,
            },
            resource_table: match self.resource_table {
                Some(data) => Some(data@),
                None => None,
            },
            import_table: match self.import_table {
                Some(table) => Some(table@),
                None => None,
            },
            exception_table: self.exception_table,
            certificate_table: match self.certificate_table {
                Some(table) => Some(table@),
                None => None,
            },
        }
    }
}

impl SpecialSections {
    /// The special sections with no section decoded.
    pub open spec fn spec_empty() -> SpecialSectionsView {
        SpecialSectionsView {
            export_table: None,
            resource_table: None,
            import_table: None,
            exception_table: None,
            certificate_table: None,
        }
    }

    /// The special sections with no section decoded.
    pub fn empty() -> (sections: Self)
        ensures
            sections@ == Self::spec_empty(),
    {
        SpecialSections {
            export_table: None,
            resource_table: None,
            import_table: None,
            exception_table: None,
            certificate_table: None,
        }
    }

    /// The export data that the export directory points to.
    pub open spec fn spec_export_table(
        file: Seq<u8>,
        rows: Seq<SectionTableRow>,
        optional_header: OptionalHeader,
    ) -> Result<Option<ExportTableView>, PerwError> {
        match spec_directory_data(rows, file, optional_header.data_directories.export_table) {
            Err(e) => Err(e),
            Ok(None) => Ok(None),
            Ok(Some(data)) => match ExportTableDataDirectory::spec_parse(file, data, rows) {
                Ok(table) => Ok(Some(table)),
                Err(e) => Err(e),
            },
        }
    }

    /// The import data that the import directory points to.
    pub open spec fn spec_import_table(
        file: Seq<u8>,
        rows: Seq<SectionTableRow>,
        optional_header: OptionalHeader,
    ) -> Result<Option<Seq<ImportTableEntryView>>, PerwError> {
        match spec_directory_data(rows, file, optional_header.data_directories.import_table) {
            Err(e) => Err(e),
            Ok(None) => Ok(None),
            Ok(Some(data)) => match ImportTableDataDirectory::spec_parse(
                file,
                data,
                rows,
                optional_header.standard_fields.magic,
            ) {
                Ok(table) => Ok(Some(table)),
                Err(e) => Err(e),
            },
        }
    }

    /// The bytes that the resource directory points to.
    pub open spec fn spec_resource_table(
        file: Seq<u8>,
        rows: Seq<SectionTableRow>,
        optional_header: OptionalHeader,
    ) -> Result<Option<Seq<u8>>, PerwError> {
        spec_directory_data(rows, file, optional_header.data_directories.resource_table)
    }

    /// The exception data that the exception directory points to.
    pub open spec fn spec_exception_table(
        file: Seq<u8>,
        rows: Seq<SectionTableRow>,
        optional_header: OptionalHeader,
        coff_header: CoffFileHeader,
    ) -> Result<Option<ExceptionHandlerDataDirectory>, PerwError> {
        match spec_directory_data(rows, file, optional_header.data_directories.exception_table) {
            Err(e) => Err(e),
            Ok(None) => Ok(None),
            Ok(Some(data)) => match ExceptionHandlerDataDirectory::spec_parse(
                data,
                coff_header.machine,
            ) {
                Ok(table) => Ok(Some(table)),
                Err(e) => Err(e),
            },
        }
    }

    /// The certificates that the certificate directory points to.
    pub open spec fn spec_certificate_table(
        file: Seq<u8>,
        rows: Seq<SectionTableRow>,
        optional_header: OptionalHeader,
    ) -> Result<Option<Seq<CertificateView>>, PerwError> {
        match spec_directory_data(rows, file, optional_header.data_directories.certificate_table) {
            Err(e) => Err(e),
            Ok(None) => Ok(None),
            Ok(Some(data)) => match CertificateDataDirectory::spec_parse(data) {
                Ok(table) => Ok(Some(table)),
                Err(e) => Err(e),
            },
        }
    }

    /// The special sections after the selected tables were decoded into
    /// `before`: each selected table is what its directory points to, each
    /// other table is as it was. The tables are decoded in the order export,
    /// import, resource, exception, certificate, and the first error ends
    /// the parse.
    pub open spec fn spec_parse_tables(
        before: SpecialSectionsView,
        file: Seq<u8>,
        coff_header: CoffFileHeader,
        optional_header: OptionalHeader,
        rows: Seq<SectionTableRow>,
        parse_sections: ParseSectionFlags,
    ) -> Result<SpecialSectionsView, PerwError> {
        let export_table = if parse_sections.spec_contains(ParseSectionFlags::EXPORT_TABLE) {
            Self::spec_export_table(file, rows, optional_header)
        } else {
            Ok(before.export_table)
        };
        let import_table = if parse_sections.spec_contains(ParseSectionFlags::IMPORT_TABLE) {
            Self::spec_import_table(file, rows, optional_header)
        } else {
            Ok(before.import_table)
        };
        let resource_table = if parse_sections.spec_contains(ParseSectionFlags::RESOURCE_TABLE) {
            Self::spec_resource_table(file, rows, optional_header)
        } else {
            Ok(before.resource_table)
        };
        let exception_table = if parse_sections.spec_contains(ParseSectionFlags::EXCEPTION_TABLE) {
            Self::spec_exception_table(file, rows, optional_header, coff_header)
        } else {
            Ok(before.exception_table)
        };
        let certificate_table = if parse_sections.spec_contains(
            ParseSectionFlags::CERTIFICATE_TABLE,
        ) {
            Self::spec_certificate_table(file, rows, optional_header)
        } else {
            Ok(before.certificate_table)
        };
        match (export_table, import_table, resource_table, exception_table, certificate_table) {
            (Err(e), _, _, _, _) => Err(e),
            (Ok(_), Err(e), _, _, _) => Err(e),
            (Ok(_), Ok(_), Err(e), _, _) => Err(e),
            (Ok(_), Ok(_), Ok(_), Err(e), _) => Err(e),
            (Ok(_), Ok(_), Ok(_), Ok(_), Err(e)) => Err(e),
            (
                Ok(export_table),
                Ok(import_table),
                Ok(resource_table),
                Ok(exception_table),
                Ok(certificate_table),
            ) => Ok(
                SpecialSectionsView {
                    export_table,
                    resource_table,
                    import_table,
                    exception_table,
                    certificate_table,
                },
            ),
        }
    }

    /// The special sections of an image for the selected tables.
    pub open spec fn spec_parse(
        file: Seq<u8>,
        coff_header: CoffFileHeader,
        optional_header: OptionalHeader,
        rows: Seq<SectionTableRow>,
        parse_sections: ParseSectionFlags,
    ) -> Result<SpecialSectionsView, PerwError> {
        Self::spec_parse_tables(
            Self::spec_empty(),
            file,
            coff_header,
            optional_header,
            rows,
            parse_sections,
        )
    }

    /// Decodes the special sections that `parse_sections` selects.
    pub fn parse(
        file_bytes: &[u8],
        coff_header: &CoffFileHeader,
        optional_header: &OptionalHeader,
        section_table: &SectionTable,
        parse_sections: ParseSectionFlags,
    ) -> (r: Result<Self, PerwError>)
        ensures
            match Self::spec_parse(
                file_bytes@,
                *coff_header,
                *optional_header,
                section_table@,
                parse_sections,
            ) {
                Ok(sections) => r matches Ok(got) && got@ == sections,
                Err(e) => r matches Err(got) && got == e,
            },
    {
        let mut sections = Self::empty();
        if !parse_sections.is_empty() {
            sections.parse_tables(
                file_bytes,
                coff_header,
                optional_header,
                section_table,
                parse_sections,
            )?;
        } else {
            assert(!parse_sections.spec_contains(ParseSectionFlags::EXPORT_TABLE)
                && !parse_sections.spec_contains(ParseSectionFlags::IMPORT_TABLE)
                && !parse_sections.spec_contains(ParseSectionFlags::RESOURCE_TABLE)
                && !parse_sections.spec_contains(ParseSectionFlags::EXCEPTION_TABLE)
                && !parse_sections.spec_contains(ParseSectionFlags::CERTIFICATE_TABLE)) by {
                let bits = parse_sections.bits;
                assert(bits == 0 ==> bits & 1 != 1 && bits & 2 != 2 && bits & 4 != 4 && bits & 8
                    != 8 && bits & 16 != 16) by (bit_vector);
            }
        }
        Ok(sections)
    }

    /// Decodes the tables that `parse_sections` selects into `self`. After
    /// an error `self` is unspecified.
    pub fn parse_tables(
        &mut self,
        file_bytes: &[u8],
        coff_header: &CoffFileHeader,
        optional_header: &OptionalHeader,
        section_table: &SectionTable,
        parse_sections: ParseSectionFlags,
    ) -> (r: Result<(), PerwError>)
        ensures
            match Self::spec_parse_tables(
                old(self)@,
                file_bytes@,
                *coff_header,
                *optional_header,
                section_table@,
                parse_sections,
            ) {
                Ok(sections) => r is Ok && final(self)@ == sections,
                Err(e) => r matches Err(got) && got == e,
            },
    {
        if parse_sections.contains(ParseSectionFlags::EXPORT_TABLE) {
            self.parse_export_table(file_bytes, section_table, optional_header)?;
        }
        if parse_sections.contains(ParseSectionFlags::IMPORT_TABLE) {
            self.parse_import_table(file_bytes, section_table, optional_header)?;
        }
        if parse_sections.contains(ParseSectionFlags::RESOURCE_TABLE) {
            self.parse_resource_table(file_bytes, section_table, optional_header)?;
        }
        if parse_sections.contains(ParseSectionFlags::EXCEPTION_TABLE) {
            self.parse_exception_table(file_bytes, section_table, optional_header, coff_header)?;
        }
        if parse_sections.contains(ParseSectionFlags::CERTIFICATE_TABLE) {
            self.parse_certificate_table(file_bytes, section_table, optional_header)?;
        }
        Ok(())
    }

    /// Decodes the export data that the export directory points to.
    pub fn parse_export_table(
        &mut self,
        file_bytes: &[u8],
        section_table: &SectionTable,
        optional_header: &OptionalHeader,
    ) -> (r: Result<(), PerwError>)
        ensures
            match Self::spec_export_table(file_bytes@, section_table@, *optional_header) {
                Ok(table) => r is Ok && final(self)@ == (SpecialSectionsView {
                    export_table: table,
                    ..old(self)@
                }),
                Err(e) => r matches Err(got) && got == e,
            },
    {
        self.export_table = match section_table.find_data_directory_data(
            file_bytes,
            &optional_header.data_directories.export_table,
        )? {
            Some(edata_bytes) => Some(
                ExportTableDataDirectory::parse(file_bytes, edata_bytes, section_table)?,
            ),
            None => None,
        };
        Ok(())
    }

    /// Decodes the import data that the import directory points to.
    pub fn parse_import_table(
        &mut self,
        file_bytes: &[u8],
        section_table: &SectionTable,
        optional_header: &OptionalHeader,
    ) -> (r: Result<(), PerwError>)
        ensures
            match Self::spec_import_table(file_bytes@, section_table@, *optional_header) {
                Ok(table) => r is Ok && final(self)@ == (SpecialSectionsView {
                    import_table: table,
                    ..old(self)@
                }),
                Err(e) => r matches Err(got) && got == e,
            },
    {
        self.import_table = match section_table.find_data_directory_data(
            file_bytes,
            &optional_header.data_directories.import_table,
        )? {
            Some(idata_bytes) => Some(
                ImportTableDataDirectory::parse(
                    file_bytes,
                    idata_bytes,
                    section_table,
                    optional_header.standard_fields.magic,
                )?,
            ),
            None => None,
        };
        Ok(())
    }

    /// Keeps the bytes that the resource directory points to.
    pub fn parse_resource_table(
        &mut self,
        file_bytes: &[u8],
        section_table: &SectionTable,
        optional_header: &OptionalHeader,
    ) -> (r: Result<(), PerwError>)
        ensures
            match Self::spec_resource_table(file_bytes@, section_table@, *optional_header) {
                Ok(table) => r is Ok && final(self)@ == (SpecialSectionsView {
                    resource_table: table,
                    ..old(self)@
                }),
                Err(e) => r matches Err(got) && got == e,
            },
    {
        self.resource_table = match section_table.find_data_directory_data(
            file_bytes,
            &optional_header.data_directories.resource_table,
        )? {
            Some(rsrc_data) => Some(slice_to_vec(rsrc_data)),
            None => None,
        };
        Ok(())
    }

    /// Decodes the exception data that the exception directory points to.
    pub fn parse_exception_table(
        &mut self,
        file_bytes: &[u8],
        section_table: &SectionTable,
        optional_header: &OptionalHeader,
        coff_header: &CoffFileHeader,
    ) -> (r: Result<(), PerwError>)
        ensures
            match Self::spec_exception_table(
                file_bytes@,
                section_table@,
                *optional_header,
                *coff_header,
            ) {
                Ok(table) => r is Ok && final(self)@ == (SpecialSectionsView {
                    exception_table: table,
                    ..old(self)@
                }),
                Err(e) => r matches Err(got) && got == e,
            },
    {
        self.exception_table = match section_table.find_data_directory_data(
            file_bytes,
            &optional_header.data_directories.exception_table,
        )? {
            Some(pdata_bytes) => Some(
                ExceptionHandlerDataDirectory::parse(pdata_bytes, coff_header.machine)?,
            ),
            None => None,
        };
        Ok(())
    }

    /// Decodes the certificates that the certificate directory points to.
    pub fn parse_certificate_table(
        &mut self,
        file_bytes: &[u8],
        section_table: &SectionTable,
        optional_header: &OptionalHeader,
    ) -> (r: Result<(), PerwError>)
        ensures
            match Self::spec_certificate_table(file_bytes@, section_table@, *optional_header) {
                Ok(table) => r is Ok && final(self)@ == (SpecialSectionsView {
                    certificate_table: table,
                    ..old(self)@
                }),
                Err(e) => r matches Err(got) && got == e,
            },
    {
        self.certificate_table = match section_table.find_data_directory_data(
            file_bytes,
            &optional_header.data_directories.certificate_table,
        )? {
            Some(cert_bytes) => Some(CertificateDataDirectory::parse(cert_bytes)?),
            None => None,
        };
        Ok(())
    }
}


impl RoundTrip for SectionTableRow {
    open spec fn spec_canonical(&self) -> bool {
        true
    }

    proof fn lemma_round_trip(&self) {
        self.lemma_write_read();
    }
}

} // verus!
