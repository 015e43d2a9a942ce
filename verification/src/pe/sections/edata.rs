//! The export data of an image: the symbols that other images can reach
//! through dynamic linking.
use super::{spec_find_rva_data, SectionTable, SectionTableRow};
use crate::containers::{spec_read_n, Table};
use crate::error::PerwError;
use crate::io::text::{find_nul, lossy_utf8, nul_position, read_terminated, spec_terminated};
use crate::io::{
    fixed_read, get_u16, get_u32, le16, le32, put_u16, put_u32, u16_at, u32_at, ReadData, Reader,
    RoundTrip, WriteData,
};
use vstd::bytes::*;
use vstd::prelude::*;
use vstd::slice::slice_subrange;

verus! {

/// The export directory table, with which the export data begin. It holds
/// the addresses and the sizes of the other export tables.
#[derive(Default, Copy, Clone, Debug, PartialEq, Eq)]
pub struct ExportDirectory {
    /// Reserved, must be 0.
    pub export_flags: u32,
    /// The time and date that the export data was created.
    pub time_date_stamp: u32,
    /// The major version number.
    pub major_version: u16,
    /// The minor version number.
    pub minor_version: u16,
    /// The address of the ASCII string that contains the name of the DLL,
    /// relative to the image base.
    pub name_rva: u32,
    /// The starting ordinal number for exports in this image. It is usually set
    /// to 1.
    pub ordinal_base: u32,
    /// The number of entries in the export address table.
    pub address_table_entries: u32,
    /// The number of entries in the name pointer table, which is also the number
    /// of entries in the ordinal table.
    pub number_of_name_pointers: u32,
    /// The address of the export address table, relative to the image base.
    pub export_address_table: u32,
    /// The address of the export name pointer table, relative to the image base.
    pub name_pointer_rva: u32,
    /// The address of the ordinal table, relative to the image base.
    pub ordinal_table_rva: u32,
}

impl ExportDirectory {
    /// The size of the directory in bytes.
    pub const SIZE: usize = 40;

    /// The directory that 40 bytes stand for.
    pub open spec fn spec_decode(bytes: Seq<u8>) -> Self {
        ExportDirectory {
            export_flags: u32_at(bytes, 0),
            time_date_stamp: u32_at(bytes, 4),
            major_version: u16_at(bytes, 8),
            minor_version: u16_at(bytes, 10),
            name_rva: u32_at(bytes, 12),
            ordinal_base: u32_at(bytes, 16),
            address_table_entries: u32_at(bytes, 20),
            number_of_name_pointers: u32_at(bytes, 24),
            export_address_table: u32_at(bytes, 28),
            name_pointer_rva: u32_at(bytes, 32),
            ordinal_table_rva: u32_at(bytes, 36),
        }
    }

    /// The 40 bytes that stand for the directory.
    pub open spec fn spec_encode(&self) -> Seq<u8> {
        le32(self.export_flags)
            + le32(self.time_date_stamp)
            + le16(self.major_version)
            + le16(self.minor_version)
            + le32(self.name_rva)
            + le32(self.ordinal_base)
            + le32(self.address_table_entries)
            + le32(self.number_of_name_pointers)
            + le32(self.export_address_table)
            + le32(self.name_pointer_rva)
            + le32(self.ordinal_table_rva)
    }

    /// Decodes the directory from exactly 40 bytes.
    pub(crate) fn decode(bytes: &[u8]) -> (directory: Self)
        requires
            bytes@.len() == Self::SIZE,
        ensures
            directory == Self::spec_decode(bytes@),
    {
        ExportDirectory {
            export_flags: get_u32(bytes, 0),
            time_date_stamp: get_u32(bytes, 4),
            major_version: get_u16(bytes, 8),
            minor_version: get_u16(bytes, 10),
            name_rva: get_u32(bytes, 12),
            ordinal_base: get_u32(bytes, 16),
            address_table_entries: get_u32(bytes, 20),
            number_of_name_pointers: get_u32(bytes, 24),
            export_address_table: get_u32(bytes, 28),
            name_pointer_rva: get_u32(bytes, 32),
            ordinal_table_rva: get_u32(bytes, 36),
        }
    }

    /// A directory that is written and read again is the same directory, and its
    /// encoding has exactly 40 bytes.
    pub proof fn lemma_write_read(self)
        ensures
            self.spec_encode().len() == Self::SIZE,
            Self::spec_decode(self.spec_encode()) == self,
            Self::spec_read(self.spec_encode()) == Ok::<(Self, nat), PerwError>((self, 40)),
    {
        lemma_auto_spec_u16_to_from_le_bytes();
        lemma_auto_spec_u32_to_from_le_bytes();
        let b = self.spec_encode();
        assert(b.len() == 40);
        assert(b.subrange(0, 4) =~= le32(self.export_flags));
        assert(b.subrange(4, 8) =~= le32(self.time_date_stamp));
        assert(b.subrange(8, 10) =~= le16(self.major_version));
        assert(b.subrange(10, 12) =~= le16(self.minor_version));
        assert(b.subrange(12, 16) =~= le32(self.name_rva));
        assert(b.subrange(16, 20) =~= le32(self.ordinal_base));
        assert(b.subrange(20, 24) =~= le32(self.address_table_entries));
        assert(b.subrange(24, 28) =~= le32(self.number_of_name_pointers));
        assert(b.subrange(28, 32) =~= le32(self.export_address_table));
        assert(b.subrange(32, 36) =~= le32(self.name_pointer_rva));
        assert(b.subrange(36, 40) =~= le32(self.ordinal_table_rva));
        assert(b.take(40) =~= b);
    }
}

impl ReadData for ExportDirectory {
    open spec fn spec_read(bytes: Seq<u8>) -> Result<(Self, nat), PerwError> {
        fixed_read(bytes, 40, Self::spec_decode(bytes.take(40)))
    }

    fn read<'a, R: Reader<'a>>(reader: &mut R) -> (r: Result<Self, PerwError>) {
        let bytes = reader.read_slice(Self::SIZE)?;
        Ok(Self::decode(bytes))
    }
}

impl WriteData for ExportDirectory {
    open spec fn spec_write(&self) -> Result<Seq<u8>, PerwError> {
        Ok(self.spec_encode())
    }

    fn to_bytes(&self) -> (r: Result<Vec<u8>, PerwError>) {
        let mut out = Vec::new();
        put_u32(&mut out, self.export_flags);
        put_u32(&mut out, self.time_date_stamp);
        put_u16(&mut out, self.major_version);
        put_u16(&mut out, self.minor_version);
        put_u32(&mut out, self.name_rva);
        put_u32(&mut out, self.ordinal_base);
        put_u32(&mut out, self.address_table_entries);
        put_u32(&mut out, self.number_of_name_pointers);
        put_u32(&mut out, self.export_address_table);
        put_u32(&mut out, self.name_pointer_rva);
        put_u32(&mut out, self.ordinal_table_rva);
        assert(out@ =~= self.spec_encode());
        Ok(out)
    }
}

/// One entry of the export address table.
#[derive(Default, Copy, Clone, Debug, PartialEq, Eq)]
pub struct ExportAddress {
    /// The address of the exported symbol when loaded into memory, relative to
    /// the image base.
    pub export_rva: u32,
    /// The pointer to a null-terminated ASCII string in the export section, which
    /// names a symbol in another DLL.
    pub forwarder_rva: u32,
}

impl ExportAddress {
    /// The size of the entry in bytes.
    pub const SIZE: usize = 8;

    /// The entry that 8 bytes stand for.
    pub open spec fn spec_decode(bytes: Seq<u8>) -> Self {
        ExportAddress {
            export_rva: u32_at(bytes, 0),
            forwarder_rva: u32_at(bytes, 4),
        }
    }

    /// The 8 bytes that stand for the entry.
    pub open spec fn spec_encode(&self) -> Seq<u8> {
        le32(self.export_rva)
            + le32(self.forwarder_rva)
    }

    /// Decodes the entry from exactly 8 bytes.
    pub(crate) fn decode(bytes: &[u8]) -> (entry: Self)
        requires
            bytes@.len() == Self::SIZE,
        ensures
            entry == Self::spec_decode(bytes@),
    {
        ExportAddress {
            export_rva: get_u32(bytes, 0),
            forwarder_rva: get_u32(bytes, 4),
        }
    }

    /// An entry that is written and read again is the same entry, and its
    /// encoding has exactly 8 bytes.
    pub proof fn lemma_write_read(self)
        ensures
            self.spec_encode().len() == Self::SIZE,
            Self::spec_decode(self.spec_encode()) == self,
            Self::spec_read(self.spec_encode()) == Ok::<(Self, nat), PerwError>((self, 8)),
    {
        lemma_auto_spec_u16_to_from_le_bytes();
        lemma_auto_spec_u32_to_from_le_bytes();
        let b = self.spec_encode();
        assert(b.len() == 8);
        assert(b.subrange(0, 4) =~= le32(self.export_rva));
        assert(b.subrange(4, 8) =~= le32(self.forwarder_rva));
        assert(b.take(8) =~= b);
    }
}

impl ReadData for ExportAddress {
    open spec fn spec_read(bytes: Seq<u8>) -> Result<(Self, nat), PerwError> {
        fixed_read(bytes, 8, Self::spec_decode(bytes.take(8)))
    }

    fn read<'a, R: Reader<'a>>(reader: &mut R) -> (r: Result<Self, PerwError>) {
        let bytes = reader.read_slice(Self::SIZE)?;
        Ok(Self::decode(bytes))
    }
}

impl WriteData for ExportAddress {
    open spec fn spec_write(&self) -> Result<Seq<u8>, PerwError> {
        Ok(self.spec_encode())
    }

    fn to_bytes(&self) -> (r: Result<Vec<u8>, PerwError>) {
        let mut out = Vec::new();
        put_u32(&mut out, self.export_rva);
        put_u32(&mut out, self.forwarder_rva);
        assert(out@ =~= self.spec_encode());
        Ok(out)
    }
}

/// A pointer into the export name table.
#[derive(Default, Copy, Clone, Debug, PartialEq, Eq)]
pub struct ExportNamePointer(pub u32);

impl ExportNamePointer {
    /// The size of the pointer in bytes.
    pub const SIZE: usize = 4;
}

impl ReadData for ExportNamePointer {
    open spec fn spec_read(bytes: Seq<u8>) -> Result<(Self, nat), PerwError> {
        fixed_read(bytes, 4, ExportNamePointer(spec_u32_from_le_bytes(bytes.take(4))))
    }

    fn read<'a, R: Reader<'a>>(reader: &mut R) -> (r: Result<Self, PerwError>) {
        let bytes = reader.read_slice(Self::SIZE)?;
        Ok(ExportNamePointer(u32_from_le_bytes(bytes)))
    }
}

impl WriteData for ExportNamePointer {
    open spec fn spec_write(&self) -> Result<Seq<u8>, PerwError> {
        Ok(le32(self.0))
    }

    fn to_bytes(&self) -> (r: Result<Vec<u8>, PerwError>) {
        Ok(u32_to_le_bytes(self.0))
    }
}

/// An index into the export address table, biased by the ordinal base.
#[derive(Default, Copy, Clone, Debug, PartialEq, Eq)]
pub struct ExportOrtinal(pub u16);

impl ExportOrtinal {
    /// The size of the ordinal in bytes.
    pub const SIZE: usize = 2;
}

impl ReadData for ExportOrtinal {
    open spec fn spec_read(bytes: Seq<u8>) -> Result<(Self, nat), PerwError> {
        fixed_read(bytes, 2, ExportOrtinal(spec_u16_from_le_bytes(bytes.take(2))))
    }

    fn read<'a, R: Reader<'a>>(reader: &mut R) -> (r: Result<Self, PerwError>) {
        let bytes = reader.read_slice(Self::SIZE)?;
        Ok(ExportOrtinal(u16_from_le_bytes(bytes)))
    }
}

impl WriteData for ExportOrtinal {
    open spec fn spec_write(&self) -> Result<Seq<u8>, PerwError> {
        Ok(le16(self.0))
    }

    fn to_bytes(&self) -> (r: Result<Vec<u8>, PerwError>) {
        Ok(u16_to_le_bytes(self.0))
    }
}

/// The ordinal that goes with an export name.
#[derive(Default, Copy, Clone, Debug, PartialEq, Eq)]
pub struct ExportName(pub u16);

impl ExportName {
    /// The size of the entry in bytes.
    pub const SIZE: usize = 2;
}

impl ReadData for ExportName {
    open spec fn spec_read(bytes: Seq<u8>) -> Result<(Self, nat), PerwError> {
        fixed_read(bytes, 2, ExportName(spec_u16_from_le_bytes(bytes.take(2))))
    }

    fn read<'a, R: Reader<'a>>(reader: &mut R) -> (r: Result<Self, PerwError>) {
        let bytes = reader.read_slice(Self::SIZE)?;
        Ok(ExportName(u16_from_le_bytes(bytes)))
    }
}

impl WriteData for ExportName {
    open spec fn spec_write(&self) -> Result<Seq<u8>, PerwError> {
        Ok(le16(self.0))
    }

    fn to_bytes(&self) -> (r: Result<Vec<u8>, PerwError>) {
        Ok(u16_to_le_bytes(self.0))
    }
}

/// The export tables of an image, decoded.
#[derive(Default, Clone, Debug, PartialEq, Eq)]
pub struct ExportTableDataDirectory {
    /// The export directory table, which locates the other tables.
    pub export_directory_table: ExportDirectory,
    /// The addresses of the exported entry points, data and absolutes.
    pub export_address_table: Table<ExportAddress>,
    /// The addresses of the export names.
    pub name_pointer_table: Table<ExportNamePointer>,
    /// The ordinals that go with the members of the name pointer table, by
    /// position.
    pub export_ordinal_table: Table<ExportOrtinal>,
    /// The export names.
    pub export_name_table: Table<String>,
}

/// What the export tables hold, as plain values.
pub struct ExportTableView {
    pub export_directory_table: ExportDirectory,
    pub export_address_table: Seq<ExportAddress>,
    pub name_pointer_table: Seq<ExportNamePointer>,
    pub export_ordinal_table: Seq<ExportOrtinal>,
    pub export_name_table: Seq<Seq<char>>,
}

impl View for ExportTableDataDirectory {
    type V = ExportTableView;

    open spec fn view(&self) -> ExportTableView {
        ExportTableView {
            export_directory_table: self.export_directory_table,
            export_address_table: self.export_address_table@,
            name_pointer_table: self.name_pointer_table@,
            export_ordinal_table: self.export_ordinal_table@,
            export_name_table: spec_texts(self.export_name_table@),
        }
    }
}

/// The texts that the strings hold.
pub open spec fn spec_texts(names: Seq<String>) -> Seq<Seq<char>> {
    Seq::new(names.len(), |i: int| names[i]@)
}

/// The texts that a lossy decoding of each of the names gives.
pub open spec fn spec_lossy_texts(names: Seq<Seq<u8>>) -> Seq<Seq<char>> {
    Seq::new(names.len(), |i: int| lossy_utf8(names[i]))
}

/// The bytes of the name that starts at `at` in `data`: the bytes up to the
/// next NUL byte. Where no NUL byte follows, the name is empty.
pub open spec fn spec_name_at(data: Seq<u8>, at: int) -> Seq<u8> {
    spec_terminated(data.skip(at))
}

/// Where the name that follows the one at `at` starts: behind the NUL byte
/// that ends it. Where no NUL byte follows, the walk stays at `at`.
pub open spec fn spec_name_next(data: Seq<u8>, at: int) -> int {
    let rest = data.skip(at);
    if nul_position(rest) < rest.len() {
        at + nul_position(rest) + 1
    } else {
        at
    }
}

/// The bytes of `count` names that stand one after the other in `data` from
/// `at` on, each ended by a NUL byte.
pub open spec fn spec_names_from(data: Seq<u8>, at: int, count: nat) -> Seq<Seq<u8>>
    decreases count,
{
    if count == 0 {
        Seq::empty()
    } else {
        seq![spec_name_at(data, at)] + spec_names_from(
            data,
            spec_name_next(data, at),
            (count - 1) as nat,
        )
    }
}

impl ExportTableDataDirectory {
    /// The error for an export address table whose address does not resolve.
    pub open spec fn unmapped_addresses() -> PerwError {
        PerwError::InvalidImageFormat {
            message: "Failed to map export_address_table_data inside image",
        }
    }

    /// The error for a name pointer table whose address does not resolve.
    pub open spec fn unmapped_name_pointers() -> PerwError {
        PerwError::InvalidImageFormat {
            message: "Failed to map name_pointer_table_data inside image",
        }
    }

    /// The error for an ordinal table or for names whose address does not
    /// resolve.
    pub open spec fn unmapped_ordinals() -> PerwError {
        PerwError::InvalidImageFormat {
            message: "Failed to map export_ordinal_table_data inside image",
        }
    }

    /// What the bytes `section_base` of the export directory decode to,
    /// with the tables that it points to in `file`.
    ///
    /// The directory table comes first. Then each of the three tables and
    /// the names are resolved, each by its own address; then the tables are
    /// read, `address_table_entries` addresses and `number_of_name_pointers`
    /// name pointers and ordinals; then as many names are walked.
    pub open spec fn spec_parse(
        file: Seq<u8>,
        section_base: Seq<u8>,
        rows: Seq<SectionTableRow>,
    ) -> Result<ExportTableView, PerwError> {
        match ExportDirectory::spec_read(section_base) {
            Err(e) => Err(e),
            Ok((directory, _)) => match (
                spec_find_rva_data(rows, file, directory.export_address_table as int),
                spec_find_rva_data(rows, file, directory.name_pointer_rva as int),
                spec_find_rva_data(rows, file, directory.ordinal_table_rva as int),
                spec_find_rva_data(rows, file, directory.name_rva as int),
            ) {
                (None, _, _, _) => Err(Self::unmapped_addresses()),
                (Some(_), None, _, _) => Err(Self::unmapped_name_pointers()),
                (Some(_), Some(_), None, _) => Err(Self::unmapped_ordinals()),
                (Some(_), Some(_), Some(_), None) => Err(Self::unmapped_ordinals()),
                (Some(addresses), Some(name_pointers), Some(ordinals), Some(names)) => match (
                    spec_read_n::<ExportAddress>(addresses, directory.address_table_entries as nat),
                    spec_read_n::<ExportNamePointer>(
                        name_pointers,
                        directory.number_of_name_pointers as nat,
                    ),
                    spec_read_n::<ExportOrtinal>(
                        ordinals,
                        directory.number_of_name_pointers as nat,
                    ),
                ) {
                    (Err(e), _, _) => Err(e),
                    (Ok(_), Err(e), _) => Err(e),
                    (Ok(_), Ok(_), Err(e)) => Err(e),
                    (
                        Ok((export_address_table, _)),
                        Ok((name_pointer_table, _)),
                        Ok((export_ordinal_table, _)),
                    ) => Ok(
                        ExportTableView {
                            export_directory_table: directory,
                            export_address_table,
                            name_pointer_table,
                            export_ordinal_table,
                            export_name_table: spec_lossy_texts(
                                spec_names_from(
                                    names,
                                    0,
                                    directory.number_of_name_pointers as nat,
                                ),
                            ),
                        },
                    ),
                },
            },
        }
    }

    /// Walks `count` names that stand one after the other in `data`.
    pub fn read_names(data: &[u8], count: usize) -> (names: Table<String>)
        ensures
            spec_texts(names@) == spec_lossy_texts(spec_names_from(data@, 0, count as nat)),
    {
        let mut values: Vec<String> = Vec::new();
        let mut offset: usize = 0;
        let mut i: usize = 0;
        let ghost mut raw: Seq<Seq<u8>> = Seq::empty();
        assert(raw + spec_names_from(data@, 0, count as nat) =~= spec_names_from(
            data@,
            0,
            count as nat,
        ));
        while i < count
            invariant
                i <= count,
                offset <= data@.len(),
                raw.len() == i,
                values@.len() == i,
                spec_names_from(data@, 0, count as nat) == raw + spec_names_from(
                    data@,
                    offset as int,
                    (count - i) as nat,
                ),
                forall|k: int| 0 <= k < i ==> (#[trigger] values@[k])@ == lossy_utf8(raw[k]),
            decreases count - i,
        {
            let rest = slice_subrange(data, offset, data.len());
            assert(rest@ =~= data@.skip(offset as int));
            let text = read_terminated(rest);
            let end = find_nul(rest);
            let ghost name = spec_name_at(data@, offset as int);
            let ghost next = spec_name_next(data@, offset as int);
            assert(spec_terminated(rest@) == name);
            proof {
                let tail = spec_names_from(data@, next, (count - i - 1) as nat);
                assert(spec_names_from(data@, offset as int, (count - i) as nat) == seq![name]
                    + tail);
                assert(raw + (seq![name] + tail) =~= raw.push(name) + tail);
                raw = raw.push(name);
            }
            values.push(text);
            if end < rest.len() {
                offset = offset + end + 1;
            }
            i += 1;
        }
        assert(raw + spec_names_from(data@, offset as int, 0) =~= raw);
        assert(spec_texts(values@) =~= spec_lossy_texts(raw));
        Table(values)
    }

    /// Decodes the export tables: the directory from `section_base`, and
    /// the tables and names that it points to from `file_bytes`.
    pub fn parse(file_bytes: &[u8], section_base: &[u8], sections: &SectionTable) -> (r: Result<
        Self,
        PerwError,
    >)
        ensures
            match Self::spec_parse(file_bytes@, section_base@, sections@) {
                Ok(tables) => r matches Ok(got) && got@ == tables,
                Err(e) => r matches Err(got) && got == e,
            },
    {
        let mut section_reader = section_base;
        let export_directory_table = ExportDirectory::read(&mut section_reader)?;
        let mut export_address_table_data = match sections.find_rva_data(
            file_bytes,
            export_directory_table.export_address_table as usize,
        ) {
            Some(data) => data,
            None => {
                return Err(
                    PerwError::invalid_image_format(
                        "Failed to map export_address_table_data inside image",
                    ),
                );
            },
        };
        let mut name_pointer_table_data = match sections.find_rva_data(
            file_bytes,
            export_directory_table.name_pointer_rva as usize,
        ) {
            Some(data) => data,
            None => {
                return Err(
                    PerwError::invalid_image_format(
                        "Failed to map name_pointer_table_data inside image",
                    ),
                );
            },
        };
        let mut export_ordinal_table_data = match sections.find_rva_data(
            file_bytes,
            export_directory_table.ordinal_table_rva as usize,
        ) {
            Some(data) => data,
            None => {
                return Err(
                    PerwError::invalid_image_format(
                        "Failed to map export_ordinal_table_data inside image",
                    ),
                );
            },
        };
        let export_name_data = match sections.find_rva_data(
            file_bytes,
            export_directory_table.name_rva as usize,
        ) {
            Some(data) => data,
            None => {
                return Err(
                    PerwError::invalid_image_format(
                        "Failed to map export_ordinal_table_data inside image",
                    ),
                );
            },
        };
        let export_address_table = Table::new_linear(
            &mut export_address_table_data,
            export_directory_table.address_table_entries as usize,
        )?;
        let name_pointer_table = Table::new_linear(
            &mut name_pointer_table_data,
            export_directory_table.number_of_name_pointers as usize,
        )?;
        let export_ordinal_table = Table::new_linear(
            &mut export_ordinal_table_data,
            export_directory_table.number_of_name_pointers as usize,
        )?;
        let export_name_table = Self::read_names(
            export_name_data,
            export_directory_table.number_of_name_pointers as usize,
        );
        Ok(
            Self {
                export_address_table,
                name_pointer_table,
                export_ordinal_table,
                export_name_table,
                export_directory_table,
            },
        )
    }
}


impl RoundTrip for ExportDirectory {
    open spec fn spec_canonical(&self) -> bool {
        true
    }

    proof fn lemma_round_trip(&self) {
        self.lemma_write_read();
    }
}

impl RoundTrip for ExportAddress {
    open spec fn spec_canonical(&self) -> bool {
        true
    }

    proof fn lemma_round_trip(&self) {
        self.lemma_write_read();
    }
}

impl RoundTrip for ExportNamePointer {
    open spec fn spec_canonical(&self) -> bool {
        true
    }

    proof fn lemma_round_trip(&self) {
        lemma_auto_spec_u32_to_from_le_bytes();
        assert(le32(self.0).take(4) =~= le32(self.0));
    }
}

impl RoundTrip for ExportOrtinal {
    open spec fn spec_canonical(&self) -> bool {
        true
    }

    proof fn lemma_round_trip(&self) {
        lemma_auto_spec_u16_to_from_le_bytes();
        assert(le16(self.0).take(2) =~= le16(self.0));
    }
}

impl RoundTrip for ExportName {
    open spec fn spec_canonical(&self) -> bool {
        true
    }

    proof fn lemma_round_trip(&self) {
        lemma_auto_spec_u16_to_from_le_bytes();
        assert(le16(self.0).take(2) =~= le16(self.0));
    }
}

} // verus!
