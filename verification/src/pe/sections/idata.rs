//! The import data of an image: for each DLL that the image refers to, the
//! symbols that it imports from it.
use super::{spec_find_rva_data, SectionTable, SectionTableRow};
use crate::containers::{spec_prepend, Table};
use crate::error::PerwError;
use crate::io::text::{lossy_utf8, read_terminated, spec_terminated};
use crate::io::{
    fixed_read, get_u32, le32, put_u32, u32_at, ReadData, Reader, RoundTrip, WriteData,
};
use crate::pe::optional_header::OptionalHeaderMagic;
use vstd::bytes::*;
use vstd::prelude::*;

verus! {

/// One entry of the import directory table: where the tables for one DLL
/// lie. An entry with every field zero ends the table.
#[derive(Default, Copy, Clone, Debug, PartialEq, Eq)]
pub struct ImportDirectoryTable {
    /// The RVA of the import lookup table, which holds a name or an ordinal for
    /// each import.
    pub import_lookup_table_rva: u32,
    /// The stamp that is zero until the image is bound.
    pub time_date_stamp: u32,
    /// The index of the first forwarder reference.
    pub fowarder_chain: u32,
    /// The address of an ASCII string that contains the name of the DLL, relative
    /// to the image base.
    pub name_rva: u32,
    /// The RVA of the import address table.
    pub import_address_table_rva: u32,
}

impl ImportDirectoryTable {
    /// The size of the entry in bytes.
    pub const SIZE: usize = 20;

    /// The entry that 20 bytes stand for.
    pub open spec fn spec_decode(bytes: Seq<u8>) -> Self {
        ImportDirectoryTable {
            import_lookup_table_rva: u32_at(bytes, 0),
            time_date_stamp: u32_at(bytes, 4),
            fowarder_chain: u32_at(bytes, 8),
            name_rva: u32_at(bytes, 12),
            import_address_table_rva: u32_at(bytes, 16),
        }
    }

    /// The 20 bytes that stand for the entry.
    pub open spec fn spec_encode(&self) -> Seq<u8> {
        le32(self.import_lookup_table_rva)
            + le32(self.time_date_stamp)
            + le32(self.fowarder_chain)
            + le32(self.name_rva)
            + le32(self.import_address_table_rva)
    }

    /// Decodes the entry from exactly 20 bytes.
    pub(crate) fn decode(bytes: &[u8]) -> (entry: Self)
        requires
            bytes@.len() == Self::SIZE,
        ensures
            entry == Self::spec_decode(bytes@),
    {
        ImportDirectoryTable {
            import_lookup_table_rva: get_u32(bytes, 0),
            time_date_stamp: get_u32(bytes, 4),
            fowarder_chain: get_u32(bytes, 8),
            name_rva: get_u32(bytes, 12),
            import_address_table_rva: get_u32(bytes, 16),
        }
    }

    /// An entry that is written and read again is the same entry, and its
    /// encoding has exactly 20 bytes.
    pub proof fn lemma_write_read(self)
        ensures
            self.spec_encode().len() == Self::SIZE,
            Self::spec_decode(self.spec_encode()) == self,
            Self::spec_read(self.spec_encode()) == Ok::<(Self, nat), PerwError>((self, 20)),
    {
        lemma_auto_spec_u16_to_from_le_bytes();
        lemma_auto_spec_u32_to_from_le_bytes();
        let b = self.spec_encode();
        assert(b.len() == 20);
        assert(b.subrange(0, 4) =~= le32(self.import_lookup_table_rva));
        assert(b.subrange(4, 8) =~= le32(self.time_date_stamp));
        assert(b.subrange(8, 12) =~= le32(self.fowarder_chain));
        assert(b.subrange(12, 16) =~= le32(self.name_rva));
        assert(b.subrange(16, 20) =~= le32(self.import_address_table_rva));
        assert(b.take(20) =~= b);
    }
}

impl ReadData for ImportDirectoryTable {
    open spec fn spec_read(bytes: Seq<u8>) -> Result<(Self, nat), PerwError> {
        fixed_read(bytes, 20, Self::spec_decode(bytes.take(20)))
    }

    fn read<'a, R: Reader<'a>>(reader: &mut R) -> (r: Result<Self, PerwError>) {
        let bytes = reader.read_slice(Self::SIZE)?;
        Ok(Self::decode(bytes))
    }
}

impl WriteData for ImportDirectoryTable {
    open spec fn spec_write(&self) -> Result<Seq<u8>, PerwError> {
        Ok(self.spec_encode())
    }

    fn to_bytes(&self) -> (r: Result<Vec<u8>, PerwError>) {
        let mut out = Vec::new();
        put_u32(&mut out, self.import_lookup_table_rva);
        put_u32(&mut out, self.time_date_stamp);
        put_u32(&mut out, self.fowarder_chain);
        put_u32(&mut out, self.name_rva);
        put_u32(&mut out, self.import_address_table_rva);
        assert(out@ =~= self.spec_encode());
        Ok(out)
    }
}

impl ImportDirectoryTable {
    /// Whether every field is zero, which marks the end of the table.
    pub open spec fn spec_is_null(&self) -> bool {
        &&& self.import_lookup_table_rva == 0
        &&& self.time_date_stamp == 0
        &&& self.fowarder_chain == 0
        &&& self.name_rva == 0
        &&& self.import_address_table_rva == 0
    }

    /// Whether every field is zero, which marks the end of the table.
    #[verifier::when_used_as_spec(spec_is_null)]
    pub fn is_null(&self) -> (b: bool)
        ensures
            b == self.spec_is_null(),
    {
        self.import_lookup_table_rva == 0 && self.time_date_stamp == 0 && self.fowarder_chain == 0
            && self.name_rva == 0 && self.import_address_table_rva == 0
    }
}

/// One entry of an import lookup table: an import by ordinal or by name.
#[derive(Clone, Debug, PartialEq, Eq)]
pub enum ImportTableRow {
    /// An import by ordinal: the ordinal flag of the entry is set.
    Ordinal(u16),
    /// An import by name: the ordinal flag of the entry is clear.
    HintName {
        /// An index into the export name pointer table of the DLL.
        hint: u16,
        /// The 31-bit RVA of the hint/name table entry.
        name_rva: u32,
        /// The name read at `name_rva`.
        name: String,
    },
}

/// What an entry of an import lookup table holds, as plain values.
pub enum ImportTableRowView {
    Ordinal(u16),
    HintName { hint: u16, name_rva: u32, name: Seq<char> },
}

impl View for ImportTableRow {
    type V = ImportTableRowView;

    open spec fn view(&self) -> ImportTableRowView {
        match self {
            ImportTableRow::Ordinal(ordinal) => ImportTableRowView::Ordinal(*ordinal),
            ImportTableRow::HintName { hint, name_rva, name } => ImportTableRowView::HintName {
                hint: *hint,
                name_rva: *name_rva,
                name: name@,
            },
        }
    }
}

impl Default for ImportTableRow {
    /// The import by ordinal 0.
    fn default() -> (row: Self)
        ensures
            row@ == ImportTableRowView::Ordinal(0),
    {
        Self::Ordinal(0)
    }
}

/// The views of the rows, in order.
pub open spec fn spec_row_views(rows: Seq<ImportTableRow>) -> Seq<ImportTableRowView> {
    Seq::new(rows.len(), |i: int| rows[i]@)
}

/// The flag of a 32-bit lookup entry that selects an import by ordinal.
pub const PE32_LOOKUP_TABLE_ORDINAL_MASK: u32 = 0x80000000;

/// The flag of a 64-bit lookup entry that selects an import by ordinal.
pub const PE32_PLUS_LOOKUP_TABLE_ORDINAL_MASK: u64 = 0x8000000000000000;

impl ImportTableRow {
    /// The error for a hint/name entry whose address does not resolve.
    pub open spec fn unmapped_hint() -> PerwError {
        PerwError::InvalidImageFormat {
            message: "Failed to map \"Hint/Name Table RVA\" inside image",
        }
    }

    /// What the low bits of a lookup entry decode to. With the ordinal flag
    /// they hold an ordinal in their low 16 bits. Without it they hold in
    /// their low 31 bits the address of a hint/name entry: a 16-bit hint and
    /// a name that ends at a NUL byte.
    pub open spec fn spec_from_lower_bits(
        file: Seq<u8>,
        rows: Seq<SectionTableRow>,
        import_by_ordinal: bool,
        rest_of_fields: u32,
    ) -> Result<ImportTableRowView, PerwError> {
        if import_by_ordinal {
            Ok(ImportTableRowView::Ordinal((rest_of_fields & 0xFFFF) as u16))
        } else {
            let name_rva = rest_of_fields & 0x7FFF_FFFF;
            match spec_find_rva_data(rows, file, name_rva as int) {
                None => Err(Self::unmapped_hint()),
                Some(data) => if data.len() < 2 {
                    Err(PerwError::NotEnoughDataLeft { attempted_read: 2 })
                } else {
                    Ok(
                        ImportTableRowView::HintName {
                            hint: spec_u16_from_le_bytes(data.take(2)),
                            name_rva,
                            name: lossy_utf8(spec_terminated(data.skip(2))),
                        },
                    )
                },
            }
        }
    }

    /// What a 32-bit lookup entry decodes to: nothing for the entry 0,
    /// which ends the table, else an import by ordinal where bit 31 is set
    /// and an import by name where it is clear.
    pub open spec fn spec_from_u32(file: Seq<u8>, rows: Seq<SectionTableRow>, val: u32) -> Result<
        Option<ImportTableRowView>,
        PerwError,
    > {
        if val == 0 {
            Ok(None)
        } else {
            match Self::spec_from_lower_bits(
                file,
                rows,
                val & PE32_LOOKUP_TABLE_ORDINAL_MASK != 0,
                val & !PE32_LOOKUP_TABLE_ORDINAL_MASK,
            ) {
                Ok(row) => Ok(Some(row)),
                Err(e) => Err(e),
            }
        }
    }

    /// What a 64-bit lookup entry decodes to: nothing for the entry 0,
    /// which ends the table, else an import by ordinal where bit 63 is set
    /// and an import by name where it is clear. Of the other bits the low
    /// 32 count.
    pub open spec fn spec_from_u64(file: Seq<u8>, rows: Seq<SectionTableRow>, val: u64) -> Result<
        Option<ImportTableRowView>,
        PerwError,
    > {
        if val == 0 {
            Ok(None)
        } else {
            match Self::spec_from_lower_bits(
                file,
                rows,
                val & PE32_PLUS_LOOKUP_TABLE_ORDINAL_MASK != 0,
                (val & !PE32_PLUS_LOOKUP_TABLE_ORDINAL_MASK) as u32,
            ) {
                Ok(row) => Ok(Some(row)),
                Err(e) => Err(e),
            }
        }
    }

    /// A lookup entry with the ordinal flag decodes to an import by ordinal,
    /// whatever the file holds; an entry other than 0 without the flag decodes
    /// to an import by name, or to an error where the name does not resolve;
    /// and the entry 0 gives no row.
    pub proof fn lemma_classification(file: Seq<u8>, rows: Seq<SectionTableRow>, val: u32)
        ensures
            val == 0 ==> Self::spec_from_u32(file, rows, val) == Ok::<
                Option<ImportTableRowView>,
                PerwError,
            >(None),
            val & PE32_LOOKUP_TABLE_ORDINAL_MASK != 0 ==> Self::spec_from_u32(file, rows, val)
                == Ok::<Option<ImportTableRowView>, PerwError>(
                Some(ImportTableRowView::Ordinal((val & 0xFFFF) as u16)),
            ),
            val != 0 && val & PE32_LOOKUP_TABLE_ORDINAL_MASK == 0 ==> match Self::spec_from_u32(
                file,
                rows,
                val,
            ) {
                Ok(Some(row)) => row is HintName && row->name_rva == val
                    && spec_find_rva_data(rows, file, val as int) is Some,
                Ok(None) => false,
                Err(_) => true,
            },
    {
        assert(val & 0x80000000 != 0 ==> val != 0 && (val & !0x80000000u32) & 0xFFFF == val
            & 0xFFFF) by (bit_vector);
        assert(val & 0x80000000 == 0 ==> (val & !0x80000000u32) & 0x7FFF_FFFF == val)
            by (bit_vector);
    }

    /// The same for a 64-bit lookup entry, whose flag is bit 63.
    pub proof fn lemma_classification_wide(file: Seq<u8>, rows: Seq<SectionTableRow>, val: u64)
        ensures
            val == 0 ==> Self::spec_from_u64(file, rows, val) == Ok::<
                Option<ImportTableRowView>,
                PerwError,
            >(None),
            val & PE32_PLUS_LOOKUP_TABLE_ORDINAL_MASK != 0 ==> Self::spec_from_u64(file, rows, val)
                is Ok && Self::spec_from_u64(file, rows, val)->Ok_0 is Some
                && Self::spec_from_u64(file, rows, val)->Ok_0->0 is Ordinal,
            val != 0 && val & PE32_PLUS_LOOKUP_TABLE_ORDINAL_MASK == 0 ==> match Self::spec_from_u64(
                file,
                rows,
                val,
            ) {
                Ok(Some(row)) => row is HintName,
                Ok(None) => false,
                Err(_) => true,
            },
    {
        assert(val & 0x8000000000000000 != 0 ==> val != 0) by (bit_vector);
    }

    /// Whether the row is the import by ordinal 0.
    pub fn is_null(&self) -> (b: bool)
        ensures
            b == (self@ == ImportTableRowView::Ordinal(0)),
    {
        match self {
            Self::Ordinal(ordinal) => *ordinal == 0,
            Self::HintName { .. } => false,
        }
    }

    fn from_lower_bits(
        file_bytes: &[u8],
        sections: &SectionTable,
        import_by_ordinal: bool,
        rest_of_fields: u32,
    ) -> (r: Result<Self, PerwError>)
        ensures
            match Self::spec_from_lower_bits(
                file_bytes@,
                sections@,
                import_by_ordinal,
                rest_of_fields,
            ) {
                Ok(row) => r matches Ok(got) && got@ == row,
                Err(e) => r matches Err(got) && got == e,
            },
    {
        if import_by_ordinal {
            assert(rest_of_fields & 0xFFFF <= 0xFFFF) by (bit_vector);
            return Ok(ImportTableRow::Ordinal((rest_of_fields & 0xFFFF) as u16));
        }
        let name_rva = rest_of_fields & 0x7FFF_FFFF;
        let mut hint_rva_location = match sections.find_rva_data(file_bytes, name_rva as usize) {
            Some(data) => data,
            None => {
                return Err(
                    PerwError::invalid_image_format(
                        "Failed to map \"Hint/Name Table RVA\" inside image",
                    ),
                );
            },
        };
        let hint = u16::read(&mut hint_rva_location)?;
        Ok(ImportTableRow::HintName { hint, name_rva, name: read_terminated(hint_rva_location) })
    }

    /// Decodes a 32-bit lookup entry. The entry 0 gives no row.
    pub fn from_u32(file_bytes: &[u8], sections: &SectionTable, val: u32) -> (r: Result<
        Option<Self>,
        PerwError,
    >)
        ensures
            match Self::spec_from_u32(file_bytes@, sections@, val) {
                Ok(Some(row)) => r matches Ok(Some(got)) && got@ == row,
                Ok(None) => r matches Ok(None),
                Err(e) => r matches Err(got) && got == e,
            },
    {
        if val == 0 {
            return Ok(None);
        }
        let import_by_ordinal = (val & PE32_LOOKUP_TABLE_ORDINAL_MASK) != 0;
        let rest_of_fields = val & !PE32_LOOKUP_TABLE_ORDINAL_MASK;
        match Self::from_lower_bits(file_bytes, sections, import_by_ordinal, rest_of_fields) {
            Ok(row) => Ok(Some(row)),
            Err(e) => Err(e),
        }
    }

    /// Decodes a 64-bit lookup entry. The entry 0 gives no row.
    pub fn from_u64(file_bytes: &[u8], sections: &SectionTable, val: u64) -> (r: Result<
        Option<Self>,
        PerwError,
    >)
        ensures
            match Self::spec_from_u64(file_bytes@, sections@, val) {
                Ok(Some(row)) => r matches Ok(Some(got)) && got@ == row,
                Ok(None) => r matches Ok(None),
                Err(e) => r matches Err(got) && got == e,
            },
    {
        if val == 0 {
            return Ok(None);
        }
        let import_by_ordinal = (val & PE32_PLUS_LOOKUP_TABLE_ORDINAL_MASK) != 0;
        let rest_of_fields = #[verifier::truncate]
        ((val & !PE32_PLUS_LOOKUP_TABLE_ORDINAL_MASK) as u32);
        match Self::from_lower_bits(file_bytes, sections, import_by_ordinal, rest_of_fields) {
            Ok(row) => Ok(Some(row)),
            Err(e) => Err(e),
        }
    }
}

/// The tables for one DLL, grouped: the entry of the import directory
/// table, the name of the DLL, and the import lookup table.
#[derive(Default, Clone, Debug, PartialEq, Eq)]
pub struct ImportTableDataDirectoryEntry {
    /// The entry of the import directory table for this DLL.
    pub import_directory_table: ImportDirectoryTable,
    /// The name of the DLL, read at `name_rva`.
    pub dll_name: String,
    /// The imports from this DLL. The file ends the table with an entry 0,
    /// which is not held here.
    pub import_lookup_table: Table<ImportTableRow>,
}

/// What the tables for one DLL hold, as plain values.
pub struct ImportTableEntryView {
    pub import_directory_table: ImportDirectoryTable,
    pub dll_name: Seq<char>,
    pub import_lookup_table: Seq<ImportTableRowView>,
}

impl View for ImportTableDataDirectoryEntry {
    type V = ImportTableEntryView;

    open spec fn view(&self) -> ImportTableEntryView {
        ImportTableEntryView {
            import_directory_table: self.import_directory_table,
            dll_name: self.dll_name@,
            import_lookup_table: spec_row_views(self.import_lookup_table@),
        }
    }
}

impl ImportTableDataDirectoryEntry {
    /// The error for a lookup table whose address does not resolve.
    pub open spec fn unmapped_lookup_table() -> PerwError {
        PerwError::InvalidImageFormat {
            message: "Failed to map import_lookup_table_rva inside image",
        }
    }

    /// The error for a DLL name whose address does not resolve.
    pub open spec fn unmapped_name() -> PerwError {
        PerwError::InvalidImageFormat {
            message: "Failed to map import_directory_table.name_rva inside image",
        }
    }

    /// The error for a magic number that names no shape.
    pub open spec fn bad_magic() -> PerwError {
        PerwError::InvalidImageFormat { message: "Bad optional header magic number" }
    }

    /// The rows that a lookup table holds in `data`: entries of 64 bits
    /// where `wide`, of 32 bits else, up to the first entry 0, which ends the
    /// table and gives no row.
    pub open spec fn spec_lookup_table(
        file: Seq<u8>,
        rows: Seq<SectionTableRow>,
        data: Seq<u8>,
        wide: bool,
    ) -> Result<Seq<ImportTableRowView>, PerwError>
        decreases data.len(),
    {
        let width: int = if wide {
            8
        } else {
            4
        };
        if data.len() < width {
            Err(PerwError::NotEnoughDataLeft { attempted_read: width as usize })
        } else {
            let entry = if wide {
                ImportTableRow::spec_from_u64(file, rows, spec_u64_from_le_bytes(data.take(8)))
            } else {
                ImportTableRow::spec_from_u32(file, rows, spec_u32_from_le_bytes(data.take(4)))
            };
            match entry {
                Err(e) => Err(e),
                Ok(None) => Ok(Seq::empty()),
                Ok(Some(row)) => spec_prepend(
                    seq![row],
                    Self::spec_lookup_table(file, rows, data.skip(width), wide),
                ),
            }
        }
    }

    /// What the tables for one DLL decode to: the lookup table at
    /// `import_lookup_table_rva`, in the width that `magic` selects, and the
    /// name of the DLL at `name_rva`.
    pub open spec fn spec_parse(
        file: Seq<u8>,
        import_directory_table: ImportDirectoryTable,
        rows: Seq<SectionTableRow>,
        magic: OptionalHeaderMagic,
    ) -> Result<ImportTableEntryView, PerwError> {
        if magic is Other {
            Err(Self::bad_magic())
        } else {
            match spec_find_rva_data(
                rows,
                file,
                import_directory_table.import_lookup_table_rva as int,
            ) {
                None => Err(Self::unmapped_lookup_table()),
                Some(data) => match Self::spec_lookup_table(file, rows, data, magic is PE32Plus) {
                    Err(e) => Err(e),
                    Ok(import_lookup_table) => match spec_find_rva_data(
                        rows,
                        file,
                        import_directory_table.name_rva as int,
                    ) {
                        None => Err(Self::unmapped_name()),
                        Some(name) => Ok(
                            ImportTableEntryView {
                                import_directory_table,
                                dll_name: lossy_utf8(spec_terminated(name)),
                                import_lookup_table,
                            },
                        ),
                    },
                },
            }
        }
    }

    /// Reads the rows of a lookup table up to the entry 0 that ends it.
    pub fn read_lookup_table(
        file_bytes: &[u8],
        sections: &SectionTable,
        data: &[u8],
        wide: bool,
    ) -> (r: Result<Table<ImportTableRow>, PerwError>)
        ensures
            match Self::spec_lookup_table(file_bytes@, sections@, data@, wide) {
                Ok(rows) => r matches Ok(got) && spec_row_views(got@) == rows,
                Err(e) => r matches Err(got) && got == e,
            },
    {
        let mut lookup_table_data_ptr = data;
        let mut lookup_items: Vec<ImportTableRow> = Vec::new();
        let ghost whole = Self::spec_lookup_table(file_bytes@, sections@, data@, wide);
        assert(spec_prepend(spec_row_views(lookup_items@), whole) =~= whole) by {
            if whole is Ok {
                assert(spec_row_views(lookup_items@) + whole->Ok_0 =~= whole->Ok_0);
            }
        }
        loop
            invariant
                whole == Self::spec_lookup_table(file_bytes@, sections@, data@, wide),
                whole == spec_prepend(
                    spec_row_views(lookup_items@),
                    Self::spec_lookup_table(file_bytes@, sections@, lookup_table_data_ptr@, wide),
                ),
            decreases lookup_table_data_ptr@.len(),
        {
            let lookup_entry = if wide {
                ImportTableRow::from_u64(
                    file_bytes,
                    sections,
                    u64::read(&mut lookup_table_data_ptr)?,
                )?
            } else {
                ImportTableRow::from_u32(
                    file_bytes,
                    sections,
                    u32::read(&mut lookup_table_data_ptr)?,
                )?
            };
            match lookup_entry {
                Some(lookup_entry) => {
                    proof {
                        let rest = Self::spec_lookup_table(
                            file_bytes@,
                            sections@,
                            lookup_table_data_ptr@,
                            wide,
                        );
                        let have = spec_row_views(lookup_items@);
                        assert(spec_row_views(lookup_items@.push(lookup_entry)) =~= have.push(
                            lookup_entry@,
                        ));
                        if rest is Ok {
                            assert(have + (seq![lookup_entry@] + rest->Ok_0) =~= have.push(
                                lookup_entry@,
                            ) + rest->Ok_0);
                        }
                    }
                    lookup_items.push(lookup_entry);
                },
                None => {
                    assert(spec_row_views(lookup_items@) + Seq::empty() =~= spec_row_views(
                        lookup_items@,
                    ));
                    return Ok(Table(lookup_items));
                },
            }
        }
    }

    /// Decodes the tables for one DLL.
    pub fn parse(
        file_bytes: &[u8],
        import_directory_table: ImportDirectoryTable,
        sections: &SectionTable,
        magic: OptionalHeaderMagic,
    ) -> (r: Result<Self, PerwError>)
        ensures
            match Self::spec_parse(file_bytes@, import_directory_table, sections@, magic) {
                Ok(entry) => r matches Ok(got) && got@ == entry,
                Err(e) => r matches Err(got) && got == e,
            },
    {
        if !magic.is_pe32() && !magic.is_pe32_plus() {
            return Err(PerwError::invalid_image_format("Bad optional header magic number"));
        }
        let import_lookup_table_data = match sections.find_rva_data(
            file_bytes,
            import_directory_table.import_lookup_table_rva as usize,
        ) {
            Some(data) => data,
            None => {
                return Err(
                    PerwError::invalid_image_format(
                        "Failed to map import_lookup_table_rva inside image",
                    ),
                );
            },
        };
        let import_lookup_table = Self::read_lookup_table(
            file_bytes,
            sections,
            import_lookup_table_data,
            magic.is_pe32_plus(),
        )?;
        let dll_name = match sections.find_rva_data(
            file_bytes,
            import_directory_table.name_rva as usize,
        ) {
            Some(dll_name_data) => read_terminated(dll_name_data),
            None => {
                return Err(
                    PerwError::invalid_image_format(
                        "Failed to map import_directory_table.name_rva inside image",
                    ),
                );
            },
        };
        Ok(Self { import_directory_table, dll_name, import_lookup_table })
    }
}

/// The import tables of an image, decoded: one entry for each DLL.
#[derive(Default, Clone, Debug, PartialEq, Eq)]
pub struct ImportTableDataDirectory {
    /// One entry for each DLL to which the image refers. The file ends the
    /// table with an entry that is all zero, which is not held here.
    pub entries: Table<ImportTableDataDirectoryEntry>,
}

/// The views of the entries, in order.
pub open spec fn spec_entry_views(entries: Seq<ImportTableDataDirectoryEntry>) -> Seq<
    ImportTableEntryView,
> {
    Seq::new(entries.len(), |i: int| entries[i]@)
}

impl View for ImportTableDataDirectory {
    type V = Seq<ImportTableEntryView>;

    open spec fn view(&self) -> Seq<ImportTableEntryView> {
        spec_entry_views(self.entries@)
    }
}

impl ImportTableDataDirectory {
    /// What the bytes `section_data` of the import directory decode to:
    /// entries of 20 bytes up to the first that is all zero, each with the
    /// tables that it points to in `file`.
    pub open spec fn spec_parse(
        file: Seq<u8>,
        section_data: Seq<u8>,
        rows: Seq<SectionTableRow>,
        magic: OptionalHeaderMagic,
    ) -> Result<Seq<ImportTableEntryView>, PerwError>
        decreases section_data.len(),
    {
        if section_data.len() < 20 {
            Err(PerwError::NotEnoughDataLeft { attempted_read: 20 })
        } else {
            let directory = ImportDirectoryTable::spec_decode(section_data.take(20));
            if directory.spec_is_null() {
                Ok(Seq::empty())
            } else {
                match ImportTableDataDirectoryEntry::spec_parse(file, directory, rows, magic) {
                    Err(e) => Err(e),
                    Ok(entry) => spec_prepend(
                        seq![entry],
                        Self::spec_parse(file, section_data.skip(20), rows, magic),
                    ),
                }
            }
        }
    }

    /// Decodes the import tables: the directory entries from `section_data`
    /// and, for each, the tables that it points to from `file_bytes`.
    pub fn parse(
        file_bytes: &[u8],
        section_data: &[u8],
        sections: &SectionTable,
        magic: OptionalHeaderMagic,
    ) -> (r: Result<Self, PerwError>)
        ensures
            match Self::spec_parse(file_bytes@, section_data@, sections@, magic) {
                Ok(entries) => r matches Ok(got) && got@ == entries,
                Err(e) => r matches Err(got) && got == e,
            },
    {
        let mut import_lookup_table_ptr = section_data;
        let mut import_directory_tables: Vec<ImportTableDataDirectoryEntry> = Vec::new();
        let ghost whole = Self::spec_parse(file_bytes@, section_data@, sections@, magic);
        assert(spec_prepend(spec_entry_views(import_directory_tables@), whole) =~= whole) by {
            if whole is Ok {
                assert(spec_entry_views(import_directory_tables@) + whole->Ok_0
                    =~= whole->Ok_0);
            }
        }
        loop
            invariant
                whole == Self::spec_parse(file_bytes@, section_data@, sections@, magic),
                whole == spec_prepend(
                    spec_entry_views(import_directory_tables@),
                    Self::spec_parse(file_bytes@, import_lookup_table_ptr@, sections@, magic),
                ),
            decreases import_lookup_table_ptr@.len(),
        {
            let dir = ImportDirectoryTable::read(&mut import_lookup_table_ptr)?;
            if dir.is_null() {
                assert(spec_entry_views(import_directory_tables@) + Seq::empty()
                    =~= spec_entry_views(import_directory_tables@));
                return Ok(Self { entries: Table(import_directory_tables) });
            }
            let entry = ImportTableDataDirectoryEntry::parse(file_bytes, dir, sections, magic)?;
            proof {
                let rest = Self::spec_parse(
                    file_bytes@,
                    import_lookup_table_ptr@,
                    sections@,
                    magic,
                );
                let have = spec_entry_views(import_directory_tables@);
                assert(spec_entry_views(import_directory_tables@.push(entry)) =~= have.push(
                    entry@,
                ));
                if rest is Ok {
                    assert(have + (seq![entry@] + rest->Ok_0) =~= have.push(entry@)
                        + rest->Ok_0);
                }
            }
            import_directory_tables.push(entry);
        }
    }
}


impl RoundTrip for ImportDirectoryTable {
    open spec fn spec_canonical(&self) -> bool {
        true
    }

    proof fn lemma_round_trip(&self) {
        self.lemma_write_read();
    }
}

} // verus!
