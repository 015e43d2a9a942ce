//! The definition of an image that is to be written: its headers and the
//! bytes of its sections. Addresses and file offsets are assigned here, so
//! no address has to be resolved.
pub mod layout;
pub mod lift;
pub mod sections;

pub use layout::{align_up, checked_align_up};
pub use sections::{SectionDefinitions, SectionHeap};

use super::{spec_signature, PEFile};
use crate::error::PerwError;
use crate::io::{lemma_array_of, put_slice, WriteData};
use crate::pe::coff::{CoffFileHeader, ImageFileCharacteristics, ImageFileMachine};
use crate::pe::dos::ImageDosHeader;
use crate::pe::optional_header::OptionalHeader;
use crate::pe::sections::{SectionFlags, SectionTable, SectionTableRow};
use layout::{
    lemma_align_up_bounds, lemma_data_end_bound, lemma_data_end_from, lemma_sections_size_bound,
    lemma_sections_size_nonnegative, spec_align_up, spec_data_end, spec_name_field, spec_pad_to,
    spec_row, spec_rows, spec_sections_size, spec_with_payloads,
};
use lift::{
    bytes_equal, spec_data_name, spec_lift, spec_lift_row, spec_pdata_name, spec_rdata_name,
    spec_reloc_name, spec_text_name,
};
use sections::SectionHeapView;
use vstd::prelude::*;
use vstd::slice::{slice_subrange, slice_to_vec};
use vstd::string::{StrSliceExecFns, StringExecFns};

verus! {

/// The definition of an image that is to be written.
#[derive(Debug, Clone, PartialEq, Eq)]
pub struct PEImageDef {
    pub dos_header: ImageDosHeader,
    pub file_characteristics: ImageFileCharacteristics,
    pub optional_header: OptionalHeader,
    pub sections: SectionDefinitions,
}

impl PEImageDef {
    /// The file offset behind the section table: the DOS header and its stub
    /// up to `e_lfanew`, the signature, the COFF header, the optional header
    /// and a row for each section.
    pub open spec fn spec_headers_end(&self) -> int {
        self.spec_table_start() + 40 * self.sections.spec_sections().len()
    }

    /// The file offset of the section table.
    pub open spec fn spec_table_start(&self) -> int {
        (if self.dos_header.e_lfanew > 64 {
            self.dos_header.e_lfanew as int
        } else {
            64
        }) + 4 + 20 + self.optional_header.spec_size()
    }

    /// The file offset of the section table as the header fields tell it,
    /// with the signature at `e_lfanew`.
    pub open spec fn spec_declared_headers_end(&self) -> int {
        self.dos_header.e_lfanew + 4 + 20 + self.optional_header.spec_size() + 40
            * self.sections.spec_sections().len()
    }

    /// The size of the image in memory: the size of the headers and the
    /// sizes of the data of the sections, each taken up to a multiple of the
    /// section alignment.
    pub open spec fn spec_output_size(&self) -> int {
        self.optional_header.windows_specific_fields.spec_size_of_headers() + spec_sections_size(
            self.sections.spec_sections(),
            self.optional_header.windows_specific_fields.spec_section_alignment() as int,
        )
    }

    /// The definition of an image with no section: a DOS header that holds
    /// the magic number and puts the signature right behind itself, and an
    /// optional header of PE32 with every field zero.
    pub fn new() -> (def: Self)
        ensures
            def.dos_header == (ImageDosHeader {
                e_magic: ImageDosHeader::MAGIC_CONSTANT,
                e_lfanew: 64,
                ..ImageDosHeader::spec_zero()
            }),
            def.file_characteristics.bits == 0,
            def.optional_header == OptionalHeader::spec_empty(),
            def.sections.spec_all() == Seq::<SectionHeapView>::empty(),
    {
        let mut dos_header = ImageDosHeader::default();
        dos_header.e_magic = ImageDosHeader::MAGIC_CONSTANT;
        dos_header.e_lfanew = 64;
        PEImageDef {
            dos_header,
            file_characteristics: ImageFileCharacteristics::from_bits_retain(0),
            optional_header: OptionalHeader::default(),
            sections: SectionDefinitions::new(),
        }
    }

    /// Lifts a parsed image to a definition: its DOS header, the
    /// characteristics of its COFF header, its optional header or an empty
    /// one, and each row of its section table as a section heap with the raw
    /// data that the row points to in `file_bytes`.
    pub fn from_pe_file(pe_file: PEFile, file_bytes: &[u8]) -> (def: Self)
        ensures
            def.dos_header == pe_file.dos_header,
            def.file_characteristics == pe_file.coff_header.characteristics,
            def.optional_header == match pe_file.optional_header {
                Some(header) => header,
                None => OptionalHeader::spec_empty(),
            },
            def.sections@ == spec_lift(pe_file.section_table@, file_bytes@),
    {
        broadcast use vstd::array::group_array_axioms;

        let PEFile { dos_header, coff_header, optional_header, section_table, .. } = pe_file;
        let text_name = [0x2Eu8, 0x74u8, 0x65u8, 0x78u8, 0x74u8];
        let data_name = [0x2Eu8, 0x64u8, 0x61u8, 0x74u8, 0x61u8];
        let rdata_name = [0x2Eu8, 0x72u8, 0x64u8, 0x61u8, 0x74u8, 0x61u8];
        let reloc_name = [0x2Eu8, 0x72u8, 0x65u8, 0x6Cu8, 0x6Fu8, 0x63u8];
        let pdata_name = [0x2Eu8, 0x70u8, 0x64u8, 0x61u8, 0x74u8, 0x61u8];
        assert(text_name@ =~= spec_text_name());
        assert(data_name@ =~= spec_data_name());
        assert(rdata_name@ =~= spec_rdata_name());
        assert(reloc_name@ =~= spec_reloc_name());
        assert(pdata_name@ =~= spec_pdata_name());
        let mut sections = SectionDefinitions::new();
        let ghost rows = section_table@;
        let mut i: usize = 0;
        assert(rows.take(0) =~= Seq::<SectionTableRow>::empty());
        assert(sections@.other =~= Seq::<SectionHeapView>::empty());
        while i < section_table.len()
            invariant
                i <= rows.len(),
                rows == section_table@,
                text_name@ == spec_text_name(),
                data_name@ == spec_data_name(),
                rdata_name@ == spec_rdata_name(),
                reloc_name@ == spec_reloc_name(),
                pdata_name@ == spec_pdata_name(),
                sections@ == spec_lift(rows.take(i as int), file_bytes@),
            decreases rows.len() - i,
        {
            let row = &section_table.0.0[i];
            assert(*row == rows[i as int]);
            let start = row.pointer_to_raw_data as u64;
            let end = start + row.size_of_raw_data as u64;
            let data = if end <= file_bytes.len() as u64 {
                slice_to_vec(slice_subrange(file_bytes, start as usize, end as usize))
            } else {
                Vec::new()
            };
            let heap = SectionHeap {
                data,
                name: String::from_str(row.name_str()),
                characteristics: row.characteristics,
                virtual_address: row.virtual_address,
                virtual_size: row.virtual_size,
            };
            assert(heap@.data =~= spec_lift_row(*row, file_bytes@).data);
            assert(heap@ == spec_lift_row(*row, file_bytes@));
            let name_end = crate::io::text::find_nul(row.name.as_slice());
            let name = slice_subrange(row.name.as_slice(), 0, name_end);
            assert(name@ =~= row.spec_name_bytes());
            let ghost before = sections@;
            if bytes_equal(name, text_name.as_slice()) {
                sections.text = Some(heap);
            } else if bytes_equal(name, data_name.as_slice()) {
                sections.data = Some(heap);
            } else if bytes_equal(name, rdata_name.as_slice()) {
                sections.rdata = Some(heap);
            } else if bytes_equal(name, reloc_name.as_slice()) {
                sections.reloc = Some(heap);
            } else if bytes_equal(name, pdata_name.as_slice()) {
                sections.pdata = Some(heap);
            } else {
                sections.other.push(heap);
                assert(sections@.other =~= before.other.push(heap@));
            }
            proof {
                assert(rows.take(i + 1).drop_last() =~= rows.take(i as int));
                assert(rows.take(i + 1).last() == rows[i as int]);
            }
            i += 1;
        }
        assert(rows.take(rows.len() as int) =~= rows);
        Self {
            dos_header,
            optional_header: match optional_header {
                Some(header) => header,
                None => OptionalHeader::default(),
            },
            sections,
            file_characteristics: coff_header.characteristics,
        }
    }

    /// Adds a section with no data at the address that
    /// `next_virtual_address` gives, cut to 32 bits, and hands it out.
    pub fn new_section(&mut self, name: String, characteristics: SectionFlags) -> (heap: &mut SectionHeap)
        requires
            old(self).sections.spec_next_virtual_address() <= usize::MAX,
        ensures
            heap@ == (SectionHeapView {
                name: name@,
                virtual_address: old(self).sections.spec_next_virtual_address() as u32,
                virtual_size: 0,
                characteristics,
                data: Seq::empty(),
            }),
            final(self).sections.other@ == old(self).sections.other@.push(*final(heap)),
            final(self).sections.text == old(self).sections.text,
            final(self).sections.data == old(self).sections.data,
            final(self).sections.rdata == old(self).sections.rdata,
            final(self).sections.pdata == old(self).sections.pdata,
            final(self).sections.reloc == old(self).sections.reloc,
            final(self).dos_header == old(self).dos_header,
            final(self).file_characteristics == old(self).file_characteristics,
            final(self).optional_header == old(self).optional_header,
    {
        let section = SectionHeap {
            name,
            virtual_address: #[verifier::truncate]
            (self.sections.next_virtual_address() as u32),
            data: Vec::new(),
            characteristics,
            virtual_size: 0,
        };
        self.sections.other.push(section);
        let last = self.sections.other.len() - 1;
        &mut self.sections.other[last]
    }

    /// The count of data directories after a header fix-up: the count that
    /// the header declares, raised to cover the last directory that is not
    /// all zero.
    pub open spec fn spec_fixed_count(&self) -> u32 {
        let declared = self.optional_header.windows_specific_fields.spec_number_of_rva_and_sizes();
        let used = self.optional_header.data_directories.spec_used();
        if declared >= used {
            declared
        } else {
            used as u32
        }
    }

    /// The size of the headers after a header fix-up, before it is cut to 32
    /// bits: the DOS header and its stub up to `e_lfanew`, the signature, the
    /// COFF header, the optional header with the fixed count of directories
    /// and the rows of the section table, taken up to a multiple of the file
    /// alignment.
    pub open spec fn spec_fixed_headers_end(&self) -> int {
        self.dos_header.e_lfanew + 4 + 20 + (OptionalHeader {
            windows_specific_fields: self.optional_header.windows_specific_fields.spec_with_sizes(
                self.spec_fixed_count(),
                self.optional_header.windows_specific_fields.spec_size_of_headers(),
                self.optional_header.windows_specific_fields.spec_size_of_image(),
            ),
            ..self.optional_header
        }).spec_size() + 40 * self.sections.spec_sections().len()
    }

    /// The size of the headers after a header fix-up, before it is cut to 32
    /// bits.
    pub open spec fn spec_fixed_size_of_headers(&self) -> int {
        spec_align_up(
            self.spec_fixed_headers_end(),
            self.optional_header.windows_specific_fields.spec_file_alignment() as int,
        )
    }

    /// The size of the image after a header fix-up, before it is cut to 32
    /// bits: the size of the headers as the header then holds it, and the
    /// sizes of the data of the sections, each taken up to a multiple of the
    /// section alignment.
    pub open spec fn spec_fixed_size_of_image(&self) -> int {
        (self.spec_fixed_size_of_headers() as u32) + spec_sections_size(
            self.sections.spec_sections(),
            self.optional_header.windows_specific_fields.spec_section_alignment() as int,
        )
    }

    /// The optional header after a header fix-up.
    pub open spec fn spec_fixed_header(&self) -> OptionalHeader {
        OptionalHeader {
            windows_specific_fields: self.optional_header.windows_specific_fields.spec_with_sizes(
                self.spec_fixed_count(),
                self.spec_fixed_size_of_headers() as u32,
                self.spec_fixed_size_of_image() as u32,
            ),
            ..self.optional_header
        }
    }

    /// Computes the header fields that depend on the sections: raises
    /// `number_of_rva_and_sizes` to cover the last data directory that is not
    /// all zero, and recomputes `size_of_headers` and `size_of_image`, each
    /// cut to 32 bits.
    pub fn fix_headers(&mut self)
        requires
            old(self).spec_fixed_size_of_headers() <= usize::MAX,
            old(self).spec_fixed_size_of_image() <= usize::MAX,
        ensures
            final(self).optional_header == old(self).spec_fixed_header(),
            final(self).dos_header == old(self).dos_header,
            final(self).file_characteristics == old(self).file_characteristics,
            final(self).sections == old(self).sections,
    {
        let declared = self.optional_header.windows_specific_fields.number_of_rva_and_sizes();
        let used = self.optional_header.data_directories.used();
        let number_of_data_directories = if declared >= used {
            declared
        } else {
            used
        };
        self.optional_header.windows_specific_fields.set_number_of_rva_and_sizes(
            number_of_data_directories,
        );
        let file_alignment = self.optional_header.windows_specific_fields.file_alignment() as usize;
        let count = self.sections.count();
        proof {
            lemma_align_up_bounds(
                old(self).spec_fixed_headers_end(),
                file_alignment as int,
            );
        }
        let headers_end = self.dos_header.e_lfanew as usize + PEFile::SIGNATURE_SIZE
            + CoffFileHeader::SIZE + self.optional_header.size() + SectionTableRow::SIZE * count;
        let size_of_headers = align_up(headers_end, file_alignment);
        self.optional_header.windows_specific_fields.set_size_of_headers(
            #[verifier::truncate]
            (size_of_headers as u32),
        );
        let size_of_image = self.output_size();
        self.optional_header.windows_specific_fields.set_size_of_image(
            #[verifier::truncate]
            (size_of_image as u32),
        );
    }

    /// Fixes the headers, then writes the file.
    pub fn write_file(&mut self) -> (r: Result<Vec<u8>, PerwError>)
        requires
            old(self).spec_fixed_size_of_headers() <= usize::MAX,
            old(self).spec_fixed_size_of_image() <= usize::MAX,
            (PEImageDef { optional_header: old(self).spec_fixed_header(), ..*old(self) }).spec_file_size()
                <= usize::MAX,
        ensures
            final(self).optional_header == old(self).spec_fixed_header(),
            final(self).dos_header == old(self).dos_header,
            final(self).file_characteristics == old(self).file_characteristics,
            final(self).sections == old(self).sections,
            match final(self).spec_write() {
                Ok(bytes) => r matches Ok(out) && out@ == bytes,
                Err(e) => r matches Err(got) && got == e,
            },
    {
        self.fix_headers();
        self.write_no_fix()
    }

    /// The error for a layout whose sizes the machine cannot hold.
    pub open spec fn too_large() -> PerwError {
        PerwError::NotEnoughSpaceLeft { attempted_write: usize::MAX }
    }

    /// Whether the machine can hold the sizes that a header fix-up computes.
    pub open spec fn spec_fix_fits(&self) -> bool {
        &&& self.spec_fixed_size_of_headers() <= usize::MAX
        &&& self.spec_fixed_size_of_image() <= usize::MAX
    }

    /// Whether the machine can hold the file offsets of the layout.
    pub open spec fn spec_file_fits(&self) -> bool {
        self.spec_file_size() <= usize::MAX
    }

    /// Whether the machine can hold the sizes that a header fix-up computes.
    pub fn fix_fits(&self) -> (fits: bool)
        ensures
            fits == self.spec_fix_fits(),
    {
        let declared = self.optional_header.windows_specific_fields.number_of_rva_and_sizes();
        let used = self.optional_header.data_directories.used();
        let fixed_count = if declared >= used {
            declared
        } else {
            used
        };
        let directories: usize = if fixed_count < 16 {
            fixed_count as usize
        } else {
            16
        };
        let base: usize = if self.optional_header.windows_specific_fields.is_pe32() {
            96
        } else {
            112
        };
        let optional_size = base + 8 * directories;
        let file_alignment = self.optional_header.windows_specific_fields.file_alignment() as usize;
        let section_alignment =
            self.optional_header.windows_specific_fields.section_alignment() as usize;
        let sections = self.sections.iter_sections();
        let ghost views = self.sections.spec_sections();
        proof {
            lemma_align_up_bounds(self.spec_fixed_headers_end(), file_alignment as int);
            lemma_sections_size_nonnegative(views, section_alignment as int);
        }
        let rows = match sections.len().checked_mul(SectionTableRow::SIZE) {
            Some(rows) => rows,
            None => {
                return false;
            },
        };
        let fixed = match (self.dos_header.e_lfanew as usize).checked_add(24 + optional_size) {
            Some(fixed) => fixed,
            None => {
                return false;
            },
        };
        let headers_end = match fixed.checked_add(rows) {
            Some(headers_end) => headers_end,
            None => {
                return false;
            },
        };
        assert(headers_end == self.spec_fixed_headers_end());
        let size_of_headers = match checked_align_up(headers_end, file_alignment) {
            Some(size_of_headers) => size_of_headers,
            None => {
                return false;
            },
        };
        let mut size: usize = (#[verifier::truncate]
        (size_of_headers as u32)) as usize;
        let ghost start = size;
        let mut i: usize = 0;
        assert(views.take(0) =~= Seq::<SectionHeapView>::empty());
        while i < sections.len()
            invariant
                i <= sections@.len(),
                views == self.sections.spec_sections(),
                sections@.len() == views.len(),
                forall|k: int| 0 <= k < sections@.len() ==> (#[trigger] sections@[k])@ == views[k],
                size == start + spec_sections_size(views.take(i as int), section_alignment as int),
                self.spec_fixed_size_of_image() == start + spec_sections_size(
                    views,
                    section_alignment as int,
                ),
                self.spec_fixed_size_of_headers() <= usize::MAX,
            decreases sections@.len() - i,
        {
            let heap = sections[i];
            assert(heap@ == views[i as int]);
            proof {
                lemma_sections_size_bound(views, section_alignment as int, i + 1);
                lemma_sections_size_bound(views, section_alignment as int, i as int);
            }
            let aligned = match checked_align_up(heap.data.len(), section_alignment) {
                Some(aligned) => aligned,
                None => {
                    return false;
                },
            };
            size = match size.checked_add(aligned) {
                Some(size) => size,
                None => {
                    return false;
                },
            };
            i += 1;
        }
        assert(views.take(views.len() as int) =~= views);
        true
    }

    /// Whether the machine can hold the file offsets of the layout.
    pub fn file_fits(&self) -> (fits: bool)
        ensures
            fits == self.spec_file_fits(),
    {
        let file_alignment = self.optional_header.windows_specific_fields.file_alignment() as usize;
        let sections = self.sections.iter_sections();
        let ghost views = self.sections.spec_sections();
        let ghost first = self.spec_first_data_offset();
        proof {
            lemma_align_up_bounds(self.spec_headers_end(), file_alignment as int);
            lemma_data_end_from(views, first, file_alignment as int);
        }
        let stub: usize = if self.dos_header.e_lfanew as usize > ImageDosHeader::SIZE {
            self.dos_header.e_lfanew as usize
        } else {
            ImageDosHeader::SIZE
        };
        let rows = match sections.len().checked_mul(SectionTableRow::SIZE) {
            Some(rows) => rows,
            None => {
                return false;
            },
        };
        let table_start = match stub.checked_add(24 + self.optional_header.size()) {
            Some(table_start) => table_start,
            None => {
                return false;
            },
        };
        let headers_end = match table_start.checked_add(rows) {
            Some(headers_end) => headers_end,
            None => {
                return false;
            },
        };
        let mut data_offset = match checked_align_up(headers_end, file_alignment) {
            Some(data_offset) => data_offset,
            None => {
                return false;
            },
        };
        let mut i: usize = 0;
        assert(views.take(0) =~= Seq::<SectionHeapView>::empty());
        while i < sections.len()
            invariant
                i <= sections@.len(),
                views == self.sections.spec_sections(),
                first == self.spec_first_data_offset(),
                0 <= first,
                file_alignment
                    == self.optional_header.windows_specific_fields.spec_file_alignment(),
                sections@.len() == views.len(),
                forall|k: int| 0 <= k < sections@.len() ==> (#[trigger] sections@[k])@ == views[k],
                data_offset == spec_data_end(views.take(i as int), first, file_alignment as int),
            decreases sections@.len() - i,
        {
            let heap = sections[i];
            assert(heap@ == views[i as int]);
            proof {
                assert(views.take(i + 1).drop_last() =~= views.take(i as int));
                lemma_data_end_bound(views, first, file_alignment as int, i as int);
                lemma_data_end_bound(views, first, file_alignment as int, i + 1);
            }
            let end = match data_offset.checked_add(heap.data.len()) {
                Some(end) => end,
                None => {
                    return false;
                },
            };
            data_offset = match checked_align_up(end, file_alignment) {
                Some(data_offset) => data_offset,
                None => {
                    return false;
                },
            };
            i += 1;
        }
        assert(views.take(views.len() as int) =~= views);
        true
    }

    /// Fixes the headers and writes the file, where the machine can hold the
    /// sizes of the layout. Where it cannot hold the sizes that the header
    /// fix-up computes, nothing changes.
    pub fn try_write_file(&mut self) -> (r: Result<Vec<u8>, PerwError>)
        ensures
            final(self).dos_header == old(self).dos_header,
            final(self).file_characteristics == old(self).file_characteristics,
            final(self).sections == old(self).sections,
            final(self).optional_header == if old(self).spec_fix_fits() {
                old(self).spec_fixed_header()
            } else {
                old(self).optional_header
            },
            if old(self).spec_fix_fits() && final(self).spec_file_fits() {
                match final(self).spec_write() {
                    Ok(bytes) => r matches Ok(out) && out@ == bytes,
                    Err(e) => r matches Err(got) && got == e,
                }
            } else {
                r matches Err(got) && got == Self::too_large()
            },
    {
        if !self.fix_fits() {
            return Err(PerwError::not_enough_space(usize::MAX));
        }
        self.fix_headers();
        if !self.file_fits() {
            return Err(PerwError::not_enough_space(usize::MAX));
        }
        self.write_no_fix()
    }

    /// The COFF header that a file gets: machine type x64, the
    /// characteristics of the definition, and the count of sections and the
    /// size of the optional header, each cut to 16 bits.
    pub open spec fn spec_coff_header(&self) -> CoffFileHeader {
        CoffFileHeader {
            machine: ImageFileMachine::Amd64,
            number_of_sections: self.sections.spec_sections().len() as u16,
            date_time_stamp: 0,
            pointer_to_symbol_table: 0,
            number_of_symbols: 0,
            size_of_optional_header: self.optional_header.spec_size() as u16,
            characteristics: self.file_characteristics,
        }
    }

    /// The bytes of a file up to the section table: the DOS header, NUL
    /// bytes up to `e_lfanew`, the signature, the COFF header and the optional
    /// header.
    pub open spec fn spec_head(&self) -> Seq<u8> {
        spec_pad_to(self.dos_header.spec_encode(), self.dos_header.e_lfanew as int)
            + spec_signature() + self.spec_coff_header().spec_encode()
            + self.optional_header.spec_encode()
    }

    /// The file offset of the data of the first section: the file offset
    /// behind the section table, taken up to a multiple of the file
    /// alignment.
    pub open spec fn spec_first_data_offset(&self) -> int {
        spec_align_up(
            self.spec_headers_end(),
            self.optional_header.windows_specific_fields.spec_file_alignment() as int,
        )
    }

    /// The rows of the section table of a file.
    pub open spec fn spec_section_rows(&self) -> Seq<SectionTableRow> {
        spec_rows(
            self.sections.spec_sections(),
            self.spec_first_data_offset(),
            self.optional_header.windows_specific_fields.spec_file_alignment() as int,
        )
    }

    /// The file offset behind the data of the last section, before any
    /// offset is cut to 32 bits.
    pub open spec fn spec_file_size(&self) -> int {
        spec_data_end(
            self.sections.spec_sections(),
            self.spec_first_data_offset(),
            self.optional_header.windows_specific_fields.spec_file_alignment() as int,
        )
    }

    /// The bytes of the file that the definition stands for, or the error
    /// for an optional header whose magic number names another shape than
    /// its fields have.
    ///
    /// The head comes first, then one row of the section table for each
    /// section, then the data of the sections in the order of the table,
    /// each behind NUL bytes up to the file offset that its row declares.
    pub open spec fn spec_write(&self) -> Result<Seq<u8>, PerwError> {
        match self.optional_header.spec_write() {
            Err(e) => Err(e),
            Ok(_) => Ok(
                spec_with_payloads(
                    self.spec_head() + SectionTable::spec_encode_rows(self.spec_section_rows()),
                    self.sections.spec_sections(),
                    self.spec_section_rows(),
                ),
            ),
        }
    }

    /// The eight bytes that a file holds for a section name.
    pub fn name_field(name: &String) -> (field: [u8; 8])
        ensures
            field == spec_name_field(name@),
    {
        broadcast use vstd::array::group_array_axioms;

        let text = name.as_str();
        let len = text.unicode_len();
        let mut name_buffer = [0u8;8];
        let mut i: usize = 0;
        while i < 8 && i < len
            invariant
                i <= 8,
                i <= len,
                len == name@.len(),
                text@ == name@,
                forall|k: int| 0 <= k < i ==> name_buffer@[k] == name@[k] as u8,
                forall|k: int| i <= k < 8 ==> name_buffer@[k] == 0,
            decreases 8 - i,
        {
            let c = text.get_char(i);
            name_buffer[i] = #[verifier::truncate]
            (c as u8);
            i += 1;
        }
        proof {
            let wanted = Seq::new(
                8,
                |i: int|
                    if i < name@.len() {
                        name@[i] as u8
                    } else {
                        0u8
                    },
            );
            lemma_array_of::<u8, 8>(wanted);
            assert(name_buffer@ =~= wanted);
            assert(name_buffer =~= spec_name_field(name@));
        }
        name_buffer
    }

    /// Appends NUL bytes to `buffer` up to the length `to`.
    pub fn pad_to(buffer: &mut Vec<u8>, to: usize)
        ensures
            final(buffer)@ == spec_pad_to(old(buffer)@, to as int),
    {
        let ghost start = buffer@;
        while buffer.len() < to
            invariant
                start == old(buffer)@,
                start.len() <= buffer@.len(),
                buffer@.len() <= to || buffer@ == start,
                buffer@ == start + Seq::new((buffer@.len() - start.len()) as nat, |i: int| 0u8),
            decreases to - buffer@.len(),
        {
            buffer.push(0u8);
            assert(buffer@ =~= start + Seq::new(
                (buffer@.len() - start.len()) as nat,
                |i: int| 0u8,
            ));
        }
        assert(buffer@ =~= spec_pad_to(start, to as int));
    }

    /// The rows of the section table of a file.
    fn section_rows(&self, sections: &Vec<&SectionHeap>) -> (rows: Vec<SectionTableRow>)
        requires
            self.spec_file_size() <= usize::MAX,
            sections@.len() == self.sections.spec_sections().len(),
            forall|i: int|
                0 <= i < sections@.len() ==> (#[trigger] sections@[i])@
                    == self.sections.spec_sections()[i],
        ensures
            rows@ == self.spec_section_rows(),
    {
        let file_alignment = self.optional_header.windows_specific_fields.file_alignment() as usize;
        let ghost views = self.sections.spec_sections();
        let ghost first = self.spec_first_data_offset();
        proof {
            lemma_data_end_bound(views, first, file_alignment as int, 0);
            assert(views.take(0) =~= Seq::<SectionHeapView>::empty());
            lemma_align_up_bounds(self.spec_headers_end(), file_alignment as int);
        }
        let table_start = (if self.dos_header.e_lfanew as usize > ImageDosHeader::SIZE {
            self.dos_header.e_lfanew as usize
        } else {
            ImageDosHeader::SIZE
        }) + PEFile::SIGNATURE_SIZE + CoffFileHeader::SIZE + self.optional_header.size();
        let mut data_offset = align_up(
            table_start + SectionTableRow::SIZE * sections.len(),
            file_alignment,
        );
        let mut rows: Vec<SectionTableRow> = Vec::new();
        let mut i: usize = 0;
        while i < sections.len()
            invariant
                i <= sections@.len(),
                views == self.sections.spec_sections(),
                first == self.spec_first_data_offset(),
                file_alignment
                    == self.optional_header.windows_specific_fields.spec_file_alignment(),
                sections@.len() == views.len(),
                forall|k: int| 0 <= k < sections@.len() ==> (#[trigger] sections@[k])@ == views[k],
                data_offset == spec_data_end(views.take(i as int), first, file_alignment as int),
                spec_data_end(views, first, file_alignment as int) <= usize::MAX,
                0 <= first,
                rows@.len() == i,
                forall|k: int|
                    0 <= k < i ==> rows@[k] == spec_row(
                        views[k],
                        spec_data_end(views.take(k), first, file_alignment as int),
                    ),
            decreases sections@.len() - i,
        {
            let sec = sections[i];
            assert(sec@ == views[i as int]);
            proof {
                assert(views.take(i + 1).drop_last() =~= views.take(i as int));
                lemma_data_end_bound(views, first, file_alignment as int, i + 1);
                lemma_align_up_bounds(
                    data_offset + sec.data@.len(),
                    file_alignment as int,
                );
            }
            let size = #[verifier::truncate]
            (sec.data.len() as u32);
            let row = SectionTableRow {
                name: Self::name_field(&sec.name),
                virtual_size: if sec.virtual_size >= size {
                    sec.virtual_size
                } else {
                    size
                },
                virtual_address: sec.virtual_address,
                size_of_raw_data: size,
                pointer_to_raw_data: #[verifier::truncate]
                (data_offset as u32),
                pointer_to_relocations: 0,
                pointer_to_line_numbers: 0,
                number_of_relocaions: 0,
                number_of_line_numbers: 0,
                characteristics: sec.characteristics,
            };
            rows.push(row);
            data_offset = align_up(data_offset + sec.data.len(), file_alignment);
            i += 1;
        }
        assert(rows@ =~= self.spec_section_rows());
        rows
    }

    /// Writes the file that the definition stands for, with the header
    /// fields as they are.
    pub fn write_no_fix(&self) -> (r: Result<Vec<u8>, PerwError>)
        requires
            self.spec_file_size() <= usize::MAX,
        ensures
            match self.spec_write() {
                Ok(bytes) => r matches Ok(out) && out@ == bytes,
                Err(e) => r matches Err(got) && got == e,
            },
    {
        let optional_header = self.optional_header.to_bytes()?;
        let sections = self.sections.iter_sections();
        let ghost views = self.sections.spec_sections();
        let mut buffer = match self.dos_header.to_bytes() {
            Ok(bytes) => bytes,
            Err(e) => {
                return Err(e);
            },
        };
        Self::pad_to(&mut buffer, self.dos_header.e_lfanew as usize);
        let signature = PEFile::signature();
        put_slice(&mut buffer, signature.as_slice());
        let coff_header = CoffFileHeader {
            machine: ImageFileMachine::Amd64,
            number_of_sections: #[verifier::truncate]
            (sections.len() as u16),
            date_time_stamp: 0,
            pointer_to_symbol_table: 0,
            number_of_symbols: 0,
            size_of_optional_header: #[verifier::truncate]
            (self.optional_header.size() as u16),
            characteristics: self.file_characteristics,
        };
        assert(coff_header == self.spec_coff_header());
        let coff_bytes = match coff_header.to_bytes() {
            Ok(bytes) => bytes,
            Err(e) => {
                return Err(e);
            },
        };
        put_slice(&mut buffer, coff_bytes.as_slice());
        put_slice(&mut buffer, optional_header.as_slice());
        assert(buffer@ =~= self.spec_head());
        let rows = self.section_rows(&sections);
        let table = SectionTable(crate::containers::Table(rows));
        let table_bytes = match table.to_bytes() {
            Ok(bytes) => bytes,
            Err(e) => {
                return Err(e);
            },
        };
        put_slice(&mut buffer, table_bytes.as_slice());
        let ghost start = buffer@;
        let ghost rows_view = self.spec_section_rows();
        let mut i: usize = 0;
        assert(views.take(0) =~= Seq::<SectionHeapView>::empty());
        while i < sections.len()
            invariant
                i <= sections@.len(),
                views == self.sections.spec_sections(),
                rows_view == self.spec_section_rows(),
                table@ == rows_view,
                rows_view.len() == views.len(),
                sections@.len() == views.len(),
                forall|k: int| 0 <= k < sections@.len() ==> (#[trigger] sections@[k])@ == views[k],
                buffer@ == spec_with_payloads(start, views.take(i as int), rows_view),
            decreases sections@.len() - i,
        {
            let sec = sections[i];
            assert(sec@ == views[i as int]);
            let row = table.0.0[i];
            proof {
                assert(views.take(i + 1).drop_last() =~= views.take(i as int));
                assert(views.take(i + 1).last() == views[i as int]);
            }
            Self::pad_to(&mut buffer, row.pointer_to_raw_data as usize);
            put_slice(&mut buffer, sec.data.as_slice());
            i += 1;
        }
        assert(views.take(views.len() as int) =~= views);
        Ok(buffer)
    }

    /// The size of the image in memory.
    pub fn output_size(&self) -> (size: usize)
        requires
            self.spec_output_size() <= usize::MAX,
        ensures
            size == self.spec_output_size(),
    {
        let section_alignment =
            self.optional_header.windows_specific_fields.section_alignment() as usize;
        let sections = self.sections.iter_sections();
        let ghost views = self.sections.spec_sections();
        let mut size = self.optional_header.windows_specific_fields.size_of_headers() as usize;
        let mut i: usize = 0;
        assert(views.take(0) =~= Seq::<SectionHeapView>::empty());
        proof {
            lemma_sections_size_bound(views, section_alignment as int, 0);
        }
        while i < sections.len()
            invariant
                i <= sections@.len(),
                views == self.sections.spec_sections(),
                sections@.len() == views.len(),
                forall|k: int| 0 <= k < sections@.len() ==> (#[trigger] sections@[k])@ == views[k],
                size == self.optional_header.windows_specific_fields.spec_size_of_headers()
                    + spec_sections_size(views.take(i as int), section_alignment as int),
                section_alignment
                    == self.optional_header.windows_specific_fields.spec_section_alignment(),
                self.spec_output_size() <= usize::MAX,
            decreases sections@.len() - i,
        {
            let heap = sections[i];
            assert(heap@ == views[i as int]);
            proof {
                assert(views.take(i + 1).drop_last() =~= views.take(i as int));
                lemma_sections_size_bound(views, section_alignment as int, i + 1);
            }
            size = size + align_up(heap.data.len(), section_alignment);
            i += 1;
        }
        assert(views.take(views.len() as int) =~= views);
        size
    }
}

} // verus!
