//! The parsed image, and the patch that writes its headers back into the
//! buffer that it was parsed from.
pub mod definition;
pub mod image;

use crate::containers::spec_read_n;
use crate::error::PerwError;
use crate::io::{
    lemma_slice_len, spec_write_at, splice, write_at, ReadData, Reader, WriteData,
};
use crate::pe::coff::CoffFileHeader;
use crate::pe::dos::ImageDosHeader;
use crate::pe::optional_header::data_directories::ImageDataDirectory;
use crate::pe::optional_header::OptionalHeader;
use crate::pe::options::{Options, ParseSectionFlags};
use crate::pe::sections::base_relocation::BaseRelocationDataDitectory;
use crate::pe::sections::certificate::CertificateDataDirectory;
use crate::pe::sections::cor20::ImageCor20Header;
use crate::pe::sections::edata::ExportTableDataDirectory;
use crate::pe::sections::idata::ImportTableDataDirectory;
use crate::pe::sections::pdata::ExceptionHandlerDataDirectory;
use crate::pe::sections::rsrc::ResourceDataDirectory;
use crate::pe::sections::{
    spec_directory_data, SectionTable, SectionTableRow, SpecialSections, SpecialSectionsView,
};
use vstd::prelude::*;
use vstd::slice::slice_subrange;

verus! {

/// An image file, parsed: its headers, its section table, and the special
/// sections that the parse was asked for.
#[derive(Debug, Clone, PartialEq, Eq)]
pub struct PEFile {
    pub dos_header: ImageDosHeader,
    pub coff_header: CoffFileHeader,
    /// The optional header. It is absent only where the COFF header gives it
    /// the size 0, as object files do.
    pub optional_header: Option<OptionalHeader>,
    pub section_table: SectionTable,
    pub special_sections: SpecialSections,
}

/// What a parsed image holds, as plain values.
pub struct PEFileView {
    pub dos_header: ImageDosHeader,
    pub coff_header: CoffFileHeader,
    pub optional_header: Option<OptionalHeader>,
    pub section_table: Seq<SectionTableRow>,
    pub special_sections: SpecialSectionsView,
}

impl View for PEFile {
    type V = PEFileView;

    open spec fn view(&self) -> PEFileView {
        PEFileView {
            dos_header: self.dos_header,
            coff_header: self.coff_header,
            optional_header: self.optional_header,
            section_table: self.section_table@,
            special_sections: self.special_sections@,
        }
    }
}

/// The four bytes of the signature: the letters "PE" and two NUL bytes.
pub open spec fn spec_signature() -> Seq<u8> {
    seq![0x50u8, 0x45u8, 0u8, 0u8]
}

impl PEFile {
    /// The size of the signature that stands before the COFF header.
    pub const SIGNATURE_SIZE: usize = 4;

    /// The error for bytes at `e_lfanew` that are not the signature.
    pub open spec fn bad_signature() -> PerwError {
        PerwError::InvalidImageFormat { message: "Bad PE signature." }
    }

    /// The signature that stands before the COFF header.
    pub fn signature() -> (signature: [u8; 4])
        ensures
            signature@ == spec_signature(),
    {
        broadcast use vstd::array::group_array_axioms;

        let signature = [0x50u8, 0x45u8, 0u8, 0u8];
        assert(signature@ =~= spec_signature());
        signature
    }

    /// The optional header that stands in `bytes`, if the COFF header gives
    /// it a size other than 0, and the count of bytes that it takes.
    pub open spec fn spec_read_optional_header(coff_header: CoffFileHeader, bytes: Seq<u8>) -> Result<
        (Option<OptionalHeader>, nat),
        PerwError,
    > {
        if coff_header.size_of_optional_header > 0 {
            match OptionalHeader::spec_read(bytes) {
                Ok((header, taken)) => Ok((Some(header), taken)),
                Err(e) => Err(e),
            }
        } else {
            Ok((None, 0))
        }
    }

    /// What the bytes of a file parse to.
    ///
    /// The DOS header stands at offset 0. Its field `e_lfanew` is the offset
    /// of the signature, which the COFF header follows, then the optional
    /// header if the COFF header gives it a size, then as many rows of the
    /// section table as the COFF header counts. The special sections that
    /// `parse_sections` selects are decoded where there is an optional
    /// header.
    pub open spec fn spec_parse(data: Seq<u8>, parse_sections: ParseSectionFlags) -> Result<
        PEFileView,
        PerwError,
    > {
        match ImageDosHeader::spec_read(data) {
            Err(e) => Err(e),
            Ok((dos_header, _)) => {
                let pe_offset = dos_header.e_lfanew as int;
                if data.len() < pe_offset {
                    Err(PerwError::NotEnoughDataLeft { attempted_read: pe_offset as usize })
                } else if data.len() < pe_offset + 4 {
                    Err(PerwError::NotEnoughDataLeft { attempted_read: 4 })
                } else if data.subrange(pe_offset, pe_offset + 4) != spec_signature() {
                    Err(Self::bad_signature())
                } else {
                    match CoffFileHeader::spec_read(data.skip(pe_offset + 4)) {
                        Err(e) => Err(e),
                        Ok((coff_header, _)) => match Self::spec_read_optional_header(
                            coff_header,
                            data.skip(pe_offset + 24),
                        ) {
                            Err(e) => Err(e),
                            Ok((optional_header, taken)) => match spec_read_n::<SectionTableRow>(
                                data.skip(pe_offset + 24 + taken),
                                coff_header.number_of_sections as nat,
                            ) {
                                Err(e) => Err(e),
                                Ok((section_table, _)) => match (match optional_header {
                                    Some(header) => SpecialSections::spec_parse(
                                        data,
                                        coff_header,
                                        header,
                                        section_table,
                                        parse_sections,
                                    ),
                                    None => Ok(SpecialSections::spec_empty()),
                                }) {
                                    Err(e) => Err(e),
                                    Ok(special_sections) => Ok(
                                        PEFileView {
                                            dos_header,
                                            coff_header,
                                            optional_header,
                                            section_table,
                                            special_sections,
                                        },
                                    ),
                                },
                            },
                        },
                    }
                }
            },
        }
    }

    /// Parses a file and decodes every special section.
    pub fn parse(data: &[u8]) -> (r: Result<Self, PerwError>)
        ensures
            match Self::spec_parse(data@, ParseSectionFlags { bits: ParseSectionFlags::ALL }) {
                Ok(file) => r matches Ok(got) && got@ == file,
                Err(e) => r matches Err(got) && got == e,
            },
    {
        Self::parse_with_options(data, Options::default())
    }

    /// Parses a file and decodes every special section.
    pub fn from_bytes(data: &[u8]) -> (r: Result<Self, PerwError>)
        ensures
            match Self::spec_parse(data@, ParseSectionFlags { bits: ParseSectionFlags::ALL }) {
                Ok(file) => r matches Ok(got) && got@ == file,
                Err(e) => r matches Err(got) && got == e,
            },
    {
        Self::parse_with_options(data, Options::default())
    }

    /// Parses the headers and the section table of a file, and no special
    /// section.
    pub fn parse_minimal(data: &[u8]) -> (r: Result<Self, PerwError>)
        ensures
            match Self::spec_parse(data@, ParseSectionFlags { bits: ParseSectionFlags::NONE }) {
                Ok(file) => r matches Ok(got) && got@ == file,
                Err(e) => r matches Err(got) && got == e,
            },
    {
        Self::parse_with_options(data, Options::minimal())
    }

    /// Parses a file and decodes the special sections that the options
    /// select.
    pub fn parse_with_options(data: &[u8], parse_options: Options) -> (r: Result<Self, PerwError>)
        ensures
            match Self::spec_parse(data@, parse_options.parse_special_sections) {
                Ok(file) => r matches Ok(got) && got@ == file,
                Err(e) => r matches Err(got) && got == e,
            },
    {
        broadcast use vstd::array::group_array_axioms;

        let mut header_reader = data;
        let dos_header = ImageDosHeader::read(&mut header_reader)?;
        let pe_offset = dos_header.e_lfanew as usize;
        if data.len() < pe_offset {
            return Err(PerwError::not_enough_data(pe_offset));
        }
        let mut read_ptr = slice_subrange(data, pe_offset, data.len());
        assert(read_ptr@ =~= data@.skip(pe_offset as int));
        let signature = read_ptr.read_slice(Self::SIGNATURE_SIZE)?;
        assert(signature@ =~= data@.subrange(pe_offset as int, pe_offset + 4));
        assert(read_ptr@ =~= data@.skip(pe_offset + 4));
        let expected = Self::signature();
        if signature[0] != expected[0] || signature[1] != expected[1] || signature[2]
            != expected[2] || signature[3] != expected[3] {
            return Err(PerwError::invalid_image_format("Bad PE signature."));
        }
        assert(signature@ =~= spec_signature());
        let coff_header = CoffFileHeader::read(&mut read_ptr)?;
        assert(read_ptr@ =~= data@.skip(pe_offset + 24));
        let ghost before_optional = read_ptr@;
        let optional_header = if coff_header.size_of_optional_header > 0 {
            Some(OptionalHeader::read(&mut read_ptr)?)
        } else {
            assert(read_ptr@ =~= before_optional.skip(0));
            None
        };
        let ghost taken = Self::spec_read_optional_header(coff_header, before_optional)->Ok_0.1;
        assert(read_ptr@ =~= data@.skip(pe_offset + 24 + taken));
        let section_table = SectionTable::new_linear(
            &mut read_ptr,
            coff_header.number_of_sections as usize,
        )?;
        let special_sections = match &optional_header {
            Some(optional_header) => SpecialSections::parse(
                data,
                &coff_header,
                optional_header,
                &section_table,
                parse_options.parse_special_sections,
            )?,
            None => SpecialSections::empty(),
        };
        Ok(Self { dos_header, coff_header, optional_header, section_table, special_sections })
    }

    /// What a patch with these headers makes of `buffer`: the DOS header is
    /// laid over offset 0, the signature over offset `e_lfanew`, then the
    /// COFF header and, if there is one, the optional header. Nothing else
    /// changes, and the length stays.
    pub open spec fn spec_patch(
        dos_header: ImageDosHeader,
        coff_header: CoffFileHeader,
        optional_header: Option<OptionalHeader>,
        buffer: Seq<u8>,
    ) -> Result<Seq<u8>, PerwError> {
        let at = dos_header.e_lfanew as int;
        match spec_write_at(buffer, 0, dos_header.spec_encode()) {
            Err(e) => Err(e),
            Ok(first) => match spec_write_at(first, at, spec_signature()) {
                Err(e) => Err(e),
                Ok(second) => match spec_write_at(second, at + 4, coff_header.spec_encode()) {
                    Err(e) => Err(e),
                    Ok(third) => match optional_header {
                        None => Ok(third),
                        Some(header) => match header.spec_write() {
                            Err(e) => Err(e),
                            Ok(bytes) => spec_write_at(third, at + 24, bytes),
                        },
                    },
                },
            },
        }
    }

    /// Writes the headers as they are now back into the buffer that the
    /// image was parsed from, at the offsets at which they were read. No
    /// address, no directory content and no row of the section table is
    /// computed anew, and nothing checks that the file stays consistent.
    /// After an error the buffer is unspecified.
    pub fn patch(&self, buffer: &mut [u8]) -> (r: Result<(), PerwError>)
        ensures
            final(buffer)@.len() == old(buffer)@.len(),
            match Self::spec_patch(
                self.dos_header,
                self.coff_header,
                self.optional_header,
                old(buffer)@,
            ) {
                Ok(bytes) => r is Ok && final(buffer)@ == bytes,
                Err(e) => r matches Err(got) && got == e,
            },
    {
        let dos = match self.dos_header.to_bytes() {
            Ok(bytes) => bytes,
            Err(e) => {
                return Err(e);
            },
        };
        proof {
            lemma_slice_len(buffer);
        }
        write_at(buffer, 0, dos.as_slice())?;
        let at = self.dos_header.e_lfanew as usize;
        let signature = Self::signature();
        write_at(buffer, at, signature.as_slice())?;
        let coff = match self.coff_header.to_bytes() {
            Ok(bytes) => bytes,
            Err(e) => {
                return Err(e);
            },
        };
        if at > usize::MAX - 4 {
            return Err(PerwError::not_enough_space(coff.len()));
        }
        write_at(buffer, at + 4, coff.as_slice())?;
        if let Some(optional_header) = &self.optional_header {
            let optional = optional_header.to_bytes()?;
            if at > usize::MAX - 24 {
                return Err(PerwError::not_enough_space(optional.len()));
            }
            write_at(buffer, at + 24, optional.as_slice())?;
        }
        Ok(())
    }

    /// Bytes that are laid over a buffer where it holds the same bytes leave
    /// the buffer as it is.
    pub proof fn lemma_put_same(buffer: Seq<u8>, at: int, bytes: Seq<u8>)
        requires
            0 <= at,
            at + bytes.len() <= buffer.len(),
            buffer.subrange(at, at + bytes.len()) == bytes,
        ensures
            spec_write_at(buffer, at, bytes) == Ok::<Seq<u8>, PerwError>(buffer),
    {
        assert(splice(buffer, at, bytes) =~= buffer);
    }

    /// A patch with the headers that were parsed from a buffer, none of them
    /// changed, leaves the buffer as it is. So a parse of the patched buffer
    /// gives what the first parse gave.
    pub proof fn lemma_patch_unchanged(data: Seq<u8>, parse_sections: ParseSectionFlags)
        requires
            Self::spec_parse(data, parse_sections) is Ok,
        ensures
            ({
                let file = Self::spec_parse(data, parse_sections)->Ok_0;
                let patched = Self::spec_patch(
                    file.dos_header,
                    file.coff_header,
                    file.optional_header,
                    data,
                );
                &&& patched == Ok::<Seq<u8>, PerwError>(data)
                &&& Self::spec_parse(patched->Ok_0, parse_sections) == Self::spec_parse(
                    data,
                    parse_sections,
                )
            }),
    {
        let file = Self::spec_parse(data, parse_sections)->Ok_0;
        let at = file.dos_header.e_lfanew as int;
        ImageDosHeader::lemma_read_write(data.take(64));
        assert(data.subrange(0, 64) =~= data.take(64));
        Self::lemma_put_same(data, 0, file.dos_header.spec_encode());
        Self::lemma_put_same(data, at, spec_signature());
        let coff = data.skip(at + 4).take(20);
        CoffFileHeader::lemma_read_write(coff);
        assert(data.subrange(at + 4, at + 24) =~= coff);
        Self::lemma_put_same(data, at + 4, file.coff_header.spec_encode());
        if file.optional_header is Some {
            let rest = data.skip(at + 24);
            OptionalHeader::lemma_read_write(rest);
            let taken = OptionalHeader::spec_read(rest)->Ok_0.1 as int;
            assert(data.subrange(at + 24, at + 24 + taken) =~= rest.take(taken));
            Self::lemma_put_same(data, at + 24, rest.take(taken));
        }
    }

    /// The bytes of `file` that the directory `which` of the optional
    /// header points to, or nothing where the image has no optional header.
    pub open spec fn spec_section_data(
        &self,
        file: Seq<u8>,
        which: spec_fn(OptionalHeader) -> ImageDataDirectory,
    ) -> Result<Option<Seq<u8>>, PerwError> {
        match self.optional_header {
            Some(header) => spec_directory_data(self.section_table@, file, which(header)),
            None => Ok(None),
        }
    }

    /// Decodes the export data of the image from the bytes of its file.
    pub fn read_export_table(&self, file_bytes: &[u8]) -> (r: Result<
        Option<ExportTableDataDirectory>,
        PerwError,
    >)
        ensures
            match self.optional_header {
                None => r matches Ok(None),
                Some(header) => match SpecialSections::spec_export_table(
                    file_bytes@,
                    self.section_table@,
                    header,
                ) {
                    Ok(Some(table)) => r matches Ok(Some(got)) && got@ == table,
                    Ok(None) => r matches Ok(None),
                    Err(e) => r matches Err(got) && got == e,
                },
            },
    {
        match &self.optional_header {
            None => Ok(None),
            Some(optional_header) => {
                let mut sections = SpecialSections::empty();
                sections.parse_export_table(file_bytes, &self.section_table, optional_header)?;
                Ok(sections.export_table)
            },
        }
    }

    /// Decodes the import data of the image from the bytes of its file.
    pub fn read_import_table(&self, file_bytes: &[u8]) -> (r: Result<
        Option<ImportTableDataDirectory>,
        PerwError,
    >)
        ensures
            match self.optional_header {
                None => r matches Ok(None),
                Some(header) => match SpecialSections::spec_import_table(
                    file_bytes@,
                    self.section_table@,
                    header,
                ) {
                    Ok(Some(table)) => r matches Ok(Some(got)) && got@ == table,
                    Ok(None) => r matches Ok(None),
                    Err(e) => r matches Err(got) && got == e,
                },
            },
    {
        match &self.optional_header {
            None => Ok(None),
            Some(optional_header) => {
                let mut sections = SpecialSections::empty();
                sections.parse_import_table(file_bytes, &self.section_table, optional_header)?;
                Ok(sections.import_table)
            },
        }
    }

    /// Hands out the resource data of the image from the bytes of its file.
    pub fn read_resource_directory(&self, file_bytes: &[u8]) -> (r: Result<
        Option<ResourceDataDirectory>,
        PerwError,
    >)
        ensures
            match self.spec_section_data(
                file_bytes@,
                |header: OptionalHeader| header.data_directories.resource_table,
            ) {
                Ok(Some(data)) => r matches Ok(Some(got)) && got@ == data,
                Ok(None) => r matches Ok(None),
                Err(e) => r matches Err(got) && got == e,
            },
    {
        match &self.optional_header {
            None => Ok(None),
            Some(optional_header) => {
                match self.section_table.find_data_directory_data(
                    file_bytes,
                    &optional_header.data_directories.resource_table,
                )? {
                    Some(data) => Ok(Some(ResourceDataDirectory::parse(data)?)),
                    None => Ok(None),
                }
            },
        }
    }

    /// Decodes the exception data of the image from the bytes of its file.
    pub fn read_exeption_table(&self, file_bytes: &[u8]) -> (r: Result<
        Option<ExceptionHandlerDataDirectory>,
        PerwError,
    >)
        ensures
            match self.optional_header {
                None => r matches Ok(None),
                Some(header) => match SpecialSections::spec_exception_table(
                    file_bytes@,
                    self.section_table@,
                    header,
                    self.coff_header,
                ) {
                    Ok(table) => r == Ok::<Option<ExceptionHandlerDataDirectory>, PerwError>(table),
                    Err(e) => r matches Err(got) && got == e,
                },
            },
    {
        match &self.optional_header {
            None => Ok(None),
            Some(optional_header) => {
                let mut sections = SpecialSections::empty();
                sections.parse_exception_table(
                    file_bytes,
                    &self.section_table,
                    optional_header,
                    &self.coff_header,
                )?;
                Ok(sections.exception_table)
            },
        }
    }

    /// Decodes the attribute certificates of the image from the bytes of
    /// its file.
    pub fn read_certificate_table(&self, file_bytes: &[u8]) -> (r: Result<
        Option<CertificateDataDirectory>,
        PerwError,
    >)
        ensures
            match self.optional_header {
                None => r matches Ok(None),
                Some(header) => match SpecialSections::spec_certificate_table(
                    file_bytes@,
                    self.section_table@,
                    header,
                ) {
                    Ok(Some(table)) => r matches Ok(Some(got)) && got@ == table,
                    Ok(None) => r matches Ok(None),
                    Err(e) => r matches Err(got) && got == e,
                },
            },
    {
        match &self.optional_header {
            None => Ok(None),
            Some(optional_header) => {
                let mut sections = SpecialSections::empty();
                sections.parse_certificate_table(
                    file_bytes,
                    &self.section_table,
                    optional_header,
                )?;
                Ok(sections.certificate_table)
            },
        }
    }

    /// Decodes the base relocation table of the image from the bytes of its
    /// file.
    pub fn read_base_relocation_table(&self, file_bytes: &[u8]) -> (r: Result<
        Option<BaseRelocationDataDitectory>,
        PerwError,
    >)
        ensures
            match self.spec_section_data(
                file_bytes@,
                |header: OptionalHeader| header.data_directories.base_relocation_table,
            ) {
                Ok(Some(data)) => match BaseRelocationDataDitectory::spec_parse(data) {
                    Ok(table) => r matches Ok(Some(got)) && got@ == table,
                    Err(e) => r matches Err(got) && got == e,
                },
                Ok(None) => r matches Ok(None),
                Err(e) => r matches Err(got) && got == e,
            },
    {
        match &self.optional_header {
            None => Ok(None),
            Some(optional_header) => {
                match self.section_table.find_data_directory_data(
                    file_bytes,
                    &optional_header.data_directories.base_relocation_table,
                )? {
                    Some(data) => Ok(Some(BaseRelocationDataDitectory::parse(data)?)),
                    None => Ok(None),
                }
            },
        }
    }

    /// Decodes the CLR runtime header of the image from the bytes of its
    /// file.
    pub fn read_clr_runtime_header(&self, file_bytes: &[u8]) -> (r: Result<
        Option<ImageCor20Header>,
        PerwError,
    >)
        ensures
            match self.spec_section_data(
                file_bytes@,
                |header: OptionalHeader| header.data_directories.clr_runtime_header,
            ) {
                Ok(Some(data)) => match ImageCor20Header::spec_parse(data) {
                    Ok(header) => r == Ok::<Option<ImageCor20Header>, PerwError>(Some(header)),
                    Err(e) => r matches Err(got) && got == e,
                },
                Ok(None) => r matches Ok(None),
                Err(e) => r matches Err(got) && got == e,
            },
    {
        match &self.optional_header {
            None => Ok(None),
            Some(optional_header) => {
                match self.section_table.find_data_directory_data(
                    file_bytes,
                    &optional_header.data_directories.clr_runtime_header,
                )? {
                    Some(data) => Ok(Some(ImageCor20Header::parse(data)?)),
                    None => Ok(None),
                }
            },
        }
    }
}

} // verus!
