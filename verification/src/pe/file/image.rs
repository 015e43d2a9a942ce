//! An image file that is known to have an optional header.
use super::PEFile;
use crate::error::PerwError;
use crate::pe::coff::CoffFileHeader;
use crate::pe::dos::ImageDosHeader;
use crate::pe::optional_header::OptionalHeader;
use crate::pe::options::{Options, ParseSectionFlags};
use crate::pe::sections::{SectionTable, SectionTableRow, SpecialSections, SpecialSectionsView};
use vstd::prelude::*;

verus! {

/// The same as [`PEFile`], but for the optional header, which an image
/// always has.
#[derive(Debug, Clone, PartialEq, Eq)]
pub struct PEImage {
    pub dos_header: ImageDosHeader,
    pub coff_header: CoffFileHeader,
    pub optional_header: OptionalHeader,
    pub section_table: SectionTable,
    pub special_sections: SpecialSections,
}

/// What a parsed image holds, as plain values.
pub struct PEImageView {
    pub dos_header: ImageDosHeader,
    pub coff_header: CoffFileHeader,
    pub optional_header: OptionalHeader,
    pub section_table: Seq<SectionTableRow>,
    pub special_sections: SpecialSectionsView,
}

impl View for PEImage {
    type V = PEImageView;

    open spec fn view(&self) -> PEImageView {
        PEImageView {
            dos_header: self.dos_header,
            coff_header: self.coff_header,
            optional_header: self.optional_header,
            section_table: self.section_table@,
            special_sections: self.special_sections@,
        }
    }
}

impl PEImage {
    /// The error for a file without an optional header.
    pub open spec fn no_optional_header() -> PerwError {
        PerwError::InvalidImageFormat { message: "An image needs an optional header." }
    }

    /// What the bytes of a file parse to as an image: what they parse to as
    /// a file, which must have an optional header.
    pub open spec fn spec_parse(data: Seq<u8>, parse_sections: ParseSectionFlags) -> Result<
        PEImageView,
        PerwError,
    > {
        match PEFile::spec_parse(data, parse_sections) {
            Err(e) => Err(e),
            Ok(file) => match file.optional_header {
                None => Err(Self::no_optional_header()),
                Some(optional_header) => Ok(
                    PEImageView {
                        dos_header: file.dos_header,
                        coff_header: file.coff_header,
                        optional_header,
                        section_table: file.section_table,
                        special_sections: file.special_sections,
                    },
                ),
            },
        }
    }

    /// Parses an image and decodes every special section.
    pub fn parse(data: &[u8]) -> (r: Result<Self, PerwError>)
        ensures
            match Self::spec_parse(data@, ParseSectionFlags { bits: ParseSectionFlags::ALL }) {
                Ok(image) => r matches Ok(got) && got@ == image,
                Err(e) => r matches Err(got) && got == e,
            },
    {
        Self::parse_with_options(data, Options::default())
    }

    /// Parses an image and decodes the special sections that the options
    /// select.
    pub fn parse_with_options(data: &[u8], parse_options: Options) -> (r: Result<Self, PerwError>)
        ensures
            match Self::spec_parse(data@, parse_options.parse_special_sections) {
                Ok(image) => r matches Ok(got) && got@ == image,
                Err(e) => r matches Err(got) && got == e,
            },
    {
        let file = PEFile::parse_with_options(data, parse_options)?;
        let PEFile { dos_header, coff_header, optional_header, section_table, special_sections } =
            file;
        match optional_header {
            None => Err(PerwError::invalid_image_format("An image needs an optional header.")),
            Some(optional_header) => Ok(
                Self { dos_header, coff_header, optional_header, section_table, special_sections },
            ),
        }
    }
}

} // verus!
