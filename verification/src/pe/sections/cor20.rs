//! The CLR runtime header of an image that holds managed code.
use crate::error::PerwError;
use crate::io::{get_u16, get_u32, u16_at, u32_at, Reader};
use crate::pe::optional_header::data_directories::ImageDataDirectory;
use vstd::bytes::*;
use vstd::prelude::*;
use vstd::slice::slice_subrange;

verus! {

/// The CLR runtime header. In a file a field `cb` stands before these
/// fields and holds the size of the header.
#[derive(Default, Copy, Clone, Debug, PartialEq, Eq)]
pub struct ImageCor20Header {
    /// The major version of the runtime that the image needs.
    pub major_rt_version: u16,
    /// The minor version of the runtime that the image needs.
    pub minor_rt_version: u16,
    /// The address and the size of the metadata.
    pub metadata: ImageDataDirectory,
    /// The attributes of the image.
    pub flags: u32,
    /// The token of the entry point, or its address.
    pub entrypoint_token_or_rva: u32,
    /// The address and the size of the managed resources.
    pub resources: ImageDataDirectory,
    /// The address and the size of the strong name signature.
    pub strong_name_signature: ImageDataDirectory,
    /// The address and the size of the code manager table.
    pub code_manager_table: ImageDataDirectory,
    /// The address and the size of the fixups of the virtual table.
    pub vtable_fixups: ImageDataDirectory,
    /// The address and the size of the jumps of the export address table.
    pub export_address_table_jumps: ImageDataDirectory,
    /// The address and the size of the managed native header.
    pub managed_native_header: ImageDataDirectory,
}

impl ImageCor20Header {
    /// The least size that a header may declare: its own size in bytes.
    pub const MIN_SIZE: u32 = 0x48;

    /// The error for a header that declares less than its own size.
    pub open spec fn bad_size() -> PerwError {
        PerwError::InvalidImageFormat { message: "Invalid IMAGE_COR20_HEADER.cb value" }
    }

    /// The header that the 68 bytes behind the field `cb` stand for.
    pub open spec fn spec_decode(bytes: Seq<u8>) -> Self {
        ImageCor20Header {
            major_rt_version: u16_at(bytes, 0),
            minor_rt_version: u16_at(bytes, 2),
            metadata: ImageDataDirectory::spec_decode(bytes.subrange(4, 12)),
            flags: u32_at(bytes, 12),
            entrypoint_token_or_rva: u32_at(bytes, 16),
            resources: ImageDataDirectory::spec_decode(bytes.subrange(20, 28)),
            strong_name_signature: ImageDataDirectory::spec_decode(bytes.subrange(28, 36)),
            code_manager_table: ImageDataDirectory::spec_decode(bytes.subrange(36, 44)),
            vtable_fixups: ImageDataDirectory::spec_decode(bytes.subrange(44, 52)),
            export_address_table_jumps: ImageDataDirectory::spec_decode(bytes.subrange(52, 60)),
            managed_native_header: ImageDataDirectory::spec_decode(bytes.subrange(60, 68)),
        }
    }

    /// What the bytes of the CLR directory decode to: the size that the
    /// header declares, which must not be below 72, and then the fields.
    pub open spec fn spec_parse(section_data: Seq<u8>) -> Result<Self, PerwError> {
        if section_data.len() < 4 {
            Err(PerwError::NotEnoughDataLeft { attempted_read: 4 })
        } else if u32_at(section_data, 0) < Self::MIN_SIZE {
            Err(Self::bad_size())
        } else if section_data.len() < 72 {
            Err(PerwError::NotEnoughDataLeft { attempted_read: 68 })
        } else {
            Ok(Self::spec_decode(section_data.subrange(4, 72)))
        }
    }

    /// Decodes the CLR runtime header from the bytes of its directory.
    pub fn parse(section_data: &[u8]) -> (r: Result<Self, PerwError>)
        ensures
            match Self::spec_parse(section_data@) {
                Ok(header) => r == Ok::<Self, PerwError>(header),
                Err(e) => r matches Err(got) && got == e,
            },
    {
        let mut reader = section_data;
        let size = reader.read_slice(4)?;
        assert(size@ =~= section_data@.subrange(0, 4));
        let cb = u32_from_le_bytes(size);
        if cb < Self::MIN_SIZE {
            return Err(PerwError::invalid_image_format("Invalid IMAGE_COR20_HEADER.cb value"));
        }
        let bytes = reader.read_slice(68)?;
        assert(bytes@ =~= section_data@.subrange(4, 72));
        Ok(
            ImageCor20Header {
                major_rt_version: get_u16(bytes, 0),
                minor_rt_version: get_u16(bytes, 2),
                metadata: ImageDataDirectory::decode(slice_subrange(bytes, 4, 12)),
                flags: get_u32(bytes, 12),
                entrypoint_token_or_rva: get_u32(bytes, 16),
                resources: ImageDataDirectory::decode(slice_subrange(bytes, 20, 28)),
                strong_name_signature: ImageDataDirectory::decode(slice_subrange(bytes, 28, 36)),
                code_manager_table: ImageDataDirectory::decode(slice_subrange(bytes, 36, 44)),
                vtable_fixups: ImageDataDirectory::decode(slice_subrange(bytes, 44, 52)),
                export_address_table_jumps: ImageDataDirectory::decode(slice_subrange(bytes, 52, 60)),
                managed_native_header: ImageDataDirectory::decode(slice_subrange(bytes, 60, 68)),
            },
        )
    }
}

} // verus!
