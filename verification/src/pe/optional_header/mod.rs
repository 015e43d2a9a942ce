//! The optional header, which every image file has and which tells the loader
//! how to load it. Its magic number selects one of two shapes.
pub mod data_directories;
mod fields;

pub use fields::{
    ImageDllCharacteristics, ImageSubsystem, OptVariant, OptionalHeaderMagic,
    OptionalHeaderStandardFields, OptionalHeaderWindowsSpecific,
    OptionalHeaderWindowsSpecificFields, Pe32, Pe32Plus,
};

use crate::error::PerwError;
use crate::io::{put_slice, ReadData, Reader, RoundTrip, WriteData};
use data_directories::{DataDirectories, ImageDataDirectory, SectionName};
use vstd::prelude::*;

verus! {

/// The optional header: the standard fields, the fields that Windows adds,
/// and the data directories.
#[derive(Copy, Clone, Debug, PartialEq, Eq)]
pub struct OptionalHeader {
    /// The fields that every implementation of COFF defines.
    pub standard_fields: OptionalHeaderStandardFields,
    /// The fields that the linker and the loader of Windows need.
    pub windows_specific_fields: OptionalHeaderWindowsSpecific,
    /// The data directories. A file holds the first
    /// `number_of_rva_and_sizes` of them, and never more than sixteen.
    pub data_directories: DataDirectories,
}

impl Default for OptionalHeader {
    /// The header of PE32 with every field zero.
    fn default() -> (header: Self)
        ensures
            header == Self::spec_empty(),
    {
        OptionalHeader {
            standard_fields: OptionalHeaderStandardFields {
                magic: OptionalHeaderMagic::PE32,
                major_linker_version: 0,
                minor_linker_version: 0,
                size_of_code: 0,
                size_of_initilized_data: 0,
                size_of_unitilized_data: 0,
                address_of_entry_point: 0,
                base_of_code: 0,
                base_of_data: None,
            },
            windows_specific_fields: OptionalHeaderWindowsSpecific::empty(),
            data_directories: DataDirectories::empty(),
        }
    }
}

impl OptionalHeader {
    /// The header of PE32 with every field zero.
    pub open spec fn spec_empty() -> Self {
        OptionalHeader {
            standard_fields: OptionalHeaderStandardFields {
                magic: OptionalHeaderMagic::PE32,
                major_linker_version: 0,
                minor_linker_version: 0,
                size_of_code: 0,
                size_of_initilized_data: 0,
                size_of_unitilized_data: 0,
                address_of_entry_point: 0,
                base_of_code: 0,
                base_of_data: None,
            },
            windows_specific_fields: OptionalHeaderWindowsSpecific::spec_empty(),
            data_directories: DataDirectories::from_seq(Seq::empty(), 0),
        }
    }

    /// The error for a magic number that names no shape.
    pub open spec fn bad_magic() -> PerwError {
        PerwError::InvalidImageFormat { message: "Bad optional header magic number" }
    }

    /// The error for a magic number that names another shape than the one
    /// that the fields have.
    pub open spec fn mismatch() -> PerwError {
        PerwError::InvalidImageFormat {
            message:
                "Mismatching Optiional Header standard_fields.magic value and windows_specific_fields variant.",
        }
    }

    /// The count of data directories that a file holds for this header:
    /// `number_of_rva_and_sizes`, and never more than sixteen.
    pub open spec fn spec_directory_count(&self) -> int {
        if self.windows_specific_fields.spec_number_of_rva_and_sizes() < 16 {
            self.windows_specific_fields.spec_number_of_rva_and_sizes() as int
        } else {
            16
        }
    }

    /// The size of the header in a file, in bytes.
    pub open spec fn spec_size(&self) -> int {
        (if self.windows_specific_fields is PE32 {
            96int
        } else {
            112int
        }) + 8 * self.spec_directory_count()
    }

    /// The magic number names the shape that the fields have.
    pub open spec fn shape_matches(&self) -> bool {
        ||| self.standard_fields.magic is PE32 && self.windows_specific_fields is PE32
        ||| self.standard_fields.magic is PE32Plus && self.windows_specific_fields is PE32Plus
    }

    /// The header is one that a read can give: the magic number names the
    /// shape, PE32 alone holds `base_of_data`, the subsystem is canonical, and
    /// the directories that a file does not hold are all zero.
    pub open spec fn wf(&self) -> bool {
        &&& self.shape_matches()
        &&& self.standard_fields.wf()
        &&& self.windows_specific_fields.wf()
        &&& forall|i: int|
            self.spec_directory_count() <= i < 16 ==> self.data_directories.as_seq()[i]
                == ImageDataDirectory::null()
    }

    /// The bytes that stand for the header.
    pub open spec fn spec_encode(&self) -> Seq<u8> {
        self.standard_fields.spec_encode() + self.windows_specific_fields.spec_encode()
            + self.data_directories.spec_encode(self.spec_directory_count())
    }

    /// The size of the optional header of PE32 with no data directory.
    pub fn size_pe32() -> (size: usize)
        ensures
            size == 96,
    {
        OptionalHeaderStandardFields::SIZE_PE + OptionalHeaderWindowsSpecificFields::<Pe32>::SIZE
    }

    /// The size of the optional header of PE32+ with no data directory.
    pub fn size_pe32_plus() -> (size: usize)
        ensures
            size == 112,
    {
        OptionalHeaderStandardFields::SIZE_PE_PLUS + OptionalHeaderWindowsSpecificFields::<
            Pe32Plus,
        >::SIZE
    }

    /// The count of data directories that a file holds for this header.
    pub fn directory_count(&self) -> (count: usize)
        ensures
            count == self.spec_directory_count(),
            count <= 16,
    {
        let n = self.windows_specific_fields.number_of_rva_and_sizes();
        if n < 16 {
            n as usize
        } else {
            16
        }
    }

    /// The size of this header in a file, in bytes.
    pub fn size(&self) -> (size: usize)
        ensures
            size == self.spec_size(),
    {
        let base = if self.windows_specific_fields.is_pe32() {
            Self::size_pe32()
        } else {
            Self::size_pe32_plus()
        };
        base + self.directory_count() * ImageDataDirectory::SIZE
    }

    /// The data directory of the given name, if its position is below
    /// `number_of_rva_and_sizes`, that is, if a file holds it.
    pub fn try_get_data_directory(&self, name: SectionName) -> (dir: Option<ImageDataDirectory>)
        ensures
            dir == if name.spec_index()
                < self.windows_specific_fields.spec_number_of_rva_and_sizes() {
                Some(self.data_directories.as_seq()[name.spec_index()])
            } else {
                None
            },
    {
        if name.index() < self.windows_specific_fields.number_of_rva_and_sizes() as usize {
            Some(self.data_directories.get_directory(name))
        } else {
            None
        }
    }
}

impl OptionalHeader {
    /// A header that a file holds with `k` data directories, `k` at most
    /// sixteen, takes exactly `8 * k` bytes for them behind its fixed part,
    /// and its other directories are all zero.
    pub proof fn lemma_directory_count(bytes: Seq<u8>)
        requires
            Self::spec_read(bytes) is Ok,
        ensures
            ({
                let (header, taken) = Self::spec_read(bytes)->Ok_0;
                let k = header.windows_specific_fields.spec_number_of_rva_and_sizes();
                &&& taken == header.spec_size()
                &&& k <= 16 ==> taken == (if header.windows_specific_fields is PE32 {
                    96int
                } else {
                    112int
                }) + 8 * k
                &&& forall|i: int|
                    k <= i < 16 ==> header.data_directories.as_seq()[i]
                        == ImageDataDirectory::null()
            }),
    {
    }

    /// A well formed header that is written and read again is the same
    /// header.
    pub proof fn lemma_write_read(self)
        requires
            self.wf(),
        ensures
            self.spec_encode().len() == self.spec_size(),
            self.spec_write() == Ok::<Seq<u8>, PerwError>(self.spec_encode()),
            Self::spec_read(self.spec_encode()) == Ok::<(Self, nat), PerwError>(
                (self, self.spec_size() as nat),
            ),
    {
        let b = self.spec_encode();
        let s = self.standard_fields.spec_encode();
        let w = self.windows_specific_fields.spec_encode();
        let count = self.spec_directory_count();
        let d = self.data_directories.spec_encode(count);
        self.standard_fields.lemma_write_read();
        self.data_directories.lemma_encode(count);
        match self.windows_specific_fields {
            OptionalHeaderWindowsSpecific::PE32(fields) => {
                fields.lemma_write_read();
            },
            OptionalHeaderWindowsSpecific::PE32Plus(fields) => {
                fields.lemma_write_read();
            },
        }
        let n1 = s.len();
        let n2 = w.len();
        assert(b.take(2) =~= s.take(2));
        assert(b.skip(2).take(n1 - 2) =~= s.skip(2).take(n1 - 2));
        assert(b.skip(n1 as int).take(n2 as int) =~= w);
        assert(w.take(n2 as int) =~= w);
        assert(b.skip((n1 + n2) as int) =~= d);
        assert(d.take(8 * count) =~= d);
        let got = Self::spec_read(b)->Ok_0.0;
        assert(got.data_directories.as_seq() =~= self.data_directories.as_seq());
        DataDirectories::lemma_as_seq_injective(got.data_directories, self.data_directories);
    }

    /// The bytes of a header that are read and written again are the same
    /// bytes, and what was read is well formed.
    pub proof fn lemma_read_write(bytes: Seq<u8>)
        requires
            Self::spec_read(bytes) is Ok,
        ensures
            ({
                let (header, taken) = Self::spec_read(bytes)->Ok_0;
                &&& header.wf()
                &&& taken <= bytes.len()
                &&& header.spec_write() == Ok::<Seq<u8>, PerwError>(bytes.take(taken as int))
            }),
    {
        let (header, taken) = Self::spec_read(bytes)->Ok_0;
        let magic = header.standard_fields.magic;
        OptionalHeaderStandardFields::lemma_read_write(bytes);
        let n1 = 2 + OptionalHeaderStandardFields::spec_rest_size(magic);
        let after = bytes.skip(n1 as int);
        let n2: nat = if magic is PE32 {
            68
        } else {
            88
        };
        match header.windows_specific_fields {
            OptionalHeaderWindowsSpecific::PE32(fields) => {
                OptionalHeaderWindowsSpecificFields::<Pe32>::lemma_read_write(after.take(68));
            },
            OptionalHeaderWindowsSpecific::PE32Plus(fields) => {
                OptionalHeaderWindowsSpecificFields::<Pe32Plus>::lemma_read_write(after.take(88));
            },
        }
        let count = header.spec_directory_count();
        let rest = bytes.skip((n1 + n2) as int);
        DataDirectories::lemma_read_write(rest.take(8 * count), count);
        assert(header.spec_encode() =~= bytes.take(taken as int));
    }
}

impl ReadData for OptionalHeader {
    open spec fn spec_read(bytes: Seq<u8>) -> Result<(Self, nat), PerwError> {
        match OptionalHeaderMagic::spec_read(bytes) {
            Err(e) => Err(e),
            Ok((magic, _)) => if magic is Other {
                Err(Self::bad_magic())
            } else {
                match OptionalHeaderStandardFields::spec_read(bytes) {
                    Err(e) => Err(e),
                    Ok((standard_fields, n1)) => match OptionalHeaderWindowsSpecific::spec_read_as(
                        magic,
                        bytes.skip(n1 as int),
                    ) {
                        Err(e) => Err(e),
                        Ok((windows_specific_fields, n2)) => {
                            let count: int = if windows_specific_fields.spec_number_of_rva_and_sizes()
                                < 16 {
                                windows_specific_fields.spec_number_of_rva_and_sizes() as int
                            } else {
                                16
                            };
                            let rest = bytes.skip((n1 + n2) as int);
                            if rest.len() >= 8 * count {
                                Ok(
                                    (
                                        OptionalHeader {
                                            standard_fields,
                                            windows_specific_fields,
                                            data_directories: DataDirectories::from_seq(
                                                DataDirectories::entries_at(
                                                    rest.take(8 * count),
                                                    count,
                                                ),
                                                count,
                                            ),
                                        },
                                        (n1 + n2 + 8 * count) as nat,
                                    ),
                                )
                            } else {
                                Err(
                                    PerwError::NotEnoughDataLeft {
                                        attempted_read: (8 * count) as usize,
                                    },
                                )
                            }
                        },
                    },
                }
            },
        }
    }

    fn read<'a, R: Reader<'a>>(reader: &mut R) -> (r: Result<Self, PerwError>) {
        let ghost bytes = old(reader).unread();
        let magic = OptionalHeaderMagic::read(reader)?;
        if !magic.is_pe32() && !magic.is_pe32_plus() {
            return Err(PerwError::invalid_image_format("Bad optional header magic number"));
        }
        let standard_fields = OptionalHeaderStandardFields::read_after_magic(reader, magic)?;
        let ghost n1 = 2 + OptionalHeaderStandardFields::spec_rest_size(magic);
        assert(reader.unread() =~= bytes.skip(n1 as int));
        let windows_specific_fields = if magic.is_pe32() {
            OptionalHeaderWindowsSpecific::PE32(OptionalHeaderWindowsSpecificFields::<Pe32>::read(reader)?)
        } else {
            OptionalHeaderWindowsSpecific::PE32Plus(
                OptionalHeaderWindowsSpecificFields::<Pe32Plus>::read(reader)?,
            )
        };
        let ghost n2: nat = if magic is PE32 {
            68
        } else {
            88
        };
        assert(reader.unread() =~= bytes.skip((n1 + n2) as int));
        let n = windows_specific_fields.number_of_rva_and_sizes();
        let count: usize = if n < 16 {
            n as usize
        } else {
            16
        };
        let entries = reader.read_slice(8 * count)?;
        let data_directories = DataDirectories::decode(entries, count);
        assert(reader.unread() =~= bytes.skip((n1 + n2 + 8 * count) as int));
        Ok(OptionalHeader { standard_fields, windows_specific_fields, data_directories })
    }
}

impl WriteData for OptionalHeader {
    open spec fn spec_write(&self) -> Result<Seq<u8>, PerwError> {
        if self.shape_matches() {
            Ok(self.spec_encode())
        } else {
            Err(Self::mismatch())
        }
    }

    fn to_bytes(&self) -> (r: Result<Vec<u8>, PerwError>) {
        let mut out = Vec::new();
        let standard = self.standard_fields.to_bytes()?;
        put_slice(&mut out, standard.as_slice());
        match &self.windows_specific_fields {
            OptionalHeaderWindowsSpecific::PE32(fields) => {
                if !self.standard_fields.magic.is_pe32() {
                    return Err(
                        PerwError::invalid_image_format(
                            "Mismatching Optiional Header standard_fields.magic value and windows_specific_fields variant.",
                        ),
                    );
                }
                let windows = fields.to_bytes()?;
                put_slice(&mut out, windows.as_slice());
            },
            OptionalHeaderWindowsSpecific::PE32Plus(fields) => {
                if !self.standard_fields.magic.is_pe32_plus() {
                    return Err(
                        PerwError::invalid_image_format(
                            "Mismatching Optiional Header standard_fields.magic value and windows_specific_fields variant.",
                        ),
                    );
                }
                let windows = fields.to_bytes()?;
                put_slice(&mut out, windows.as_slice());
            },
        }
        self.data_directories.put(&mut out, self.directory_count());
        assert(out@ =~= self.spec_encode());
        Ok(out)
    }
}


impl RoundTrip for OptionalHeader {
    open spec fn spec_canonical(&self) -> bool {
        self.wf()
    }

    proof fn lemma_round_trip(&self) {
        OptionalHeader::lemma_write_read(*self);
    }
}

} // verus!
