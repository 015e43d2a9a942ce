//! The data directories of the optional header: sixteen named slots, each
//! the address and the size of a table that the loader uses.
use crate::error::PerwError;
use crate::io::{
    fixed_read, get_u32, le32, put_u32, u32_at, ReadData, Reader, RoundTrip, WriteData,
};
use vstd::bytes::*;
use vstd::prelude::*;
use vstd::slice::slice_subrange;

verus! {

/// The names of the data directories, in the order in which a file holds them.
#[derive(Copy, Clone, Debug, PartialEq, Eq)]
pub enum SectionName {
    ExportTable,
    ImportTable,
    ResourceTable,
    ExceptionTable,
    CertificateTable,
    BaseRelocationTable,
    Debug,
    Architecture,
    GlobalPtr,
    TlsTable,
    LoadConfigTable,
    BoundImport,
    Ita,
    DelayImportDescriptor,
    ClrRuntimeHeader,
    Reserved,
}

impl SectionName {
    /// The number of names.
    pub const COUNT: usize = 16;

    /// The position of the directory in a file.
    pub open spec fn spec_index(&self) -> int {
        match self {
            SectionName::ExportTable => 0,
            SectionName::ImportTable => 1,
            SectionName::ResourceTable => 2,
            SectionName::ExceptionTable => 3,
            SectionName::CertificateTable => 4,
            SectionName::BaseRelocationTable => 5,
            SectionName::Debug => 6,
            SectionName::Architecture => 7,
            SectionName::GlobalPtr => 8,
            SectionName::TlsTable => 9,
            SectionName::LoadConfigTable => 10,
            SectionName::BoundImport => 11,
            SectionName::Ita => 12,
            SectionName::DelayImportDescriptor => 13,
            SectionName::ClrRuntimeHeader => 14,
            SectionName::Reserved => 15,
        }
    }

    /// The position of the directory in a file.
    pub fn index(&self) -> (i: usize)
        ensures
            i == self.spec_index(),
            i < 16,
    {
        match self {
            SectionName::ExportTable => 0,
            SectionName::ImportTable => 1,
            SectionName::ResourceTable => 2,
            SectionName::ExceptionTable => 3,
            SectionName::CertificateTable => 4,
            SectionName::BaseRelocationTable => 5,
            SectionName::Debug => 6,
            SectionName::Architecture => 7,
            SectionName::GlobalPtr => 8,
            SectionName::TlsTable => 9,
            SectionName::LoadConfigTable => 10,
            SectionName::BoundImport => 11,
            SectionName::Ita => 12,
            SectionName::DelayImportDescriptor => 13,
            SectionName::ClrRuntimeHeader => 14,
            SectionName::Reserved => 15,
        }
    }

    /// The name of the directory at position `i`.
    pub fn from_index(i: usize) -> (name: Option<Self>)
        ensures
            i < 16 ==> name is Some && name->0.spec_index() == i,
            i >= 16 ==> name is None,
    {
        match i {
            0 => Some(SectionName::ExportTable),
            1 => Some(SectionName::ImportTable),
            2 => Some(SectionName::ResourceTable),
            3 => Some(SectionName::ExceptionTable),
            4 => Some(SectionName::CertificateTable),
            5 => Some(SectionName::BaseRelocationTable),
            6 => Some(SectionName::Debug),
            7 => Some(SectionName::Architecture),
            8 => Some(SectionName::GlobalPtr),
            9 => Some(SectionName::TlsTable),
            10 => Some(SectionName::LoadConfigTable),
            11 => Some(SectionName::BoundImport),
            12 => Some(SectionName::Ita),
            13 => Some(SectionName::DelayImportDescriptor),
            14 => Some(SectionName::ClrRuntimeHeader),
            15 => Some(SectionName::Reserved),
            _ => None,
        }
    }
}

/// The address and the size of one table that the loader uses.
#[derive(Default, Copy, Clone, Debug, PartialEq, Eq)]
pub struct ImageDataDirectory {
    /// The address of the table relative to the image base.
    pub virtual_address: u32,
    /// Size in bytes.
    pub size: u32,
}

impl ImageDataDirectory {
    /// The size of a directory entry in bytes.
    pub const SIZE: usize = 8;

    /// The directory of a table that is absent.
    pub open spec fn null() -> Self {
        ImageDataDirectory { virtual_address: 0, size: 0 }
    }

    /// The entry that 8 bytes stand for.
    pub open spec fn spec_decode(bytes: Seq<u8>) -> Self {
        ImageDataDirectory { virtual_address: u32_at(bytes, 0), size: u32_at(bytes, 4) }
    }

    /// The 8 bytes that stand for the entry.
    pub open spec fn spec_encode(&self) -> Seq<u8> {
        le32(self.virtual_address) + le32(self.size)
    }

    /// The entry with address 0 and size 0.
    pub fn empty() -> (dir: Self)
        ensures
            dir == Self::null(),
    {
        ImageDataDirectory { virtual_address: 0, size: 0 }
    }

    /// Whether the entry is all zero, which says that the table is absent.
    pub fn is_null(&self) -> (b: bool)
        ensures
            b == (*self == Self::null()),
    {
        self.virtual_address == 0 && self.size == 0
    }

    /// Decodes an entry from exactly 8 bytes.
    pub(crate) fn decode(bytes: &[u8]) -> (dir: Self)
        requires
            bytes@.len() == Self::SIZE,
        ensures
            dir == Self::spec_decode(bytes@),
    {
        ImageDataDirectory { virtual_address: get_u32(bytes, 0), size: get_u32(bytes, 4) }
    }

    /// Appends the 8 bytes of the entry.
    pub fn put(&self, out: &mut Vec<u8>)
        ensures
            final(out)@ == old(out)@ + self.spec_encode(),
    {
        put_u32(out, self.virtual_address);
        put_u32(out, self.size);
        assert(out@ =~= old(out)@ + self.spec_encode());
    }

    /// An entry that is written and read again is the same entry, and its
    /// encoding has exactly 8 bytes.
    pub proof fn lemma_write_read(self)
        ensures
            self.spec_encode().len() == Self::SIZE,
            Self::spec_decode(self.spec_encode()) == self,
            Self::spec_read(self.spec_encode()) == Ok::<(Self, nat), PerwError>((self, 8)),
    {
        lemma_auto_spec_u32_to_from_le_bytes();
        let b = self.spec_encode();
        assert(b.subrange(0, 4) =~= le32(self.virtual_address));
        assert(b.subrange(4, 8) =~= le32(self.size));
        assert(b.take(8) =~= b);
    }

    /// Eight bytes that are read and written again are the same bytes.
    pub proof fn lemma_read_write(bytes: Seq<u8>)
        requires
            bytes.len() == Self::SIZE,
        ensures
            Self::spec_decode(bytes).spec_encode() == bytes,
    {
        lemma_auto_spec_u32_to_from_le_bytes();
        assert(Self::spec_decode(bytes).spec_encode() =~= bytes.subrange(0, 4) + bytes.subrange(
            4,
            8,
        ));
        assert(bytes.subrange(0, 4) + bytes.subrange(4, 8) =~= bytes);
    }
}

impl ReadData for ImageDataDirectory {
    open spec fn spec_read(bytes: Seq<u8>) -> Result<(Self, nat), PerwError> {
        fixed_read(bytes, 8, Self::spec_decode(bytes.take(8)))
    }

    fn read<'a, R: Reader<'a>>(reader: &mut R) -> (r: Result<Self, PerwError>) {
        let bytes = reader.read_slice(Self::SIZE)?;
        Ok(Self::decode(bytes))
    }
}

impl WriteData for ImageDataDirectory {
    open spec fn spec_write(&self) -> Result<Seq<u8>, PerwError> {
        Ok(self.spec_encode())
    }

    fn to_bytes(&self) -> (r: Result<Vec<u8>, PerwError>) {
        let mut out = Vec::new();
        self.put(&mut out);
        assert(out@ =~= self.spec_encode());
        Ok(out)
    }
}

/// The sixteen data directories. A file holds only the first
/// `number_of_rva_and_sizes` of them; the others are all zero.
#[derive(Default, Copy, Clone, Debug, PartialEq, Eq)]
pub struct DataDirectories {
    /// The export table address and size.
    pub export_table: ImageDataDirectory,
    /// The import table address and size.
    pub import_table: ImageDataDirectory,
    /// The resource table address and size.
    pub resource_table: ImageDataDirectory,
    /// The exception table address and size.
    pub exception_table: ImageDataDirectory,
    /// The attribute certificate table address and size.
    pub certificate_table: ImageDataDirectory,
    /// The base relocation table address and size.
    pub base_relocation_table: ImageDataDirectory,
    /// The debug data starting address and size.
    pub debug: ImageDataDirectory,
    /// Reserved, must be 0.
    pub architecture: ImageDataDirectory,
    /// The RVA of the value to be stored in the global pointer register. The size must be zero.
    pub global_ptr: ImageDataDirectory,
    /// The thread local storage (TLS) table address and size.
    pub tls_table: ImageDataDirectory,
    /// The load configuration table address and size.
    pub load_config_table: ImageDataDirectory,
    /// The bound import table address and size.
    pub bound_import: ImageDataDirectory,
    /// The import address table address and size.
    pub ita: ImageDataDirectory,
    /// The delay import descriptor address and size.
    pub delay_import_descriptor: ImageDataDirectory,
    /// The CLR runtime header address and size.
    pub clr_runtime_header: ImageDataDirectory,
    /// Reserved, must be zero.
    pub reserved: ImageDataDirectory,
}

impl DataDirectories {
    /// The directories in the order in which a file holds them.
    pub open spec fn as_seq(&self) -> Seq<ImageDataDirectory> {
        seq![
            self.export_table,
            self.import_table,
            self.resource_table,
            self.exception_table,
            self.certificate_table,
            self.base_relocation_table,
            self.debug,
            self.architecture,
            self.global_ptr,
            self.tls_table,
            self.load_config_table,
            self.bound_import,
            self.ita,
            self.delay_import_descriptor,
            self.clr_runtime_header,
            self.reserved,
        ]
    }

    /// The directories whose first `count` entries are the items of
    /// `entries` and whose other entries are all zero.
    pub open spec fn from_seq(entries: Seq<ImageDataDirectory>, count: int) -> Self {
        DataDirectories {
            export_table: Self::entry_or_null(entries, 0, count),
            import_table: Self::entry_or_null(entries, 1, count),
            resource_table: Self::entry_or_null(entries, 2, count),
            exception_table: Self::entry_or_null(entries, 3, count),
            certificate_table: Self::entry_or_null(entries, 4, count),
            base_relocation_table: Self::entry_or_null(entries, 5, count),
            debug: Self::entry_or_null(entries, 6, count),
            architecture: Self::entry_or_null(entries, 7, count),
            global_ptr: Self::entry_or_null(entries, 8, count),
            tls_table: Self::entry_or_null(entries, 9, count),
            load_config_table: Self::entry_or_null(entries, 10, count),
            bound_import: Self::entry_or_null(entries, 11, count),
            ita: Self::entry_or_null(entries, 12, count),
            delay_import_descriptor: Self::entry_or_null(entries, 13, count),
            clr_runtime_header: Self::entry_or_null(entries, 14, count),
            reserved: Self::entry_or_null(entries, 15, count),
        }
    }

    /// The item `i` of `entries` where `i` is below `count`, else the all-zero
    /// entry.
    pub open spec fn entry_or_null(
        entries: Seq<ImageDataDirectory>,
        i: int,
        count: int,
    ) -> ImageDataDirectory {
        if i < count {
            entries[i]
        } else {
            ImageDataDirectory::null()
        }
    }

    /// The entries that `8 * count` bytes stand for, in order.
    pub open spec fn entries_at(bytes: Seq<u8>, count: int) -> Seq<ImageDataDirectory> {
        Seq::new(
            count as nat,
            |i: int| ImageDataDirectory::spec_decode(bytes.subrange(8 * i, 8 * i + 8)),
        )
    }

    /// The bytes that stand for the first `count` directories.
    pub open spec fn spec_encode(&self, count: int) -> Seq<u8>
        decreases count,
    {
        if count <= 0 {
            Seq::empty()
        } else {
            self.spec_encode(count - 1) + self.as_seq()[count - 1].spec_encode()
        }
    }

    /// The directories with every entry zero.
    pub fn empty() -> (dirs: Self)
        ensures
            dirs == Self::from_seq(Seq::empty(), 0),
    {
        DataDirectories {
            export_table: ImageDataDirectory::empty(),
            import_table: ImageDataDirectory::empty(),
            resource_table: ImageDataDirectory::empty(),
            exception_table: ImageDataDirectory::empty(),
            certificate_table: ImageDataDirectory::empty(),
            base_relocation_table: ImageDataDirectory::empty(),
            debug: ImageDataDirectory::empty(),
            architecture: ImageDataDirectory::empty(),
            global_ptr: ImageDataDirectory::empty(),
            tls_table: ImageDataDirectory::empty(),
            load_config_table: ImageDataDirectory::empty(),
            bound_import: ImageDataDirectory::empty(),
            ita: ImageDataDirectory::empty(),
            delay_import_descriptor: ImageDataDirectory::empty(),
            clr_runtime_header: ImageDataDirectory::empty(),
            reserved: ImageDataDirectory::empty(),
        }
    }

    /// The directory of the given name.
    pub fn get_directory(&self, name: SectionName) -> (dir: ImageDataDirectory)
        ensures
            dir == self.as_seq()[name.spec_index()],
    {
        match name {
            SectionName::ExportTable => self.export_table,
            SectionName::ImportTable => self.import_table,
            SectionName::ResourceTable => self.resource_table,
            SectionName::ExceptionTable => self.exception_table,
            SectionName::CertificateTable => self.certificate_table,
            SectionName::BaseRelocationTable => self.base_relocation_table,
            SectionName::Debug => self.debug,
            SectionName::Architecture => self.architecture,
            SectionName::GlobalPtr => self.global_ptr,
            SectionName::TlsTable => self.tls_table,
            SectionName::LoadConfigTable => self.load_config_table,
            SectionName::BoundImport => self.bound_import,
            SectionName::Ita => self.ita,
            SectionName::DelayImportDescriptor => self.delay_import_descriptor,
            SectionName::ClrRuntimeHeader => self.clr_runtime_header,
            SectionName::Reserved => self.reserved,
        }
    }

    /// Puts `data` in as the directory of the given name.
    pub fn set_directory(&mut self, name: SectionName, data: ImageDataDirectory)
        ensures
            final(self).as_seq() == old(self).as_seq().update(name.spec_index(), data),
    {
        match name {
            SectionName::ExportTable => self.export_table = data,
            SectionName::ImportTable => self.import_table = data,
            SectionName::ResourceTable => self.resource_table = data,
            SectionName::ExceptionTable => self.exception_table = data,
            SectionName::CertificateTable => self.certificate_table = data,
            SectionName::BaseRelocationTable => self.base_relocation_table = data,
            SectionName::Debug => self.debug = data,
            SectionName::Architecture => self.architecture = data,
            SectionName::GlobalPtr => self.global_ptr = data,
            SectionName::TlsTable => self.tls_table = data,
            SectionName::LoadConfigTable => self.load_config_table = data,
            SectionName::BoundImport => self.bound_import = data,
            SectionName::Ita => self.ita = data,
            SectionName::DelayImportDescriptor => self.delay_import_descriptor = data,
            SectionName::ClrRuntimeHeader => self.clr_runtime_header = data,
            SectionName::Reserved => self.reserved = data,
        }
        assert(self.as_seq() =~= old(self).as_seq().update(name.spec_index(), data));
    }

    /// One more than the position of the last directory that is not all
    /// zero, or 0 where every directory is all zero.
    pub open spec fn spec_used(&self) -> int {
        Self::used_below(self.as_seq(), 16)
    }

    /// One more than the position of the last entry below `limit` that is not
    /// all zero, or 0 where there is none.
    pub open spec fn used_below(entries: Seq<ImageDataDirectory>, limit: int) -> int
        decreases limit,
    {
        if limit <= 0 {
            0
        } else if entries[limit - 1] != ImageDataDirectory::null() {
            limit
        } else {
            Self::used_below(entries, limit - 1)
        }
    }

    /// The count of directories that a file has to hold: one more than the
    /// position of the last directory that is not all zero.
    pub fn used(&self) -> (count: u32)
        ensures
            count == self.spec_used(),
            count <= 16,
    {
        let mut count: u32 = 0;
        let mut i: usize = 0;
        while i < 16
            invariant
                i <= 16,
                count <= i,
                count == Self::used_below(self.as_seq(), i as int),
            decreases 16 - i,
        {
            let name = SectionName::from_index(i).unwrap();
            if !self.get_directory(name).is_null() {
                count = (i + 1) as u32;
            }
            i += 1;
        }
        count
    }

    /// Decodes the first `count` directories from exactly `8 * count` bytes.
    pub(crate) fn decode(bytes: &[u8], count: usize) -> (dirs: Self)
        requires
            count <= 16,
            bytes@.len() == 8 * count,
        ensures
            dirs == Self::from_seq(Self::entries_at(bytes@, count as int), count as int),
    {
        let mut dirs = Self::empty();
        let mut i: usize = 0;
        while i < count
            invariant
                i <= count <= 16,
                bytes@.len() == 8 * count,
                dirs == Self::from_seq(Self::entries_at(bytes@, count as int), i as int),
            decreases count - i,
        {
            let name = SectionName::from_index(i).unwrap();
            let dir = ImageDataDirectory::decode(slice_subrange(bytes, 8 * i, 8 * i + 8));
            dirs.set_directory(name, dir);
            proof {
                let want = Self::from_seq(Self::entries_at(bytes@, count as int), i + 1);
                assert(dirs.as_seq() =~= want.as_seq());
                Self::lemma_as_seq_injective(dirs, want);
            }
            i += 1;
        }
        dirs
    }

    /// Appends the bytes of the first `count` directories.
    pub(crate) fn put(&self, out: &mut Vec<u8>, count: usize)
        requires
            count <= 16,
        ensures
            final(out)@ == old(out)@ + self.spec_encode(count as int),
    {
        let mut i: usize = 0;
        assert(out@ =~= old(out)@ + self.spec_encode(0));
        while i < count
            invariant
                i <= count <= 16,
                out@ == old(out)@ + self.spec_encode(i as int),
            decreases count - i,
        {
            let name = SectionName::from_index(i).unwrap();
            let dir = self.get_directory(name);
            dir.put(out);
            assert(out@ =~= old(out)@ + self.spec_encode(i + 1));
            i += 1;
        }
    }

    /// Directories with the same entries are the same.
    pub proof fn lemma_as_seq_injective(a: Self, b: Self)
        requires
            a.as_seq() == b.as_seq(),
        ensures
            a == b,
    {
        assert(a.as_seq()[0] == b.as_seq()[0]);
        assert(a.as_seq()[1] == b.as_seq()[1]);
        assert(a.as_seq()[2] == b.as_seq()[2]);
        assert(a.as_seq()[3] == b.as_seq()[3]);
        assert(a.as_seq()[4] == b.as_seq()[4]);
        assert(a.as_seq()[5] == b.as_seq()[5]);
        assert(a.as_seq()[6] == b.as_seq()[6]);
        assert(a.as_seq()[7] == b.as_seq()[7]);
        assert(a.as_seq()[8] == b.as_seq()[8]);
        assert(a.as_seq()[9] == b.as_seq()[9]);
        assert(a.as_seq()[10] == b.as_seq()[10]);
        assert(a.as_seq()[11] == b.as_seq()[11]);
        assert(a.as_seq()[12] == b.as_seq()[12]);
        assert(a.as_seq()[13] == b.as_seq()[13]);
        assert(a.as_seq()[14] == b.as_seq()[14]);
        assert(a.as_seq()[15] == b.as_seq()[15]);
    }

    /// The encoding of the first `count` directories has 8 bytes for each,
    /// in order.
    pub proof fn lemma_encode(self, count: int)
        requires
            0 <= count <= 16,
        ensures
            self.spec_encode(count).len() == 8 * count,
            Self::entries_at(self.spec_encode(count), count) == self.as_seq().take(count),
        decreases count,
    {
        if count > 0 {
            self.lemma_encode(count - 1);
            let last = self.as_seq()[count - 1];
            last.lemma_write_read();
            let all = self.spec_encode(count);
            let front = self.spec_encode(count - 1);
            assert forall|i: int| 0 <= i < count implies Self::entries_at(all, count)[i]
                == self.as_seq()[i] by {
                if i < count - 1 {
                    assert(all.subrange(8 * i, 8 * i + 8) =~= front.subrange(8 * i, 8 * i + 8));
                    assert(Self::entries_at(front, count - 1)[i] == self.as_seq().take(
                        count - 1,
                    )[i]);
                } else {
                    assert(all.subrange(8 * i, 8 * i + 8) =~= last.spec_encode());
                }
            }
            assert(Self::entries_at(all, count) =~= self.as_seq().take(count));
        } else {
            assert(Self::entries_at(self.spec_encode(count), count) =~= self.as_seq().take(count));
        }
    }

    /// The bytes of `count` directories that are read and written again are
    /// the same bytes.
    pub proof fn lemma_read_write(bytes: Seq<u8>, count: int)
        requires
            0 <= count <= 16,
            bytes.len() == 8 * count,
        ensures
            Self::from_seq(Self::entries_at(bytes, count), count).spec_encode(count) == bytes,
    {
        Self::lemma_read_write_prefix(bytes, count, count);
        assert(bytes.take(8 * count) =~= bytes);
    }

    proof fn lemma_read_write_prefix(bytes: Seq<u8>, count: int, k: int)
        requires
            0 <= k <= count <= 16,
            bytes.len() == 8 * count,
        ensures
            Self::from_seq(Self::entries_at(bytes, count), count).spec_encode(k) == bytes.take(
                8 * k,
            ),
        decreases k,
    {
        let dirs = Self::from_seq(Self::entries_at(bytes, count), count);
        if k > 0 {
            Self::lemma_read_write_prefix(bytes, count, k - 1);
            ImageDataDirectory::lemma_read_write(bytes.subrange(8 * (k - 1), 8 * (k - 1) + 8));
            assert(dirs.as_seq()[k - 1] == Self::entries_at(bytes, count)[k - 1]);
            assert(dirs.spec_encode(k) =~= bytes.take(8 * k));
        } else {
            assert(dirs.spec_encode(k) =~= bytes.take(8 * k));
        }
    }
}


impl RoundTrip for ImageDataDirectory {
    open spec fn spec_canonical(&self) -> bool {
        true
    }

    proof fn lemma_round_trip(&self) {
        self.lemma_write_read();
    }
}

} // verus!
