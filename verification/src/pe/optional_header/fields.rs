//! The fields of the optional header: the standard fields, which every
//! implementation of COFF defines, and the fields that Windows adds.
use crate::error::PerwError;
use crate::io::{
    fixed_read, get_u16, get_u32, get_u64, le16, le32, le64, put_u16, put_u32, put_u64, put_u8,
    reads_as, u16_at, u32_at, u64_at, ReadData, Reader, RoundTrip, WriteData,
};
use vstd::bytes::*;
use vstd::prelude::*;

verus! {

/// The magic number of the optional header. It tells a PE32 image from a
/// PE32+ image, and so selects the shape of the fields that follow.
#[derive(Default, Copy, Clone, Debug, PartialEq, Eq)]
pub enum OptionalHeaderMagic {
    #[default]
    PE32,
    PE32Plus,
    /// A number that names neither shape
    Other(u16),
}

impl OptionalHeaderMagic {
    /// The size of the magic number in bytes.
    pub const SIZE: usize = 2;

    /// The magic that a number stands for.
    pub open spec fn spec_from_u16(sig: u16) -> Self {
        match sig {
            0x10B => Self::PE32,
            0x20B => Self::PE32Plus,
            n => Self::Other(n),
        }
    }

    /// The number that stands for a magic.
    pub open spec fn spec_to_u16(&self) -> u16 {
        match self {
            Self::PE32 => 0x10B,
            Self::PE32Plus => 0x20B,
            Self::Other(n) => *n,
        }
    }

    /// Neither shape is held as `Other`.
    pub open spec fn is_canonical(&self) -> bool {
        Self::spec_from_u16(self.spec_to_u16()) == *self
    }

    /// The magic that a number stands for.
    #[verifier::when_used_as_spec(spec_from_u16)]
    pub fn from_u16(sig: u16) -> (magic: Self)
        ensures
            magic == Self::spec_from_u16(sig),
            magic.spec_to_u16() == sig,
            magic.is_canonical(),
    {
        match sig {
            0x10B => Self::PE32,
            0x20B => Self::PE32Plus,
            n => Self::Other(n),
        }
    }

    /// The number that stands for the magic.
    #[verifier::when_used_as_spec(spec_to_u16)]
    pub fn to_u16(&self) -> (sig: u16)
        ensures
            sig == self.spec_to_u16(),
    {
        match self {
            Self::PE32 => 0x10B,
            Self::PE32Plus => 0x20B,
            Self::Other(n) => *n,
        }
    }

    /// Whether the magic is that of PE32.
    pub fn is_pe32(&self) -> (b: bool)
        ensures
            b == (*self is PE32),
    {
        match self {
            Self::PE32 => true,
            _ => false,
        }
    }

    /// Whether the magic is that of PE32+.
    pub fn is_pe32_plus(&self) -> (b: bool)
        ensures
            b == (*self is PE32Plus),
    {
        match self {
            Self::PE32Plus => true,
            _ => false,
        }
    }

    /// A canonical magic that is written and read again is the same magic.
    pub proof fn lemma_write_read(self)
        requires
            self.is_canonical(),
        ensures
            Self::spec_read(le16(self.spec_to_u16())) == Ok::<(Self, nat), PerwError>((self, 2)),
    {
        lemma_auto_spec_u16_to_from_le_bytes();
        assert(le16(self.spec_to_u16()).take(2) =~= le16(self.spec_to_u16()));
    }
}

impl ReadData for OptionalHeaderMagic {
    open spec fn spec_read(bytes: Seq<u8>) -> Result<(Self, nat), PerwError> {
        fixed_read(bytes, 2, Self::spec_from_u16(spec_u16_from_le_bytes(bytes.take(2))))
    }

    fn read<'a, R: Reader<'a>>(reader: &mut R) -> (r: Result<Self, PerwError>) {
        let bytes = reader.read_slice(Self::SIZE)?;
        Ok(Self::from_u16(u16_from_le_bytes(bytes)))
    }
}

impl WriteData for OptionalHeaderMagic {
    open spec fn spec_write(&self) -> Result<Seq<u8>, PerwError> {
        Ok(le16(self.spec_to_u16()))
    }

    fn to_bytes(&self) -> (r: Result<Vec<u8>, PerwError>) {
        Ok(u16_to_le_bytes(self.to_u16()))
    }
}

/// The fields that every implementation of COFF defines.
#[derive(Default, Copy, Clone, Debug, PartialEq, Eq)]
pub struct OptionalHeaderStandardFields {
    /// The number that identifies the state of the image file.
    pub magic: OptionalHeaderMagic,
    /// The linker major version number.
    pub major_linker_version: u8,
    /// The linker minor version number.
    pub minor_linker_version: u8,
    /// The size of the code (text) section, or the sum of all code sections.
    pub size_of_code: u32,
    /// The size of the initialized data section, or the sum of all such
    /// sections.
    pub size_of_initilized_data: u32,
    /// The size of the uninitialized data section (BSS), or the sum of all
    /// such sections.
    pub size_of_unitilized_data: u32,
    /// The address of the entry point relative to the image base, or zero
    /// where there is none.
    pub address_of_entry_point: u32,
    /// The address of the beginning-of-code section relative to the image
    /// base.
    pub base_of_code: u32,
    /// The address of the beginning-of-data section relative to the image
    /// base. PE32 has this field, PE32+ has not.
    pub base_of_data: Option<u32>,
}

impl OptionalHeaderStandardFields {
    /// The size of the standard fields of PE32 in bytes.
    pub const SIZE_PE: usize = 28;

    /// The size of the standard fields of PE32+ in bytes.
    pub const SIZE_PE_PLUS: usize = 24;

    /// The count of bytes that follow the magic number.
    pub open spec fn spec_rest_size(magic: OptionalHeaderMagic) -> nat {
        if magic is PE32 {
            26
        } else {
            22
        }
    }

    /// The fields that stand behind `magic` in the bytes `rest`.
    pub open spec fn spec_decode(magic: OptionalHeaderMagic, rest: Seq<u8>) -> Self {
        OptionalHeaderStandardFields {
            magic,
            major_linker_version: rest[0],
            minor_linker_version: rest[1],
            size_of_code: u32_at(rest, 2),
            size_of_initilized_data: u32_at(rest, 6),
            size_of_unitilized_data: u32_at(rest, 10),
            address_of_entry_point: u32_at(rest, 14),
            base_of_code: u32_at(rest, 18),
            base_of_data: if magic is PE32 {
                Some(u32_at(rest, 22))
            } else {
                None
            },
        }
    }

    /// The bytes that stand for the fields: 28 for PE32, where an absent
    /// `base_of_data` is written as zero, and 24 for any other magic.
    pub open spec fn spec_encode(&self) -> Seq<u8> {
        le16(self.magic.spec_to_u16()) + seq![self.major_linker_version] + seq![
            self.minor_linker_version,
        ] + le32(self.size_of_code) + le32(self.size_of_initilized_data) + le32(
            self.size_of_unitilized_data,
        ) + le32(self.address_of_entry_point) + le32(self.base_of_code) + if self.magic is PE32 {
            le32(
                match self.base_of_data {
                    Some(base) => base,
                    None => 0,
                },
            )
        } else {
            Seq::empty()
        }
    }

    /// The fields hold `base_of_data` exactly when the magic is that of PE32,
    /// and the magic is canonical.
    pub open spec fn wf(&self) -> bool {
        &&& self.magic.is_canonical()
        &&& self.base_of_data is Some <==> self.magic is PE32
    }

    /// Reads the fields that follow a magic number that was read before.
    pub fn read_after_magic<'a, R: Reader<'a>>(reader: &mut R, magic: OptionalHeaderMagic) -> (r:
        Result<Self, PerwError>)
        ensures
            reads_as(
                fixed_read(
                    old(reader).unread(),
                    Self::spec_rest_size(magic),
                    Self::spec_decode(
                        magic,
                        old(reader).unread().take(Self::spec_rest_size(magic) as int),
                    ),
                ),
                r,
                old(reader).unread(),
                final(reader).unread(),
            ),
    {
        let pe32 = magic.is_pe32();
        let rest = reader.read_slice(
            if pe32 {
                26
            } else {
                22
            },
        )?;
        Ok(
            OptionalHeaderStandardFields {
                magic,
                major_linker_version: rest[0],
                minor_linker_version: rest[1],
                size_of_code: get_u32(rest, 2),
                size_of_initilized_data: get_u32(rest, 6),
                size_of_unitilized_data: get_u32(rest, 10),
                address_of_entry_point: get_u32(rest, 14),
                base_of_code: get_u32(rest, 18),
                base_of_data: if pe32 {
                    Some(get_u32(rest, 22))
                } else {
                    None
                },
            },
        )
    }

    /// Well formed fields that are written and read again are the same
    /// fields, and their encoding has 28 bytes for PE32 and 24 else.
    pub proof fn lemma_write_read(self)
        requires
            self.wf(),
        ensures
            self.spec_encode().len() == 2 + Self::spec_rest_size(self.magic),
            Self::spec_read(self.spec_encode()) == Ok::<(Self, nat), PerwError>(
                (self, 2 + Self::spec_rest_size(self.magic)),
            ),
    {
        lemma_auto_spec_u16_to_from_le_bytes();
        lemma_auto_spec_u32_to_from_le_bytes();
        let b = self.spec_encode();
        let n = Self::spec_rest_size(self.magic) as int;
        assert(b.take(2) =~= le16(self.magic.spec_to_u16()));
        let rest = b.skip(2).take(n);
        assert(rest.subrange(2, 6) =~= le32(self.size_of_code));
        assert(rest.subrange(6, 10) =~= le32(self.size_of_initilized_data));
        assert(rest.subrange(10, 14) =~= le32(self.size_of_unitilized_data));
        assert(rest.subrange(14, 18) =~= le32(self.address_of_entry_point));
        assert(rest.subrange(18, 22) =~= le32(self.base_of_code));
        if self.magic is PE32 {
            assert(rest.subrange(22, 26) =~= le32(self.base_of_data->0));
        }
    }

    /// The bytes of the fields that are read and written again are the same
    /// bytes.
    pub proof fn lemma_read_write(bytes: Seq<u8>)
        requires
            Self::spec_read(bytes) is Ok,
        ensures
            Self::spec_read(bytes)->Ok_0.0.spec_encode() == bytes.take(
                Self::spec_read(bytes)->Ok_0.1 as int,
            ),
            Self::spec_read(bytes)->Ok_0.0.wf(),
    {
        lemma_auto_spec_u16_to_from_le_bytes();
        lemma_auto_spec_u32_to_from_le_bytes();
        let fields = Self::spec_read(bytes)->Ok_0.0;
        let n = Self::spec_read(bytes)->Ok_0.1 as int;
        let rest = bytes.skip(2).take(n - 2);
        assert(le16(fields.magic.spec_to_u16()) == bytes.take(2));
        if fields.magic is PE32 {
            assert(fields.spec_encode() =~= bytes.take(2) + seq![rest[0]] + seq![rest[1]]
                + rest.subrange(2, 6) + rest.subrange(6, 10) + rest.subrange(10, 14)
                + rest.subrange(14, 18) + rest.subrange(18, 22) + rest.subrange(22, 26));
        } else {
            assert(fields.spec_encode() =~= bytes.take(2) + seq![rest[0]] + seq![rest[1]]
                + rest.subrange(2, 6) + rest.subrange(6, 10) + rest.subrange(10, 14)
                + rest.subrange(14, 18) + rest.subrange(18, 22));
        }
        assert(fields.spec_encode() =~= bytes.take(n));
    }
}

impl ReadData for OptionalHeaderStandardFields {
    open spec fn spec_read(bytes: Seq<u8>) -> Result<(Self, nat), PerwError> {
        match OptionalHeaderMagic::spec_read(bytes) {
            Err(e) => Err(e),
            Ok((magic, _)) => {
                let size = Self::spec_rest_size(magic);
                if bytes.len() >= 2 + size {
                    Ok((Self::spec_decode(magic, bytes.skip(2).take(size as int)), 2 + size))
                } else {
                    Err(PerwError::NotEnoughDataLeft { attempted_read: size as usize })
                }
            },
        }
    }

    fn read<'a, R: Reader<'a>>(reader: &mut R) -> (r: Result<Self, PerwError>) {
        let magic = OptionalHeaderMagic::read(reader)?;
        let r = Self::read_after_magic(reader, magic);
        proof {
            let bytes = old(reader).unread();
            let size = Self::spec_rest_size(magic);
            if bytes.len() >= 2 + size {
                assert(bytes.skip(2).skip(size as int) =~= bytes.skip((2 + size) as int));
            }
        }
        r
    }
}

impl WriteData for OptionalHeaderStandardFields {
    open spec fn spec_write(&self) -> Result<Seq<u8>, PerwError> {
        Ok(self.spec_encode())
    }

    fn to_bytes(&self) -> (r: Result<Vec<u8>, PerwError>) {
        let mut out = Vec::new();
        put_u16(&mut out, self.magic.to_u16());
        put_u8(&mut out, self.major_linker_version);
        put_u8(&mut out, self.minor_linker_version);
        put_u32(&mut out, self.size_of_code);
        put_u32(&mut out, self.size_of_initilized_data);
        put_u32(&mut out, self.size_of_unitilized_data);
        put_u32(&mut out, self.address_of_entry_point);
        put_u32(&mut out, self.base_of_code);
        if self.magic.is_pe32() {
            let base = match self.base_of_data {
                Some(base) => base,
                None => 0,
            };
            put_u32(&mut out, base);
        }
        assert(out@ =~= self.spec_encode());
        Ok(out)
    }
}

/// The Windows subsystem that is required to run an image. The format names
/// the values below; any other number is kept as it is.
#[derive(Default, Debug, Clone, Copy, PartialEq, Eq, PartialOrd, Ord, Hash)]
pub enum ImageSubsystem {
    #[default]
    /// An unknown subsystem
    Unknown,
    /// Device drivers and native Windows processes
    Native,
    /// The Windows graphical user interface (GUI) subsystem
    WindowsGui,
    /// The Windows character subsystem
    WindowsCui,
    /// The OS/2 character subsystem
    Os2Cui,
    /// The Posix character subsystem
    PosixCui,
    /// Native Win9x driver
    NativeWindows,
    /// Windows CE
    WindowsCeGui,
    /// An Extensible Firmware Interface (EFI) application
    EfiApplication,
    /// An EFI driver with boot services
    EbiBootServiceDriver,
    /// An EFI driver with run-time services
    EfiRuntimeDriver,
    /// An EFI ROM image
    EfiRom,
    /// XBOX
    Xbox,
    /// Windows boot application
    WindowsBootApplication,
    /// A subsystem that the format does not name
    Other(u16),
}

impl ImageSubsystem {
    /// The number that stands for a subsystem.
    pub open spec fn spec_to_u16(&self) -> u16 {
        match self {
            Self::Unknown => 0,
            Self::Native => 1,
            Self::WindowsGui => 2,
            Self::WindowsCui => 3,
            Self::Os2Cui => 5,
            Self::PosixCui => 7,
            Self::NativeWindows => 8,
            Self::WindowsCeGui => 9,
            Self::EfiApplication => 10,
            Self::EbiBootServiceDriver => 11,
            Self::EfiRuntimeDriver => 12,
            Self::EfiRom => 13,
            Self::Xbox => 14,
            Self::WindowsBootApplication => 15,
            Self::Other(n) => *n,
        }
    }

    /// The subsystem that a number stands for.
    pub open spec fn spec_from_u16(subsystem: u16) -> Self {
        match subsystem {
            0 => Self::Unknown,
            1 => Self::Native,
            2 => Self::WindowsGui,
            3 => Self::WindowsCui,
            5 => Self::Os2Cui,
            7 => Self::PosixCui,
            8 => Self::NativeWindows,
            9 => Self::WindowsCeGui,
            10 => Self::EfiApplication,
            11 => Self::EbiBootServiceDriver,
            12 => Self::EfiRuntimeDriver,
            13 => Self::EfiRom,
            14 => Self::Xbox,
            15 => Self::WindowsBootApplication,
            n => Self::Other(n),
        }
    }

    /// No named subsystem is held as `Other`.
    pub open spec fn is_canonical(&self) -> bool {
        Self::spec_from_u16(self.spec_to_u16()) == *self
    }

    /// The number that stands for the subsystem.
    #[verifier::when_used_as_spec(spec_to_u16)]
    pub fn to_u16(&self) -> (subsystem: u16)
        ensures
            subsystem == self.spec_to_u16(),
    {
        match self {
            Self::Unknown => 0,
            Self::Native => 1,
            Self::WindowsGui => 2,
            Self::WindowsCui => 3,
            Self::Os2Cui => 5,
            Self::PosixCui => 7,
            Self::NativeWindows => 8,
            Self::WindowsCeGui => 9,
            Self::EfiApplication => 10,
            Self::EbiBootServiceDriver => 11,
            Self::EfiRuntimeDriver => 12,
            Self::EfiRom => 13,
            Self::Xbox => 14,
            Self::WindowsBootApplication => 15,
            Self::Other(n) => *n,
        }
    }

    /// The subsystem that a number stands for.
    #[verifier::when_used_as_spec(spec_from_u16)]
    pub fn from_u16(subsystem: u16) -> (s: Self)
        ensures
            s == Self::spec_from_u16(subsystem),
            s.spec_to_u16() == subsystem,
            s.is_canonical(),
    {
        match subsystem {
            0 => Self::Unknown,
            1 => Self::Native,
            2 => Self::WindowsGui,
            3 => Self::WindowsCui,
            5 => Self::Os2Cui,
            7 => Self::PosixCui,
            8 => Self::NativeWindows,
            9 => Self::WindowsCeGui,
            10 => Self::EfiApplication,
            11 => Self::EbiBootServiceDriver,
            12 => Self::EfiRuntimeDriver,
            13 => Self::EfiRom,
            14 => Self::Xbox,
            15 => Self::WindowsBootApplication,
            n => Self::Other(n),
        }
    }

    /// Every number is the number of the subsystem that it stands for.
    pub proof fn lemma_from_to(subsystem: u16)
        ensures
            Self::spec_from_u16(subsystem).spec_to_u16() == subsystem,
            Self::spec_from_u16(subsystem).is_canonical(),
    {
    }
}

/// The DLL characteristics of an image, one bit each. Bits that the format
/// does not name are kept.
#[derive(Default, Debug, Clone, Copy, PartialEq, Eq, PartialOrd, Ord, Hash)]
pub struct ImageDllCharacteristics {
    pub bits: u16,
}

impl ImageDllCharacteristics {
    /// Reserved, must be zero.
    pub const RESERVED: u16 = 0x000F;

    /// The image can handle a high entropy 64-bit virtual address space.
    pub const HIGH_ENTROPY_VA: u16 = 0x0020;

    /// The DLL can be relocated at load time.
    pub const DYNAMIC_BASE: u16 = 0x0040;

    /// Code integrity checks are enforced.
    pub const FORCE_INTEGRITY: u16 = 0x0080;

    /// The image is NX compatible.
    pub const NX_COMPAT: u16 = 0x0100;

    /// Isolation aware, but do not isolate the image.
    pub const NO_ISOLATION: u16 = 0x0200;

    /// Does not use structured exception handling.
    pub const NO_SEH: u16 = 0x0400;

    /// Do not bind the image.
    pub const NO_BIND: u16 = 0x0800;

    /// The image must execute in an AppContainer.
    pub const APPCONTAINER: u16 = 0x1000;

    /// A WDM driver.
    pub const WDM_DRIVER: u16 = 0x2000;

    /// The image supports Control Flow Guard.
    pub const GUARD_CF: u16 = 0x4000;

    /// Terminal Server aware.
    pub const TERMINAL_SERVER_AWARE: u16 = 0x8000;

    /// The flags with exactly the bits of `bits` set.
    pub fn from_bits_retain(bits: u16) -> (flags: Self)
        ensures
            flags.bits == bits,
    {
        Self { bits }
    }

    /// The bits that are set.
    pub fn bits(&self) -> (bits: u16)
        ensures
            bits == self.bits,
    {
        self.bits
    }

    /// Whether every bit of `flags` is set.
    pub fn contains(&self, flags: u16) -> (all: bool)
        ensures
            all == (self.bits & flags == flags),
    {
        self.bits & flags == flags
    }
}

/// Selects the width of the address-sized fields of the optional header.
pub trait OptVariant {
    type Addr: Copy + core::fmt::Debug + PartialEq + Eq + Default;
}

/// 32-bit addresses, for PE32.
#[derive(Default, Copy, Clone, Debug, PartialEq, Eq)]
pub struct Pe32;

impl OptVariant for Pe32 {
    type Addr = u32;
}

/// 64-bit addresses, for PE32+.
#[derive(Default, Copy, Clone, Debug, PartialEq, Eq)]
pub struct Pe32Plus;

impl OptVariant for Pe32Plus {
    type Addr = u64;
}

/// The 21 fields that Windows adds to the COFF optional header. The linker
/// and the loader need them.
#[derive(Default, Copy, Clone, Debug, PartialEq, Eq)]
pub struct OptionalHeaderWindowsSpecificFields<A: OptVariant> {
    /// The preferred address of the first byte of the image when loaded into
    /// memory; must be a multiple of 64 K.
    pub image_base: A::Addr,
    /// The alignment (in bytes) of sections when they are loaded into memory.
    pub section_alignment: u32,
    /// The alignment factor (in bytes) of the raw data of sections in the image
    /// file.
    pub file_alignment: u32,
    /// The major version number of the required operating system.
    pub major_operating_system_version: u16,
    /// The minor version number of the required operating system.
    pub minor_operating_system_version: u16,
    /// The major version number of the image.
    pub major_image_version: u16,
    /// The minor version number of the image.
    pub minor_image_version: u16,
    /// The major version number of the subsystem.
    pub major_subsystem_version: u16,
    /// The minor version number of the subsystem.
    pub minor_subsystem_version: u16,
    /// Reserved, must be zero.
    pub win32_version_value: u32,
    /// The size (in bytes) of the image, including all headers, as the image is
    /// loaded in memory.
    pub size_of_image: u32,
    /// The combined size of the MS-DOS stub, the PE header and the section
    /// headers, rounded up to a multiple of the file alignment.
    pub size_of_headers: u32,
    /// The image file checksum.
    pub check_sum: u32,
    /// The subsystem that is required to run this image.
    pub subsystem: ImageSubsystem,
    /// The DLL characteristics of the image.
    pub dll_characteristics: ImageDllCharacteristics,
    /// The size of the stack to reserve.
    pub size_of_stack_reserve: A::Addr,
    /// The size of the stack to commit.
    pub size_of_stack_commit: A::Addr,
    /// The size of the local heap space to reserve.
    pub size_of_heap_reserve: A::Addr,
    /// The size of the local heap space to commit.
    pub size_of_heap_commit: A::Addr,
    /// Reserved, must be zero.
    pub loader_flags: u32,
    /// The number of data-directory entries in the remainder of the optional
    /// header.
    pub number_of_rva_and_sizes: u32,
}

impl OptionalHeaderWindowsSpecificFields<Pe32> {
    /// The size of the fields of PE32 in bytes.
    pub const SIZE: usize = 68;

    /// The fields that 68 bytes stand for.
    pub open spec fn spec_decode(bytes: Seq<u8>) -> Self {
        OptionalHeaderWindowsSpecificFields {
            image_base: u32_at(bytes, 0),
            section_alignment: u32_at(bytes, 4),
            file_alignment: u32_at(bytes, 8),
            major_operating_system_version: u16_at(bytes, 12),
            minor_operating_system_version: u16_at(bytes, 14),
            major_image_version: u16_at(bytes, 16),
            minor_image_version: u16_at(bytes, 18),
            major_subsystem_version: u16_at(bytes, 20),
            minor_subsystem_version: u16_at(bytes, 22),
            win32_version_value: u32_at(bytes, 24),
            size_of_image: u32_at(bytes, 28),
            size_of_headers: u32_at(bytes, 32),
            check_sum: u32_at(bytes, 36),
            subsystem: ImageSubsystem::spec_from_u16(u16_at(bytes, 40)),
            dll_characteristics: ImageDllCharacteristics { bits: u16_at(bytes, 42) },
            size_of_stack_reserve: u32_at(bytes, 44),
            size_of_stack_commit: u32_at(bytes, 48),
            size_of_heap_reserve: u32_at(bytes, 52),
            size_of_heap_commit: u32_at(bytes, 56),
            loader_flags: u32_at(bytes, 60),
            number_of_rva_and_sizes: u32_at(bytes, 64),
        }
    }

    /// The 68 bytes that stand for the fields.
    pub open spec fn spec_encode(&self) -> Seq<u8> {
        le32(self.image_base)
            + le32(self.section_alignment)
            + le32(self.file_alignment)
            + le16(self.major_operating_system_version)
            + le16(self.minor_operating_system_version)
            + le16(self.major_image_version)
            + le16(self.minor_image_version)
            + le16(self.major_subsystem_version)
            + le16(self.minor_subsystem_version)
            + le32(self.win32_version_value)
            + le32(self.size_of_image)
            + le32(self.size_of_headers)
            + le32(self.check_sum)
            + le16(self.subsystem.spec_to_u16())
            + le16(self.dll_characteristics.bits)
            + le32(self.size_of_stack_reserve)
            + le32(self.size_of_stack_commit)
            + le32(self.size_of_heap_reserve)
            + le32(self.size_of_heap_commit)
            + le32(self.loader_flags)
            + le32(self.number_of_rva_and_sizes)
    }

    /// Decodes the fields from exactly 68 bytes.
    pub(crate) fn decode(bytes: &[u8]) -> (fields: Self)
        requires
            bytes@.len() == Self::SIZE,
        ensures
            fields == Self::spec_decode(bytes@),
    {
        OptionalHeaderWindowsSpecificFields {
            image_base: get_u32(bytes, 0),
            section_alignment: get_u32(bytes, 4),
            file_alignment: get_u32(bytes, 8),
            major_operating_system_version: get_u16(bytes, 12),
            minor_operating_system_version: get_u16(bytes, 14),
            major_image_version: get_u16(bytes, 16),
            minor_image_version: get_u16(bytes, 18),
            major_subsystem_version: get_u16(bytes, 20),
            minor_subsystem_version: get_u16(bytes, 22),
            win32_version_value: get_u32(bytes, 24),
            size_of_image: get_u32(bytes, 28),
            size_of_headers: get_u32(bytes, 32),
            check_sum: get_u32(bytes, 36),
            subsystem: ImageSubsystem::from_u16(get_u16(bytes, 40)),
            dll_characteristics: ImageDllCharacteristics::from_bits_retain(get_u16(bytes, 42)),
            size_of_stack_reserve: get_u32(bytes, 44),
            size_of_stack_commit: get_u32(bytes, 48),
            size_of_heap_reserve: get_u32(bytes, 52),
            size_of_heap_commit: get_u32(bytes, 56),
            loader_flags: get_u32(bytes, 60),
            number_of_rva_and_sizes: get_u32(bytes, 64),
        }
    }

    /// Fields that are written and read again are the same fields, as long as
    /// the subsystem is canonical, and their encoding has exactly 68 bytes.
    pub proof fn lemma_write_read(self)
        requires
            self.subsystem.is_canonical(),
        ensures
            self.spec_encode().len() == Self::SIZE,
            Self::spec_decode(self.spec_encode()) == self,
            Self::spec_read(self.spec_encode()) == Ok::<(Self, nat), PerwError>((self, 68)),
    {
        lemma_auto_spec_u16_to_from_le_bytes();
        lemma_auto_spec_u32_to_from_le_bytes();
        lemma_auto_spec_u64_to_from_le_bytes();
        let b = self.spec_encode();
        assert(b.len() == 68);
        assert(b.subrange(0, 4) =~= le32(self.image_base));
        assert(b.subrange(4, 8) =~= le32(self.section_alignment));
        assert(b.subrange(8, 12) =~= le32(self.file_alignment));
        assert(b.subrange(12, 14) =~= le16(self.major_operating_system_version));
        assert(b.subrange(14, 16) =~= le16(self.minor_operating_system_version));
        assert(b.subrange(16, 18) =~= le16(self.major_image_version));
        assert(b.subrange(18, 20) =~= le16(self.minor_image_version));
        assert(b.subrange(20, 22) =~= le16(self.major_subsystem_version));
        assert(b.subrange(22, 24) =~= le16(self.minor_subsystem_version));
        assert(b.subrange(24, 28) =~= le32(self.win32_version_value));
        assert(b.subrange(28, 32) =~= le32(self.size_of_image));
        assert(b.subrange(32, 36) =~= le32(self.size_of_headers));
        assert(b.subrange(36, 40) =~= le32(self.check_sum));
        assert(b.subrange(40, 42) =~= le16(self.subsystem.spec_to_u16()));
        assert(b.subrange(42, 44) =~= le16(self.dll_characteristics.bits));
        assert(b.subrange(44, 48) =~= le32(self.size_of_stack_reserve));
        assert(b.subrange(48, 52) =~= le32(self.size_of_stack_commit));
        assert(b.subrange(52, 56) =~= le32(self.size_of_heap_reserve));
        assert(b.subrange(56, 60) =~= le32(self.size_of_heap_commit));
        assert(b.subrange(60, 64) =~= le32(self.loader_flags));
        assert(b.subrange(64, 68) =~= le32(self.number_of_rva_and_sizes));
        assert(b.take(68) =~= b);
    }

    /// The 68 bytes that are read and written again are the same bytes.
    pub proof fn lemma_read_write(bytes: Seq<u8>)
        requires
            bytes.len() == Self::SIZE,
        ensures
            Self::spec_decode(bytes).spec_encode() == bytes,
            Self::spec_decode(bytes).subsystem.is_canonical(),
    {
        lemma_auto_spec_u16_to_from_le_bytes();
        lemma_auto_spec_u32_to_from_le_bytes();
        lemma_auto_spec_u64_to_from_le_bytes();
        let fields = Self::spec_decode(bytes);
        ImageSubsystem::lemma_from_to(u16_at(bytes, 40));
        assert(fields.spec_encode() =~= bytes.subrange(0, 4)
            + bytes.subrange(4, 8)
            + bytes.subrange(8, 12)
            + bytes.subrange(12, 14)
            + bytes.subrange(14, 16)
            + bytes.subrange(16, 18)
            + bytes.subrange(18, 20)
            + bytes.subrange(20, 22)
            + bytes.subrange(22, 24)
            + bytes.subrange(24, 28)
            + bytes.subrange(28, 32)
            + bytes.subrange(32, 36)
            + bytes.subrange(36, 40)
            + bytes.subrange(40, 42)
            + bytes.subrange(42, 44)
            + bytes.subrange(44, 48)
            + bytes.subrange(48, 52)
            + bytes.subrange(52, 56)
            + bytes.subrange(56, 60)
            + bytes.subrange(60, 64)
            + bytes.subrange(64, 68));
        assert(fields.spec_encode() =~= bytes);
    }
}

impl ReadData for OptionalHeaderWindowsSpecificFields<Pe32> {
    open spec fn spec_read(bytes: Seq<u8>) -> Result<(Self, nat), PerwError> {
        fixed_read(bytes, 68, Self::spec_decode(bytes.take(68)))
    }

    fn read<'a, R: Reader<'a>>(reader: &mut R) -> (r: Result<Self, PerwError>) {
        let bytes = reader.read_slice(Self::SIZE)?;
        Ok(Self::decode(bytes))
    }
}

impl WriteData for OptionalHeaderWindowsSpecificFields<Pe32> {
    open spec fn spec_write(&self) -> Result<Seq<u8>, PerwError> {
        Ok(self.spec_encode())
    }

    fn to_bytes(&self) -> (r: Result<Vec<u8>, PerwError>) {
        let mut out = Vec::new();
        put_u32(&mut out, self.image_base);
        put_u32(&mut out, self.section_alignment);
        put_u32(&mut out, self.file_alignment);
        put_u16(&mut out, self.major_operating_system_version);
        put_u16(&mut out, self.minor_operating_system_version);
        put_u16(&mut out, self.major_image_version);
        put_u16(&mut out, self.minor_image_version);
        put_u16(&mut out, self.major_subsystem_version);
        put_u16(&mut out, self.minor_subsystem_version);
        put_u32(&mut out, self.win32_version_value);
        put_u32(&mut out, self.size_of_image);
        put_u32(&mut out, self.size_of_headers);
        put_u32(&mut out, self.check_sum);
        put_u16(&mut out, self.subsystem.to_u16());
        put_u16(&mut out, self.dll_characteristics.bits());
        put_u32(&mut out, self.size_of_stack_reserve);
        put_u32(&mut out, self.size_of_stack_commit);
        put_u32(&mut out, self.size_of_heap_reserve);
        put_u32(&mut out, self.size_of_heap_commit);
        put_u32(&mut out, self.loader_flags);
        put_u32(&mut out, self.number_of_rva_and_sizes);
        assert(out@ =~= self.spec_encode());
        Ok(out)
    }
}

impl OptionalHeaderWindowsSpecificFields<Pe32Plus> {
    /// The size of the fields of PE32+ in bytes.
    pub const SIZE: usize = 88;

    /// The fields that 88 bytes stand for.
    pub open spec fn spec_decode(bytes: Seq<u8>) -> Self {
        OptionalHeaderWindowsSpecificFields {
            image_base: u64_at(bytes, 0),
            section_alignment: u32_at(bytes, 8),
            file_alignment: u32_at(bytes, 12),
            major_operating_system_version: u16_at(bytes, 16),
            minor_operating_system_version: u16_at(bytes, 18),
            major_image_version: u16_at(bytes, 20),
            minor_image_version: u16_at(bytes, 22),
            major_subsystem_version: u16_at(bytes, 24),
            minor_subsystem_version: u16_at(bytes, 26),
            win32_version_value: u32_at(bytes, 28),
            size_of_image: u32_at(bytes, 32),
            size_of_headers: u32_at(bytes, 36),
            check_sum: u32_at(bytes, 40),
            subsystem: ImageSubsystem::spec_from_u16(u16_at(bytes, 44)),
            dll_characteristics: ImageDllCharacteristics { bits: u16_at(bytes, 46) },
            size_of_stack_reserve: u64_at(bytes, 48),
            size_of_stack_commit: u64_at(bytes, 56),
            size_of_heap_reserve: u64_at(bytes, 64),
            size_of_heap_commit: u64_at(bytes, 72),
            loader_flags: u32_at(bytes, 80),
            number_of_rva_and_sizes: u32_at(bytes, 84),
        }
    }

    /// The 88 bytes that stand for the fields.
    pub open spec fn spec_encode(&self) -> Seq<u8> {
        le64(self.image_base)
            + le32(self.section_alignment)
            + le32(self.file_alignment)
            + le16(self.major_operating_system_version)
            + le16(self.minor_operating_system_version)
            + le16(self.major_image_version)
            + le16(self.minor_image_version)
            + le16(self.major_subsystem_version)
            + le16(self.minor_subsystem_version)
            + le32(self.win32_version_value)
            + le32(self.size_of_image)
            + le32(self.size_of_headers)
            + le32(self.check_sum)
            + le16(self.subsystem.spec_to_u16())
            + le16(self.dll_characteristics.bits)
            + le64(self.size_of_stack_reserve)
            + le64(self.size_of_stack_commit)
            + le64(self.size_of_heap_reserve)
            + le64(self.size_of_heap_commit)
            + le32(self.loader_flags)
            + le32(self.number_of_rva_and_sizes)
    }

    /// Decodes the fields from exactly 88 bytes.
    pub(crate) fn decode(bytes: &[u8]) -> (fields: Self)
        requires
            bytes@.len() == Self::SIZE,
        ensures
            fields == Self::spec_decode(bytes@),
    {
        OptionalHeaderWindowsSpecificFields {
            image_base: get_u64(bytes, 0),
            section_alignment: get_u32(bytes, 8),
            file_alignment: get_u32(bytes, 12),
            major_operating_system_version: get_u16(bytes, 16),
            minor_operating_system_version: get_u16(bytes, 18),
            major_image_version: get_u16(bytes, 20),
            minor_image_version: get_u16(bytes, 22),
            major_subsystem_version: get_u16(bytes, 24),
            minor_subsystem_version: get_u16(bytes, 26),
            win32_version_value: get_u32(bytes, 28),
            size_of_image: get_u32(bytes, 32),
            size_of_headers: get_u32(bytes, 36),
            check_sum: get_u32(bytes, 40),
            subsystem: ImageSubsystem::from_u16(get_u16(bytes, 44)),
            dll_characteristics: ImageDllCharacteristics::from_bits_retain(get_u16(bytes, 46)),
            size_of_stack_reserve: get_u64(bytes, 48),
            size_of_stack_commit: get_u64(bytes, 56),
            size_of_heap_reserve: get_u64(bytes, 64),
            size_of_heap_commit: get_u64(bytes, 72),
            loader_flags: get_u32(bytes, 80),
            number_of_rva_and_sizes: get_u32(bytes, 84),
        }
    }

    /// Fields that are written and read again are the same fields, as long as
    /// the subsystem is canonical, and their encoding has exactly 88 bytes.
    pub proof fn lemma_write_read(self)
        requires
            self.subsystem.is_canonical(),
        ensures
            self.spec_encode().len() == Self::SIZE,
            Self::spec_decode(self.spec_encode()) == self,
            Self::spec_read(self.spec_encode()) == Ok::<(Self, nat), PerwError>((self, 88)),
    {
        lemma_auto_spec_u16_to_from_le_bytes();
        lemma_auto_spec_u32_to_from_le_bytes();
        lemma_auto_spec_u64_to_from_le_bytes();
        let b = self.spec_encode();
        assert(b.len() == 88);
        assert(b.subrange(0, 8) =~= le64(self.image_base));
        assert(b.subrange(8, 12) =~= le32(self.section_alignment));
        assert(b.subrange(12, 16) =~= le32(self.file_alignment));
        assert(b.subrange(16, 18) =~= le16(self.major_operating_system_version));
        assert(b.subrange(18, 20) =~= le16(self.minor_operating_system_version));
        assert(b.subrange(20, 22) =~= le16(self.major_image_version));
        assert(b.subrange(22, 24) =~= le16(self.minor_image_version));
        assert(b.subrange(24, 26) =~= le16(self.major_subsystem_version));
        assert(b.subrange(26, 28) =~= le16(self.minor_subsystem_version));
        assert(b.subrange(28, 32) =~= le32(self.win32_version_value));
        assert(b.subrange(32, 36) =~= le32(self.size_of_image));
        assert(b.subrange(36, 40) =~= le32(self.size_of_headers));
        assert(b.subrange(40, 44) =~= le32(self.check_sum));
        assert(b.subrange(44, 46) =~= le16(self.subsystem.spec_to_u16()));
        assert(b.subrange(46, 48) =~= le16(self.dll_characteristics.bits));
        assert(b.subrange(48, 56) =~= le64(self.size_of_stack_reserve));
        assert(b.subrange(56, 64) =~= le64(self.size_of_stack_commit));
        assert(b.subrange(64, 72) =~= le64(self.size_of_heap_reserve));
        assert(b.subrange(72, 80) =~= le64(self.size_of_heap_commit));
        assert(b.subrange(80, 84) =~= le32(self.loader_flags));
        assert(b.subrange(84, 88) =~= le32(self.number_of_rva_and_sizes));
        assert(b.take(88) =~= b);
    }

    /// The 88 bytes that are read and written again are the same bytes.
    pub proof fn lemma_read_write(bytes: Seq<u8>)
        requires
            bytes.len() == Self::SIZE,
        ensures
            Self::spec_decode(bytes).spec_encode() == bytes,
            Self::spec_decode(bytes).subsystem.is_canonical(),
    {
        lemma_auto_spec_u16_to_from_le_bytes();
        lemma_auto_spec_u32_to_from_le_bytes();
        lemma_auto_spec_u64_to_from_le_bytes();
        let fields = Self::spec_decode(bytes);
        ImageSubsystem::lemma_from_to(u16_at(bytes, 44));
        assert(fields.spec_encode() =~= bytes.subrange(0, 8)
            + bytes.subrange(8, 12)
            + bytes.subrange(12, 16)
            + bytes.subrange(16, 18)
            + bytes.subrange(18, 20)
            + bytes.subrange(20, 22)
            + bytes.subrange(22, 24)
            + bytes.subrange(24, 26)
            + bytes.subrange(26, 28)
            + bytes.subrange(28, 32)
            + bytes.subrange(32, 36)
            + bytes.subrange(36, 40)
            + bytes.subrange(40, 44)
            + bytes.subrange(44, 46)
            + bytes.subrange(46, 48)
            + bytes.subrange(48, 56)
            + bytes.subrange(56, 64)
            + bytes.subrange(64, 72)
            + bytes.subrange(72, 80)
            + bytes.subrange(80, 84)
            + bytes.subrange(84, 88));
        assert(fields.spec_encode() =~= bytes);
    }
}

impl ReadData for OptionalHeaderWindowsSpecificFields<Pe32Plus> {
    open spec fn spec_read(bytes: Seq<u8>) -> Result<(Self, nat), PerwError> {
        fixed_read(bytes, 88, Self::spec_decode(bytes.take(88)))
    }

    fn read<'a, R: Reader<'a>>(reader: &mut R) -> (r: Result<Self, PerwError>) {
        let bytes = reader.read_slice(Self::SIZE)?;
        Ok(Self::decode(bytes))
    }
}

impl WriteData for OptionalHeaderWindowsSpecificFields<Pe32Plus> {
    open spec fn spec_write(&self) -> Result<Seq<u8>, PerwError> {
        Ok(self.spec_encode())
    }

    fn to_bytes(&self) -> (r: Result<Vec<u8>, PerwError>) {
        let mut out = Vec::new();
        put_u64(&mut out, self.image_base);
        put_u32(&mut out, self.section_alignment);
        put_u32(&mut out, self.file_alignment);
        put_u16(&mut out, self.major_operating_system_version);
        put_u16(&mut out, self.minor_operating_system_version);
        put_u16(&mut out, self.major_image_version);
        put_u16(&mut out, self.minor_image_version);
        put_u16(&mut out, self.major_subsystem_version);
        put_u16(&mut out, self.minor_subsystem_version);
        put_u32(&mut out, self.win32_version_value);
        put_u32(&mut out, self.size_of_image);
        put_u32(&mut out, self.size_of_headers);
        put_u32(&mut out, self.check_sum);
        put_u16(&mut out, self.subsystem.to_u16());
        put_u16(&mut out, self.dll_characteristics.bits());
        put_u64(&mut out, self.size_of_stack_reserve);
        put_u64(&mut out, self.size_of_stack_commit);
        put_u64(&mut out, self.size_of_heap_reserve);
        put_u64(&mut out, self.size_of_heap_commit);
        put_u32(&mut out, self.loader_flags);
        put_u32(&mut out, self.number_of_rva_and_sizes);
        assert(out@ =~= self.spec_encode());
        Ok(out)
    }
}

/// The fields that Windows adds, in the shape of PE32 or of PE32+.
#[derive(Copy, Clone, Debug, PartialEq, Eq)]
pub enum OptionalHeaderWindowsSpecific {
    PE32(OptionalHeaderWindowsSpecificFields<Pe32>),
    PE32Plus(OptionalHeaderWindowsSpecificFields<Pe32Plus>),
}

impl Default for OptionalHeaderWindowsSpecific {
    /// The fields of PE32 with every field zero.
    fn default() -> (fields: Self)
        ensures
            fields == Self::spec_empty(),
    {
        Self::empty()
    }
}

impl OptionalHeaderWindowsSpecific {
    /// The fields of PE32 with every field zero.
    pub open spec fn spec_empty() -> Self {
        Self::PE32(
            OptionalHeaderWindowsSpecificFields {
                image_base: 0,
                section_alignment: 0,
                file_alignment: 0,
                major_operating_system_version: 0,
                minor_operating_system_version: 0,
                major_image_version: 0,
                minor_image_version: 0,
                major_subsystem_version: 0,
                minor_subsystem_version: 0,
                win32_version_value: 0,
                size_of_image: 0,
                size_of_headers: 0,
                check_sum: 0,
                subsystem: ImageSubsystem::Unknown,
                dll_characteristics: ImageDllCharacteristics { bits: 0 },
                size_of_stack_reserve: 0,
                size_of_stack_commit: 0,
                size_of_heap_reserve: 0,
                size_of_heap_commit: 0,
                loader_flags: 0,
                number_of_rva_and_sizes: 0,
            },
        )
    }

    /// The fields of PE32 with every field zero.
    pub fn empty() -> (fields: Self)
        ensures
            fields == Self::spec_empty(),
    {
        Self::PE32(
            OptionalHeaderWindowsSpecificFields {
                image_base: 0,
                section_alignment: 0,
                file_alignment: 0,
                major_operating_system_version: 0,
                minor_operating_system_version: 0,
                major_image_version: 0,
                minor_image_version: 0,
                major_subsystem_version: 0,
                minor_subsystem_version: 0,
                win32_version_value: 0,
                size_of_image: 0,
                size_of_headers: 0,
                check_sum: 0,
                subsystem: ImageSubsystem::Unknown,
                dll_characteristics: ImageDllCharacteristics::from_bits_retain(0),
                size_of_stack_reserve: 0,
                size_of_stack_commit: 0,
                size_of_heap_reserve: 0,
                size_of_heap_commit: 0,
                loader_flags: 0,
                number_of_rva_and_sizes: 0,
            },
        )
    }

    /// The bytes that stand for the fields: 68 for PE32, 88 for PE32+.
    pub open spec fn spec_encode(&self) -> Seq<u8> {
        match self {
            Self::PE32(fields) => fields.spec_encode(),
            Self::PE32Plus(fields) => fields.spec_encode(),
        }
    }

    /// What a read in the shape that `magic` selects gives on `bytes`.
    pub open spec fn spec_read_as(magic: OptionalHeaderMagic, bytes: Seq<u8>) -> Result<
        (Self, nat),
        PerwError,
    > {
        match magic {
            OptionalHeaderMagic::PE32 => match OptionalHeaderWindowsSpecificFields::<
                Pe32,
            >::spec_read(bytes) {
                Ok((fields, n)) => Ok((Self::PE32(fields), n)),
                Err(e) => Err(e),
            },
            OptionalHeaderMagic::PE32Plus => match OptionalHeaderWindowsSpecificFields::<
                Pe32Plus,
            >::spec_read(bytes) {
                Ok((fields, n)) => Ok((Self::PE32Plus(fields), n)),
                Err(e) => Err(e),
            },
            OptionalHeaderMagic::Other(_) => Err(
                PerwError::InvalidImageFormat { message: "Bad optional header magic number" },
            ),
        }
    }

    /// Whether the subsystem is canonical.
    pub open spec fn wf(&self) -> bool {
        self.spec_subsystem().is_canonical()
    }

    /// The fields with the three values that a header fix-up computes put in
    /// and every other field as it is.
    pub open spec fn spec_with_sizes(
        self,
        number_of_rva_and_sizes: u32,
        size_of_headers: u32,
        size_of_image: u32,
    ) -> Self {
        match self {
            Self::PE32(fields) => Self::PE32(
                OptionalHeaderWindowsSpecificFields {
                    number_of_rva_and_sizes,
                    size_of_headers,
                    size_of_image,
                    ..fields
                },
            ),
            Self::PE32Plus(fields) => Self::PE32Plus(
                OptionalHeaderWindowsSpecificFields {
                    number_of_rva_and_sizes,
                    size_of_headers,
                    size_of_image,
                    ..fields
                },
            ),
        }
    }

    /// Returns true if the fields have the shape of PE32.
    pub fn is_pe32(&self) -> (b: bool)
        ensures
            b == (*self is PE32),
    {
        match self {
            Self::PE32(_) => true,
            Self::PE32Plus(_) => false,
        }
    }

    /// Returns true if the fields have the shape of PE32+.
    pub fn is_pe32_plus(&self) -> (b: bool)
        ensures
            b == (*self is PE32Plus),
    {
        match self {
            Self::PE32(_) => false,
            Self::PE32Plus(_) => true,
        }
    }

    /// The field `image_base` of either shape.
    pub open spec fn spec_image_base(&self) -> u64 {
        match self {
            Self::PE32(fields) => fields.image_base as u64,
            Self::PE32Plus(fields) => fields.image_base,
        }
    }

    /// Gets `image_base` from either shape.
    #[verifier::when_used_as_spec(spec_image_base)]
    pub fn image_base(&self) -> (value: u64)
        ensures
            value == self.spec_image_base(),
    {
        match self {
            Self::PE32(fields) => fields.image_base as u64,
            Self::PE32Plus(fields) => fields.image_base,
        }
    }

    /// Sets `image_base`. The shape of PE32 keeps the low 32 bits of `value`.
    pub fn set_image_base(&mut self, value: u64)
        ensures
            *final(self) == match *old(self) {
                Self::PE32(fields) => Self::PE32(
                    OptionalHeaderWindowsSpecificFields { image_base: value as u32, ..fields },
                ),
                Self::PE32Plus(fields) => Self::PE32Plus(
                    OptionalHeaderWindowsSpecificFields { image_base: value, ..fields },
                ),
            },
    {
        match self {
            Self::PE32(fields) => fields.image_base = #[verifier::truncate] (value as u32),
            Self::PE32Plus(fields) => fields.image_base = value,
        };
    }

    /// The field `section_alignment` of either shape.
    pub open spec fn spec_section_alignment(&self) -> u32 {
        match self {
            Self::PE32(fields) => fields.section_alignment,
            Self::PE32Plus(fields) => fields.section_alignment,
        }
    }

    /// Gets `section_alignment` from either shape.
    #[verifier::when_used_as_spec(spec_section_alignment)]
    pub fn section_alignment(&self) -> (value: u32)
        ensures
            value == self.spec_section_alignment(),
    {
        match self {
            Self::PE32(fields) => fields.section_alignment,
            Self::PE32Plus(fields) => fields.section_alignment,
        }
    }

    /// Sets `section_alignment` in either shape.
    pub fn set_section_alignment(&mut self, value: u32)
        ensures
            *final(self) == match *old(self) {
                Self::PE32(fields) => Self::PE32(
                    OptionalHeaderWindowsSpecificFields { section_alignment: value, ..fields },
                ),
                Self::PE32Plus(fields) => Self::PE32Plus(
                    OptionalHeaderWindowsSpecificFields { section_alignment: value, ..fields },
                ),
            },
    {
        match self {
            Self::PE32(fields) => fields.section_alignment = value,
            Self::PE32Plus(fields) => fields.section_alignment = value,
        };
    }

    /// The field `file_alignment` of either shape.
    pub open spec fn spec_file_alignment(&self) -> u32 {
        match self {
            Self::PE32(fields) => fields.file_alignment,
            Self::PE32Plus(fields) => fields.file_alignment,
        }
    }

    /// Gets `file_alignment` from either shape.
    #[verifier::when_used_as_spec(spec_file_alignment)]
    pub fn file_alignment(&self) -> (value: u32)
        ensures
            value == self.spec_file_alignment(),
    {
        match self {
            Self::PE32(fields) => fields.file_alignment,
            Self::PE32Plus(fields) => fields.file_alignment,
        }
    }

    /// Sets `file_alignment` in either shape.
    pub fn set_file_alignment(&mut self, value: u32)
        ensures
            *final(self) == match *old(self) {
                Self::PE32(fields) => Self::PE32(
                    OptionalHeaderWindowsSpecificFields { file_alignment: value, ..fields },
                ),
                Self::PE32Plus(fields) => Self::PE32Plus(
                    OptionalHeaderWindowsSpecificFields { file_alignment: value, ..fields },
                ),
            },
    {
        match self {
            Self::PE32(fields) => fields.file_alignment = value,
            Self::PE32Plus(fields) => fields.file_alignment = value,
        };
    }

    /// The field `major_operating_system_version` of either shape.
    pub open spec fn spec_major_operating_system_version(&self) -> u16 {
        match self {
            Self::PE32(fields) => fields.major_operating_system_version,
            Self::PE32Plus(fields) => fields.major_operating_system_version,
        }
    }

    /// Gets `major_operating_system_version` from either shape.
    #[verifier::when_used_as_spec(spec_major_operating_system_version)]
    pub fn major_operating_system_version(&self) -> (value: u16)
        ensures
            value == self.spec_major_operating_system_version(),
    {
        match self {
            Self::PE32(fields) => fields.major_operating_system_version,
            Self::PE32Plus(fields) => fields.major_operating_system_version,
        }
    }

    /// Sets `major_operating_system_version` in either shape.
    pub fn set_major_operating_system_version(&mut self, value: u16)
        ensures
            *final(self) == match *old(self) {
                Self::PE32(fields) => Self::PE32(
                    OptionalHeaderWindowsSpecificFields { major_operating_system_version: value, ..fields },
                ),
                Self::PE32Plus(fields) => Self::PE32Plus(
                    OptionalHeaderWindowsSpecificFields { major_operating_system_version: value, ..fields },
                ),
            },
    {
        match self {
            Self::PE32(fields) => fields.major_operating_system_version = value,
            Self::PE32Plus(fields) => fields.major_operating_system_version = value,
        };
    }

    /// The field `minor_operating_system_version` of either shape.
    pub open spec fn spec_minor_operating_system_version(&self) -> u16 {
        match self {
            Self::PE32(fields) => fields.minor_operating_system_version,
            Self::PE32Plus(fields) => fields.minor_operating_system_version,
        }
    }

    /// Gets `minor_operating_system_version` from either shape.
    #[verifier::when_used_as_spec(spec_minor_operating_system_version)]
    pub fn minor_operating_system_version(&self) -> (value: u16)
        ensures
            value == self.spec_minor_operating_system_version(),
    {
        match self {
            Self::PE32(fields) => fields.minor_operating_system_version,
            Self::PE32Plus(fields) => fields.minor_operating_system_version,
        }
    }

    /// Sets `minor_operating_system_version` in either shape.
    pub fn set_minor_operating_system_version(&mut self, value: u16)
        ensures
            *final(self) == match *old(self) {
                Self::PE32(fields) => Self::PE32(
                    OptionalHeaderWindowsSpecificFields { minor_operating_system_version: value, ..fields },
                ),
                Self::PE32Plus(fields) => Self::PE32Plus(
                    OptionalHeaderWindowsSpecificFields { minor_operating_system_version: value, ..fields },
                ),
            },
    {
        match self {
            Self::PE32(fields) => fields.minor_operating_system_version = value,
            Self::PE32Plus(fields) => fields.minor_operating_system_version = value,
        };
    }

    /// The field `major_image_version` of either shape.
    pub open spec fn spec_major_image_version(&self) -> u16 {
        match self {
            Self::PE32(fields) => fields.major_image_version,
            Self::PE32Plus(fields) => fields.major_image_version,
        }
    }

    /// Gets `major_image_version` from either shape.
    #[verifier::when_used_as_spec(spec_major_image_version)]
    pub fn major_image_version(&self) -> (value: u16)
        ensures
            value == self.spec_major_image_version(),
    {
        match self {
            Self::PE32(fields) => fields.major_image_version,
            Self::PE32Plus(fields) => fields.major_image_version,
        }
    }

    /// Sets `major_image_version` in either shape.
    pub fn set_major_image_version(&mut self, value: u16)
        ensures
            *final(self) == match *old(self) {
                Self::PE32(fields) => Self::PE32(
                    OptionalHeaderWindowsSpecificFields { major_image_version: value, ..fields },
                ),
                Self::PE32Plus(fields) => Self::PE32Plus(
                    OptionalHeaderWindowsSpecificFields { major_image_version: value, ..fields },
                ),
            },
    {
        match self {
            Self::PE32(fields) => fields.major_image_version = value,
            Self::PE32Plus(fields) => fields.major_image_version = value,
        };
    }

    /// The field `minor_image_version` of either shape.
    pub open spec fn spec_minor_image_version(&self) -> u16 {
        match self {
            Self::PE32(fields) => fields.minor_image_version,
            Self::PE32Plus(fields) => fields.minor_image_version,
        }
    }

    /// Gets `minor_image_version` from either shape.
    #[verifier::when_used_as_spec(spec_minor_image_version)]
    pub fn minor_image_version(&self) -> (value: u16)
        ensures
            value == self.spec_minor_image_version(),
    {
        match self {
            Self::PE32(fields) => fields.minor_image_version,
            Self::PE32Plus(fields) => fields.minor_image_version,
        }
    }

    /// Sets `minor_image_version` in either shape.
    pub fn set_minor_image_version(&mut self, value: u16)
        ensures
            *final(self) == match *old(self) {
                Self::PE32(fields) => Self::PE32(
                    OptionalHeaderWindowsSpecificFields { minor_image_version: value, ..fields },
                ),
                Self::PE32Plus(fields) => Self::PE32Plus(
                    OptionalHeaderWindowsSpecificFields { minor_image_version: value, ..fields },
                ),
            },
    {
        match self {
            Self::PE32(fields) => fields.minor_image_version = value,
            Self::PE32Plus(fields) => fields.minor_image_version = value,
        };
    }

    /// The field `major_subsystem_version` of either shape.
    pub open spec fn spec_major_subsystem_version(&self) -> u16 {
        match self {
            Self::PE32(fields) => fields.major_subsystem_version,
            Self::PE32Plus(fields) => fields.major_subsystem_version,
        }
    }

    /// Gets `major_subsystem_version` from either shape.
    #[verifier::when_used_as_spec(spec_major_subsystem_version)]
    pub fn major_subsystem_version(&self) -> (value: u16)
        ensures
            value == self.spec_major_subsystem_version(),
    {
        match self {
            Self::PE32(fields) => fields.major_subsystem_version,
            Self::PE32Plus(fields) => fields.major_subsystem_version,
        }
    }

    /// Sets `major_subsystem_version` in either shape.
    pub fn set_major_subsystem_version(&mut self, value: u16)
        ensures
            *final(self) == match *old(self) {
                Self::PE32(fields) => Self::PE32(
                    OptionalHeaderWindowsSpecificFields { major_subsystem_version: value, ..fields },
                ),
                Self::PE32Plus(fields) => Self::PE32Plus(
                    OptionalHeaderWindowsSpecificFields { major_subsystem_version: value, ..fields },
                ),
            },
    {
        match self {
            Self::PE32(fields) => fields.major_subsystem_version = value,
            Self::PE32Plus(fields) => fields.major_subsystem_version = value,
        };
    }

    /// The field `minor_subsystem_version` of either shape.
    pub open spec fn spec_minor_subsystem_version(&self) -> u16 {
        match self {
            Self::PE32(fields) => fields.minor_subsystem_version,
            Self::PE32Plus(fields) => fields.minor_subsystem_version,
        }
    }

    /// Gets `minor_subsystem_version` from either shape.
    #[verifier::when_used_as_spec(spec_minor_subsystem_version)]
    pub fn minor_subsystem_version(&self) -> (value: u16)
        ensures
            value == self.spec_minor_subsystem_version(),
    {
        match self {
            Self::PE32(fields) => fields.minor_subsystem_version,
            Self::PE32Plus(fields) => fields.minor_subsystem_version,
        }
    }

    /// Sets `minor_subsystem_version` in either shape.
    pub fn set_minor_subsystem_version(&mut self, value: u16)
        ensures
            *final(self) == match *old(self) {
                Self::PE32(fields) => Self::PE32(
                    OptionalHeaderWindowsSpecificFields { minor_subsystem_version: value, ..fields },
                ),
                Self::PE32Plus(fields) => Self::PE32Plus(
                    OptionalHeaderWindowsSpecificFields { minor_subsystem_version: value, ..fields },
                ),
            },
    {
        match self {
            Self::PE32(fields) => fields.minor_subsystem_version = value,
            Self::PE32Plus(fields) => fields.minor_subsystem_version = value,
        };
    }

    /// The field `win32_version_value` of either shape.
    pub open spec fn spec_win32_version_value(&self) -> u32 {
        match self {
            Self::PE32(fields) => fields.win32_version_value,
            Self::PE32Plus(fields) => fields.win32_version_value,
        }
    }

    /// Gets `win32_version_value` from either shape.
    #[verifier::when_used_as_spec(spec_win32_version_value)]
    pub fn win32_version_value(&self) -> (value: u32)
        ensures
            value == self.spec_win32_version_value(),
    {
        match self {
            Self::PE32(fields) => fields.win32_version_value,
            Self::PE32Plus(fields) => fields.win32_version_value,
        }
    }

    /// Sets `win32_version_value` in either shape.
    pub fn set_win32_version_value(&mut self, value: u32)
        ensures
            *final(self) == match *old(self) {
                Self::PE32(fields) => Self::PE32(
                    OptionalHeaderWindowsSpecificFields { win32_version_value: value, ..fields },
                ),
                Self::PE32Plus(fields) => Self::PE32Plus(
                    OptionalHeaderWindowsSpecificFields { win32_version_value: value, ..fields },
                ),
            },
    {
        match self {
            Self::PE32(fields) => fields.win32_version_value = value,
            Self::PE32Plus(fields) => fields.win32_version_value = value,
        };
    }

    /// The field `size_of_image` of either shape.
    pub open spec fn spec_size_of_image(&self) -> u32 {
        match self {
            Self::PE32(fields) => fields.size_of_image,
            Self::PE32Plus(fields) => fields.size_of_image,
        }
    }

    /// Gets `size_of_image` from either shape.
    #[verifier::when_used_as_spec(spec_size_of_image)]
    pub fn size_of_image(&self) -> (value: u32)
        ensures
            value == self.spec_size_of_image(),
    {
        match self {
            Self::PE32(fields) => fields.size_of_image,
            Self::PE32Plus(fields) => fields.size_of_image,
        }
    }

    /// Sets `size_of_image` in either shape.
    pub fn set_size_of_image(&mut self, value: u32)
        ensures
            *final(self) == match *old(self) {
                Self::PE32(fields) => Self::PE32(
                    OptionalHeaderWindowsSpecificFields { size_of_image: value, ..fields },
                ),
                Self::PE32Plus(fields) => Self::PE32Plus(
                    OptionalHeaderWindowsSpecificFields { size_of_image: value, ..fields },
                ),
            },
    {
        match self {
            Self::PE32(fields) => fields.size_of_image = value,
            Self::PE32Plus(fields) => fields.size_of_image = value,
        };
    }

    /// The field `size_of_headers` of either shape.
    pub open spec fn spec_size_of_headers(&self) -> u32 {
        match self {
            Self::PE32(fields) => fields.size_of_headers,
            Self::PE32Plus(fields) => fields.size_of_headers,
        }
    }

    /// Gets `size_of_headers` from either shape.
    #[verifier::when_used_as_spec(spec_size_of_headers)]
    pub fn size_of_headers(&self) -> (value: u32)
        ensures
            value == self.spec_size_of_headers(),
    {
        match self {
            Self::PE32(fields) => fields.size_of_headers,
            Self::PE32Plus(fields) => fields.size_of_headers,
        }
    }

    /// Sets `size_of_headers` in either shape.
    pub fn set_size_of_headers(&mut self, value: u32)
        ensures
            *final(self) == match *old(self) {
                Self::PE32(fields) => Self::PE32(
                    OptionalHeaderWindowsSpecificFields { size_of_headers: value, ..fields },
                ),
                Self::PE32Plus(fields) => Self::PE32Plus(
                    OptionalHeaderWindowsSpecificFields { size_of_headers: value, ..fields },
                ),
            },
    {
        match self {
            Self::PE32(fields) => fields.size_of_headers = value,
            Self::PE32Plus(fields) => fields.size_of_headers = value,
        };
    }

    /// The field `check_sum` of either shape.
    pub open spec fn spec_check_sum(&self) -> u32 {
        match self {
            Self::PE32(fields) => fields.check_sum,
            Self::PE32Plus(fields) => fields.check_sum,
        }
    }

    /// Gets `check_sum` from either shape.
    #[verifier::when_used_as_spec(spec_check_sum)]
    pub fn check_sum(&self) -> (value: u32)
        ensures
            value == self.spec_check_sum(),
    {
        match self {
            Self::PE32(fields) => fields.check_sum,
            Self::PE32Plus(fields) => fields.check_sum,
        }
    }

    /// Sets `check_sum` in either shape.
    pub fn set_check_sum(&mut self, value: u32)
        ensures
            *final(self) == match *old(self) {
                Self::PE32(fields) => Self::PE32(
                    OptionalHeaderWindowsSpecificFields { check_sum: value, ..fields },
                ),
                Self::PE32Plus(fields) => Self::PE32Plus(
                    OptionalHeaderWindowsSpecificFields { check_sum: value, ..fields },
                ),
            },
    {
        match self {
            Self::PE32(fields) => fields.check_sum = value,
            Self::PE32Plus(fields) => fields.check_sum = value,
        };
    }

    /// The field `subsystem` of either shape.
    pub open spec fn spec_subsystem(&self) -> ImageSubsystem {
        match self {
            Self::PE32(fields) => fields.subsystem,
            Self::PE32Plus(fields) => fields.subsystem,
        }
    }

    /// Gets `subsystem` from either shape.
    #[verifier::when_used_as_spec(spec_subsystem)]
    pub fn subsystem(&self) -> (value: ImageSubsystem)
        ensures
            value == self.spec_subsystem(),
    {
        match self {
            Self::PE32(fields) => fields.subsystem,
            Self::PE32Plus(fields) => fields.subsystem,
        }
    }

    /// Sets `subsystem` in either shape.
    pub fn set_subsystem(&mut self, value: ImageSubsystem)
        ensures
            *final(self) == match *old(self) {
                Self::PE32(fields) => Self::PE32(
                    OptionalHeaderWindowsSpecificFields { subsystem: value, ..fields },
                ),
                Self::PE32Plus(fields) => Self::PE32Plus(
                    OptionalHeaderWindowsSpecificFields { subsystem: value, ..fields },
                ),
            },
    {
        match self {
            Self::PE32(fields) => fields.subsystem = value,
            Self::PE32Plus(fields) => fields.subsystem = value,
        };
    }

    /// The field `dll_characteristics` of either shape.
    pub open spec fn spec_dll_characteristics(&self) -> ImageDllCharacteristics {
        match self {
            Self::PE32(fields) => fields.dll_characteristics,
            Self::PE32Plus(fields) => fields.dll_characteristics,
        }
    }

    /// Gets `dll_characteristics` from either shape.
    #[verifier::when_used_as_spec(spec_dll_characteristics)]
    pub fn dll_characteristics(&self) -> (value: ImageDllCharacteristics)
        ensures
            value == self.spec_dll_characteristics(),
    {
        match self {
            Self::PE32(fields) => fields.dll_characteristics,
            Self::PE32Plus(fields) => fields.dll_characteristics,
        }
    }

    /// Sets `dll_characteristics` in either shape.
    pub fn set_dll_characteristics(&mut self, value: ImageDllCharacteristics)
        ensures
            *final(self) == match *old(self) {
                Self::PE32(fields) => Self::PE32(
                    OptionalHeaderWindowsSpecificFields { dll_characteristics: value, ..fields },
                ),
                Self::PE32Plus(fields) => Self::PE32Plus(
                    OptionalHeaderWindowsSpecificFields { dll_characteristics: value, ..fields },
                ),
            },
    {
        match self {
            Self::PE32(fields) => fields.dll_characteristics = value,
            Self::PE32Plus(fields) => fields.dll_characteristics = value,
        };
    }

    /// The field `size_of_stack_reserve` of either shape.
    pub open spec fn spec_size_of_stack_reserve(&self) -> u64 {
        match self {
            Self::PE32(fields) => fields.size_of_stack_reserve as u64,
            Self::PE32Plus(fields) => fields.size_of_stack_reserve,
        }
    }

    /// Gets `size_of_stack_reserve` from either shape.
    #[verifier::when_used_as_spec(spec_size_of_stack_reserve)]
    pub fn size_of_stack_reserve(&self) -> (value: u64)
        ensures
            value == self.spec_size_of_stack_reserve(),
    {
        match self {
            Self::PE32(fields) => fields.size_of_stack_reserve as u64,
            Self::PE32Plus(fields) => fields.size_of_stack_reserve,
        }
    }

    /// Sets `size_of_stack_reserve`. The shape of PE32 keeps the low 32 bits of `value`.
    pub fn set_size_of_stack_reserve(&mut self, value: u64)
        ensures
            *final(self) == match *old(self) {
                Self::PE32(fields) => Self::PE32(
                    OptionalHeaderWindowsSpecificFields { size_of_stack_reserve: value as u32, ..fields },
                ),
                Self::PE32Plus(fields) => Self::PE32Plus(
                    OptionalHeaderWindowsSpecificFields { size_of_stack_reserve: value, ..fields },
                ),
            },
    {
        match self {
            Self::PE32(fields) => fields.size_of_stack_reserve = #[verifier::truncate] (value as u32),
            Self::PE32Plus(fields) => fields.size_of_stack_reserve = value,
        };
    }

    /// The field `size_of_stack_commit` of either shape.
    pub open spec fn spec_size_of_stack_commit(&self) -> u64 {
        match self {
            Self::PE32(fields) => fields.size_of_stack_commit as u64,
            Self::PE32Plus(fields) => fields.size_of_stack_commit,
        }
    }

    /// Gets `size_of_stack_commit` from either shape.
    #[verifier::when_used_as_spec(spec_size_of_stack_commit)]
    pub fn size_of_stack_commit(&self) -> (value: u64)
        ensures
            value == self.spec_size_of_stack_commit(),
    {
        match self {
            Self::PE32(fields) => fields.size_of_stack_commit as u64,
            Self::PE32Plus(fields) => fields.size_of_stack_commit,
        }
    }

    /// Sets `size_of_stack_commit`. The shape of PE32 keeps the low 32 bits of `value`.
    pub fn set_size_of_stack_commit(&mut self, value: u64)
        ensures
            *final(self) == match *old(self) {
                Self::PE32(fields) => Self::PE32(
                    OptionalHeaderWindowsSpecificFields { size_of_stack_commit: value as u32, ..fields },
                ),
                Self::PE32Plus(fields) => Self::PE32Plus(
                    OptionalHeaderWindowsSpecificFields { size_of_stack_commit: value, ..fields },
                ),
            },
    {
        match self {
            Self::PE32(fields) => fields.size_of_stack_commit = #[verifier::truncate] (value as u32),
            Self::PE32Plus(fields) => fields.size_of_stack_commit = value,
        };
    }

    /// The field `size_of_heap_reserve` of either shape.
    pub open spec fn spec_size_of_heap_reserve(&self) -> u64 {
        match self {
            Self::PE32(fields) => fields.size_of_heap_reserve as u64,
            Self::PE32Plus(fields) => fields.size_of_heap_reserve,
        }
    }

    /// Gets `size_of_heap_reserve` from either shape.
    #[verifier::when_used_as_spec(spec_size_of_heap_reserve)]
    pub fn size_of_heap_reserve(&self) -> (value: u64)
        ensures
            value == self.spec_size_of_heap_reserve(),
    {
        match self {
            Self::PE32(fields) => fields.size_of_heap_reserve as u64,
            Self::PE32Plus(fields) => fields.size_of_heap_reserve,
        }
    }

    /// Sets `size_of_heap_reserve`. The shape of PE32 keeps the low 32 bits of `value`.
    pub fn set_size_of_heap_reserve(&mut self, value: u64)
        ensures
            *final(self) == match *old(self) {
                Self::PE32(fields) => Self::PE32(
                    OptionalHeaderWindowsSpecificFields { size_of_heap_reserve: value as u32, ..fields },
                ),
                Self::PE32Plus(fields) => Self::PE32Plus(
                    OptionalHeaderWindowsSpecificFields { size_of_heap_reserve: value, ..fields },
                ),
            },
    {
        match self {
            Self::PE32(fields) => fields.size_of_heap_reserve = #[verifier::truncate] (value as u32),
            Self::PE32Plus(fields) => fields.size_of_heap_reserve = value,
        };
    }

    /// The field `size_of_heap_commit` of either shape.
    pub open spec fn spec_size_of_heap_commit(&self) -> u64 {
        match self {
            Self::PE32(fields) => fields.size_of_heap_commit as u64,
            Self::PE32Plus(fields) => fields.size_of_heap_commit,
        }
    }

    /// Gets `size_of_heap_commit` from either shape.
    #[verifier::when_used_as_spec(spec_size_of_heap_commit)]
    pub fn size_of_heap_commit(&self) -> (value: u64)
        ensures
            value == self.spec_size_of_heap_commit(),
    {
        match self {
            Self::PE32(fields) => fields.size_of_heap_commit as u64,
            Self::PE32Plus(fields) => fields.size_of_heap_commit,
        }
    }

    /// Sets `size_of_heap_commit`. The shape of PE32 keeps the low 32 bits of `value`.
    pub fn set_size_of_heap_commit(&mut self, value: u64)
        ensures
            *final(self) == match *old(self) {
                Self::PE32(fields) => Self::PE32(
                    OptionalHeaderWindowsSpecificFields { size_of_heap_commit: value as u32, ..fields },
                ),
                Self::PE32Plus(fields) => Self::PE32Plus(
                    OptionalHeaderWindowsSpecificFields { size_of_heap_commit: value, ..fields },
                ),
            },
    {
        match self {
            Self::PE32(fields) => fields.size_of_heap_commit = #[verifier::truncate] (value as u32),
            Self::PE32Plus(fields) => fields.size_of_heap_commit = value,
        };
    }

    /// The field `loader_flags` of either shape.
    pub open spec fn spec_loader_flags(&self) -> u32 {
        match self {
            Self::PE32(fields) => fields.loader_flags,
            Self::PE32Plus(fields) => fields.loader_flags,
        }
    }

    /// Gets `loader_flags` from either shape.
    #[verifier::when_used_as_spec(spec_loader_flags)]
    pub fn loader_flags(&self) -> (value: u32)
        ensures
            value == self.spec_loader_flags(),
    {
        match self {
            Self::PE32(fields) => fields.loader_flags,
            Self::PE32Plus(fields) => fields.loader_flags,
        }
    }

    /// Sets `loader_flags` in either shape.
    pub fn set_loader_flags(&mut self, value: u32)
        ensures
            *final(self) == match *old(self) {
                Self::PE32(fields) => Self::PE32(
                    OptionalHeaderWindowsSpecificFields { loader_flags: value, ..fields },
                ),
                Self::PE32Plus(fields) => Self::PE32Plus(
                    OptionalHeaderWindowsSpecificFields { loader_flags: value, ..fields },
                ),
            },
    {
        match self {
            Self::PE32(fields) => fields.loader_flags = value,
            Self::PE32Plus(fields) => fields.loader_flags = value,
        };
    }

    /// The field `number_of_rva_and_sizes` of either shape.
    pub open spec fn spec_number_of_rva_and_sizes(&self) -> u32 {
        match self {
            Self::PE32(fields) => fields.number_of_rva_and_sizes,
            Self::PE32Plus(fields) => fields.number_of_rva_and_sizes,
        }
    }

    /// Gets `number_of_rva_and_sizes` from either shape.
    #[verifier::when_used_as_spec(spec_number_of_rva_and_sizes)]
    pub fn number_of_rva_and_sizes(&self) -> (value: u32)
        ensures
            value == self.spec_number_of_rva_and_sizes(),
    {
        match self {
            Self::PE32(fields) => fields.number_of_rva_and_sizes,
            Self::PE32Plus(fields) => fields.number_of_rva_and_sizes,
        }
    }

    /// Sets `number_of_rva_and_sizes` in either shape.
    pub fn set_number_of_rva_and_sizes(&mut self, value: u32)
        ensures
            *final(self) == match *old(self) {
                Self::PE32(fields) => Self::PE32(
                    OptionalHeaderWindowsSpecificFields { number_of_rva_and_sizes: value, ..fields },
                ),
                Self::PE32Plus(fields) => Self::PE32Plus(
                    OptionalHeaderWindowsSpecificFields { number_of_rva_and_sizes: value, ..fields },
                ),
            },
    {
        match self {
            Self::PE32(fields) => fields.number_of_rva_and_sizes = value,
            Self::PE32Plus(fields) => fields.number_of_rva_and_sizes = value,
        };
    }

}


impl RoundTrip for OptionalHeaderMagic {
    open spec fn spec_canonical(&self) -> bool {
        self.is_canonical()
    }

    proof fn lemma_round_trip(&self) {
        lemma_auto_spec_u16_to_from_le_bytes();
        OptionalHeaderMagic::lemma_write_read(*self);
    }
}

impl RoundTrip for OptionalHeaderStandardFields {
    open spec fn spec_canonical(&self) -> bool {
        self.wf()
    }

    proof fn lemma_round_trip(&self) {
        OptionalHeaderStandardFields::lemma_write_read(*self);
    }
}

impl RoundTrip for OptionalHeaderWindowsSpecificFields<Pe32> {
    open spec fn spec_canonical(&self) -> bool {
        self.subsystem.is_canonical()
    }

    proof fn lemma_round_trip(&self) {
        OptionalHeaderWindowsSpecificFields::<Pe32>::lemma_write_read(*self);
    }
}

impl RoundTrip for OptionalHeaderWindowsSpecificFields<Pe32Plus> {
    open spec fn spec_canonical(&self) -> bool {
        self.subsystem.is_canonical()
    }

    proof fn lemma_round_trip(&self) {
        OptionalHeaderWindowsSpecificFields::<Pe32Plus>::lemma_write_read(*self);
    }
}

} // verus!
