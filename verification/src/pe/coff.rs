//! The COFF file header, which follows the signature of an image file.
use crate::error::PerwError;
use crate::io::{
    fixed_read, get_u16, get_u32, le16, le32, put_u16, put_u32, u16_at, u32_at, ReadData, Reader,
    RoundTrip, WriteData,
};
use vstd::bytes::*;
use vstd::prelude::*;

verus! {

/// The type of the machine that an image targets. The format names the
/// values below; any other number is kept as it is.
#[derive(Default, Copy, Clone, Debug, PartialEq, Eq)]
pub enum ImageFileMachine {
    #[default]
    /// The content is assumed to apply to any machine type
    Unknown,
    /// Alpha AXP, 32-bit address space
    Alpha,
    /// Alpha 64, 64-bit address space
    Alpha64,
    /// Matsushita AM33
    Am33,
    /// x64
    Amd64,
    /// ARM little endian
    Arm,
    /// ARM64 little endian
    Arm64,
    /// ARM Thumb-2 little endian
    ArmNT,
    /// EFI byte code
    Ebc,
    /// Intel 386 or later processors and compatible processors
    I386,
    /// Intel Itanium processor family
    IA64,
    /// LoongArch 32-bit processor family
    LoongArchH32,
    /// LoongArch 64-bit processor family
    LoongArch64,
    /// Mitsubishi M32R little endian
    M32R,
    /// MIPS16
    Mips16,
    /// MIPS with FPU
    MipsFPU,
    /// MIPS16 with FPU
    MipsFPU16,
    /// Power PC little endian
    PowerPC,
    /// Power PC with floating point support
    PowerPCFP,
    /// MIPS little endian
    R4000,
    /// RISC-V 32-bit address space
    RiscV32,
    /// RISC-V 64-bit address space
    RiscV64,
    /// RISC-V 128-bit address space
    RiscV128,
    /// Hitachi SH3
    Sh3,
    /// Hitachi SH4
    Sh4,
    /// Hitachi SH5
    Sh5,
    /// Thumb
    Thumb,
    /// MIPS little-endian WCE v2
    WceMipsV2,
    /// A machine type that the format does not name
    Other(u16),
}

impl ImageFileMachine {
    /// The machine that a number stands for.
    pub open spec fn spec_from_u16(machine_type: u16) -> Self {
        match machine_type {
            0x0 => Self::Unknown,
            0x184 => Self::Alpha,
            0x284 => Self::Alpha64,
            0x1d3 => Self::Am33,
            0x8664 => Self::Amd64,
            0x1c0 => Self::Arm,
            0xaa64 => Self::Arm64,
            0x1c4 => Self::ArmNT,
            0xebc => Self::Ebc,
            0x14c => Self::I386,
            0x200 => Self::IA64,
            0x6232 => Self::LoongArchH32,
            0x6264 => Self::LoongArch64,
            0x9041 => Self::M32R,
            0x266 => Self::Mips16,
            0x366 => Self::MipsFPU,
            0x466 => Self::MipsFPU16,
            0x1f0 => Self::PowerPC,
            0x1f1 => Self::PowerPCFP,
            0x166 => Self::R4000,
            0x5032 => Self::RiscV32,
            0x5064 => Self::RiscV64,
            0x5128 => Self::RiscV128,
            0x1a2 => Self::Sh3,
            0x1a6 => Self::Sh4,
            0x1a8 => Self::Sh5,
            0x1c2 => Self::Thumb,
            0x169 => Self::WceMipsV2,
            n => Self::Other(n),
        }
    }

    /// The number that stands for a machine.
    pub open spec fn spec_to_u16(&self) -> u16 {
        match self {
            Self::Unknown => 0x0,
            Self::Alpha => 0x184,
            Self::Alpha64 => 0x284,
            Self::Am33 => 0x1d3,
            Self::Amd64 => 0x8664,
            Self::Arm => 0x1c0,
            Self::Arm64 => 0xaa64,
            Self::ArmNT => 0x1c4,
            Self::Ebc => 0xebc,
            Self::I386 => 0x14c,
            Self::IA64 => 0x200,
            Self::LoongArchH32 => 0x6232,
            Self::LoongArch64 => 0x6264,
            Self::M32R => 0x9041,
            Self::Mips16 => 0x266,
            Self::MipsFPU => 0x366,
            Self::MipsFPU16 => 0x466,
            Self::PowerPC => 0x1f0,
            Self::PowerPCFP => 0x1f1,
            Self::R4000 => 0x166,
            Self::RiscV32 => 0x5032,
            Self::RiscV64 => 0x5064,
            Self::RiscV128 => 0x5128,
            Self::Sh3 => 0x1a2,
            Self::Sh4 => 0x1a6,
            Self::Sh5 => 0x1a8,
            Self::Thumb => 0x1c2,
            Self::WceMipsV2 => 0x169,
            Self::Other(n) => *n,
        }
    }

    /// No named machine is held as `Other`.
    pub open spec fn is_canonical(&self) -> bool {
        Self::spec_from_u16(self.spec_to_u16()) == *self
    }

    /// The machine that a number stands for.
    #[verifier::when_used_as_spec(spec_from_u16)]
    pub fn from_u16(machine_type: u16) -> (machine: Self)
        ensures
            machine == Self::spec_from_u16(machine_type),
            machine.spec_to_u16() == machine_type,
            machine.is_canonical(),
    {
        match machine_type {
            0x0 => Self::Unknown,
            0x184 => Self::Alpha,
            0x284 => Self::Alpha64,
            0x1d3 => Self::Am33,
            0x8664 => Self::Amd64,
            0x1c0 => Self::Arm,
            0xaa64 => Self::Arm64,
            0x1c4 => Self::ArmNT,
            0xebc => Self::Ebc,
            0x14c => Self::I386,
            0x200 => Self::IA64,
            0x6232 => Self::LoongArchH32,
            0x6264 => Self::LoongArch64,
            0x9041 => Self::M32R,
            0x266 => Self::Mips16,
            0x366 => Self::MipsFPU,
            0x466 => Self::MipsFPU16,
            0x1f0 => Self::PowerPC,
            0x1f1 => Self::PowerPCFP,
            0x166 => Self::R4000,
            0x5032 => Self::RiscV32,
            0x5064 => Self::RiscV64,
            0x5128 => Self::RiscV128,
            0x1a2 => Self::Sh3,
            0x1a6 => Self::Sh4,
            0x1a8 => Self::Sh5,
            0x1c2 => Self::Thumb,
            0x169 => Self::WceMipsV2,
            n => Self::Other(n),
        }
    }

    /// The number that stands for the machine.
    #[verifier::when_used_as_spec(spec_to_u16)]
    pub fn to_u16(&self) -> (machine_type: u16)
        ensures
            machine_type == self.spec_to_u16(),
    {
        match self {
            Self::Unknown => 0x0,
            Self::Alpha => 0x184,
            Self::Alpha64 => 0x284,
            Self::Am33 => 0x1d3,
            Self::Amd64 => 0x8664,
            Self::Arm => 0x1c0,
            Self::Arm64 => 0xaa64,
            Self::ArmNT => 0x1c4,
            Self::Ebc => 0xebc,
            Self::I386 => 0x14c,
            Self::IA64 => 0x200,
            Self::LoongArchH32 => 0x6232,
            Self::LoongArch64 => 0x6264,
            Self::M32R => 0x9041,
            Self::Mips16 => 0x266,
            Self::MipsFPU => 0x366,
            Self::MipsFPU16 => 0x466,
            Self::PowerPC => 0x1f0,
            Self::PowerPCFP => 0x1f1,
            Self::R4000 => 0x166,
            Self::RiscV32 => 0x5032,
            Self::RiscV64 => 0x5064,
            Self::RiscV128 => 0x5128,
            Self::Sh3 => 0x1a2,
            Self::Sh4 => 0x1a6,
            Self::Sh5 => 0x1a8,
            Self::Thumb => 0x1c2,
            Self::WceMipsV2 => 0x169,
            Self::Other(n) => *n,
        }
    }

    /// Every number is the number of the machine that it stands for.
    pub proof fn lemma_from_to(machine_type: u16)
        ensures
            Self::spec_from_u16(machine_type).spec_to_u16() == machine_type,
            Self::spec_from_u16(machine_type).is_canonical(),
    {
    }
}

/// The attributes of an image file, one bit each. Bits that the format does
/// not name are kept.
#[derive(Default, Debug, Clone, Copy, PartialEq, Eq, PartialOrd, Ord, Hash)]
pub struct ImageFileCharacteristics {
    pub bits: u16,
}

impl ImageFileCharacteristics {
    /// The file holds no base relocations and must be loaded at its preferred base address.
    pub const RELOCS_STRIPPED: u16 = 0x0001;

    /// The image file is valid and can be run.
    pub const EXECUTABLE_IMAGE: u16 = 0x0002;

    /// COFF line numbers have been removed. Deprecated, should be zero.
    pub const LINE_NUMBERS_SCRIPPED: u16 = 0x0004;

    /// COFF symbol table entries for local symbols have been removed. Deprecated, should be zero.
    pub const LINE_LOCAL_SYMS_STRIPPED: u16 = 0x0008;

    /// Aggressively trim working set. Obsolete, must be zero.
    pub const AGGRESSIVE_WS_TRIM: u16 = 0x0008;

    /// The application can handle addresses above 2 GB.
    pub const LARGE_ADDRESS_AWARE: u16 = 0x0020;

    /// Reserved for future use.
    pub const RESERVED: u16 = 0x0040;

    /// Little endian. Deprecated, should be zero.
    pub const BYTES_REVERSED_LO: u16 = 0x0080;

    /// The machine is based on a 32-bit-word architecture.
    pub const FOR_32BIT_MACHINE: u16 = 0x0100;

    /// Debugging information is removed from the image file.
    pub const DEBUG_STRIPPED: u16 = 0x0200;

    /// If the image is on removable media, fully load it and copy it to the swap file.
    pub const REMOVABLE_RUN_FROM_SWAP: u16 = 0x0400;

    /// If the image is on network media, fully load it and copy it to the swap file.
    pub const NET_RUN_FROM_SWAP: u16 = 0x0800;

    /// The image file is a system file, not a user program.
    pub const FILE_SYSTEM: u16 = 0x1000;

    /// The image file is a dynamic-link library.
    pub const FILE_DLL: u16 = 0x2000;

    /// The file should be run only on a uniprocessor machine.
    pub const FILE_UP_SYSTEM_ONLY: u16 = 0x4000;

    /// Big endian. Deprecated, should be zero.
    pub const BYTES_REVERSED_HI: u16 = 0x8000;

    /// The flags with exactly the bits of `bits` set.
    pub fn from_bits_retain(bits: u16) -> (flags: Self)
        ensures
            flags.bits == bits,
    {
        Self { bits }
    }

    /// The bits that are set.
    pub fn bits(&self) -> (bits: u16)
        ensures
            bits == self.bits,
    {
        self.bits
    }

    /// Whether every bit of `flags` is set.
    pub fn contains(&self, flags: u16) -> (all: bool)
        ensures
            all == (self.bits & flags == flags),
    {
        self.bits & flags == flags
    }
}

/// The header that follows the signature of an image, or starts an object
/// file. The Windows loader limits the number of sections to 96.
#[derive(Default, Clone, Debug, PartialEq, Eq)]
pub struct CoffFileHeader {
    /// The number that identifies the type of target machine.
    pub machine: ImageFileMachine,
    /// The number of sections, which is the size of the section table that
    /// follows the headers.
    pub number_of_sections: u16,
    /// The low 32 bits of the number of seconds since 00:00 January 1, 1970, when
    /// the file was created.
    pub date_time_stamp: u32,
    /// The file offset of the COFF symbol table, or zero if there is none.
    pub pointer_to_symbol_table: u32,
    /// The number of entries in the symbol table.
    pub number_of_symbols: u32,
    /// The size of the optional header, which is zero for an object file.
    pub size_of_optional_header: u16,
    /// The flags that indicate the attributes of the file.
    pub characteristics: ImageFileCharacteristics,
}

impl CoffFileHeader {
    /// The size of the header in bytes.
    pub const SIZE: usize = 20;

    /// The header that 20 bytes stand for.
    pub open spec fn spec_decode(bytes: Seq<u8>) -> Self {
        CoffFileHeader {
            machine: ImageFileMachine::spec_from_u16(u16_at(bytes, 0)),
            number_of_sections: u16_at(bytes, 2),
            date_time_stamp: u32_at(bytes, 4),
            pointer_to_symbol_table: u32_at(bytes, 8),
            number_of_symbols: u32_at(bytes, 12),
            size_of_optional_header: u16_at(bytes, 16),
            characteristics: ImageFileCharacteristics { bits: u16_at(bytes, 18) },
        }
    }

    /// The 20 bytes that stand for the header.
    pub open spec fn spec_encode(&self) -> Seq<u8> {
        le16(self.machine.spec_to_u16())
            + le16(self.number_of_sections)
            + le32(self.date_time_stamp)
            + le32(self.pointer_to_symbol_table)
            + le32(self.number_of_symbols)
            + le16(self.size_of_optional_header)
            + le16(self.characteristics.bits)
    }

    /// Decodes a header from exactly 20 bytes.
    pub(crate) fn decode(bytes: &[u8]) -> (header: Self)
        requires
            bytes@.len() == Self::SIZE,
        ensures
            header == Self::spec_decode(bytes@),
    {
        CoffFileHeader {
            machine: ImageFileMachine::from_u16(get_u16(bytes, 0)),
            number_of_sections: get_u16(bytes, 2),
            date_time_stamp: get_u32(bytes, 4),
            pointer_to_symbol_table: get_u32(bytes, 8),
            number_of_symbols: get_u32(bytes, 12),
            size_of_optional_header: get_u16(bytes, 16),
            characteristics: ImageFileCharacteristics::from_bits_retain(get_u16(bytes, 18)),
        }
    }

    /// A header that is written and read again is the same header, as long as
    /// its machine is canonical, and its encoding has exactly 20 bytes.
    pub proof fn lemma_write_read(self)
        requires
            self.machine.is_canonical(),
        ensures
            self.spec_encode().len() == Self::SIZE,
            Self::spec_decode(self.spec_encode()) == self,
            Self::spec_read(self.spec_encode()) == Ok::<(Self, nat), PerwError>((self, 20)),
    {
        lemma_auto_spec_u16_to_from_le_bytes();
        lemma_auto_spec_u32_to_from_le_bytes();
        let b = self.spec_encode();
        assert(b.len() == 20);
        assert(b.subrange(0, 2) =~= le16(self.machine.spec_to_u16()));
        assert(b.subrange(2, 4) =~= le16(self.number_of_sections));
        assert(b.subrange(4, 8) =~= le32(self.date_time_stamp));
        assert(b.subrange(8, 12) =~= le32(self.pointer_to_symbol_table));
        assert(b.subrange(12, 16) =~= le32(self.number_of_symbols));
        assert(b.subrange(16, 18) =~= le16(self.size_of_optional_header));
        assert(b.subrange(18, 20) =~= le16(self.characteristics.bits));
        assert(b.take(20) =~= b);
    }

    /// Twenty bytes that are read and written again are the same bytes.
    pub proof fn lemma_read_write(bytes: Seq<u8>)
        requires
            bytes.len() == Self::SIZE,
        ensures
            Self::spec_decode(bytes).spec_encode() == bytes,
    {
        lemma_auto_spec_u16_to_from_le_bytes();
        lemma_auto_spec_u32_to_from_le_bytes();
        let h = Self::spec_decode(bytes);
        ImageFileMachine::lemma_from_to(u16_at(bytes, 0));
        assert(h.spec_encode() =~= bytes.subrange(0, 2) + bytes.subrange(2, 4) + bytes.subrange(
            4,
            8,
        ) + bytes.subrange(8, 12) + bytes.subrange(12, 16) + bytes.subrange(16, 18)
            + bytes.subrange(18, 20));
        assert(h.spec_encode() =~= bytes);
    }
}

impl ReadData for CoffFileHeader {
    open spec fn spec_read(bytes: Seq<u8>) -> Result<(Self, nat), PerwError> {
        fixed_read(bytes, 20, Self::spec_decode(bytes.take(20)))
    }

    fn read<'a, R: Reader<'a>>(reader: &mut R) -> (r: Result<Self, PerwError>) {
        let bytes = reader.read_slice(Self::SIZE)?;
        Ok(Self::decode(bytes))
    }
}

impl WriteData for CoffFileHeader {
    open spec fn spec_write(&self) -> Result<Seq<u8>, PerwError> {
        Ok(self.spec_encode())
    }

    fn to_bytes(&self) -> (r: Result<Vec<u8>, PerwError>) {
        let mut out = Vec::new();
        put_u16(&mut out, self.machine.to_u16());
        put_u16(&mut out, self.number_of_sections);
        put_u32(&mut out, self.date_time_stamp);
        put_u32(&mut out, self.pointer_to_symbol_table);
        put_u32(&mut out, self.number_of_symbols);
        put_u16(&mut out, self.size_of_optional_header);
        put_u16(&mut out, self.characteristics.bits());
        assert(out@ =~= self.spec_encode());
        Ok(out)
    }
}


impl RoundTrip for CoffFileHeader {
    open spec fn spec_canonical(&self) -> bool {
        self.machine.is_canonical()
    }

    proof fn lemma_round_trip(&self) {
        self.lemma_write_read();
    }
}

} // verus!
