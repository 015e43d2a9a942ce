//! The exception data of an image: function table entries for exception
//! handling. The machine type selects the format of an entry.
use crate::error::PerwError;
use crate::io::{
    fixed_read, get_u32, le32, put_u32, u32_at, ReadData, Reader, RoundTrip, WriteData,
};
use crate::pe::coff::ImageFileMachine;
use vstd::bytes::*;
use vstd::prelude::*;

verus! {

/// A function table entry of 32-bit MIPS images.
#[derive(Default, Copy, Clone, Debug, PartialEq, Eq)]
pub struct Mips32ExceptionHandlerTable {
    /// The VA of the corresponding function.
    pub begin_address: u32,
    /// The VA of the end of the function.
    pub end_address: u32,
    /// The pointer to the exception handler to be executed.
    pub exception_hander: u32,
    /// The pointer to additional information to be passed to the handler.
    pub data_hander: u32,
    /// The VA of the end of the function's prolog.
    pub prolog_end_address: u32,
}

impl Mips32ExceptionHandlerTable {
    /// The size of the entry in bytes.
    pub const SIZE: usize = 20;

    /// The entry that 20 bytes stand for.
    pub open spec fn spec_decode(bytes: Seq<u8>) -> Self {
        Mips32ExceptionHandlerTable {
            begin_address: u32_at(bytes, 0),
            end_address: u32_at(bytes, 4),
            exception_hander: u32_at(bytes, 8),
            data_hander: u32_at(bytes, 12),
            prolog_end_address: u32_at(bytes, 16),
        }
    }

    /// The 20 bytes that stand for the entry.
    pub open spec fn spec_encode(&self) -> Seq<u8> {
        le32(self.begin_address)
            + le32(self.end_address)
            + le32(self.exception_hander)
            + le32(self.data_hander)
            + le32(self.prolog_end_address)
    }

    /// Decodes the entry from exactly 20 bytes.
    pub(crate) fn decode(bytes: &[u8]) -> (entry: Self)
        requires
            bytes@.len() == Self::SIZE,
        ensures
            entry == Self::spec_decode(bytes@),
    {
        Mips32ExceptionHandlerTable {
            begin_address: get_u32(bytes, 0),
            end_address: get_u32(bytes, 4),
            exception_hander: get_u32(bytes, 8),
            data_hander: get_u32(bytes, 12),
            prolog_end_address: get_u32(bytes, 16),
        }
    }

    /// An entry that is written and read again is the same entry, and its
    /// encoding has exactly 20 bytes.
    pub proof fn lemma_write_read(self)
        ensures
            self.spec_encode().len() == Self::SIZE,
            Self::spec_decode(self.spec_encode()) == self,
            Self::spec_read(self.spec_encode()) == Ok::<(Self, nat), PerwError>((self, 20)),
    {
        lemma_auto_spec_u16_to_from_le_bytes();
        lemma_auto_spec_u32_to_from_le_bytes();
        let b = self.spec_encode();
        assert(b.len() == 20);
        assert(b.subrange(0, 4) =~= le32(self.begin_address));
        assert(b.subrange(4, 8) =~= le32(self.end_address));
        assert(b.subrange(8, 12) =~= le32(self.exception_hander));
        assert(b.subrange(12, 16) =~= le32(self.data_hander));
        assert(b.subrange(16, 20) =~= le32(self.prolog_end_address));
        assert(b.take(20) =~= b);
    }
}

impl ReadData for Mips32ExceptionHandlerTable {
    open spec fn spec_read(bytes: Seq<u8>) -> Result<(Self, nat), PerwError> {
        fixed_read(bytes, 20, Self::spec_decode(bytes.take(20)))
    }

    fn read<'a, R: Reader<'a>>(reader: &mut R) -> (r: Result<Self, PerwError>) {
        let bytes = reader.read_slice(Self::SIZE)?;
        Ok(Self::decode(bytes))
    }
}

impl WriteData for Mips32ExceptionHandlerTable {
    open spec fn spec_write(&self) -> Result<Seq<u8>, PerwError> {
        Ok(self.spec_encode())
    }

    fn to_bytes(&self) -> (r: Result<Vec<u8>, PerwError>) {
        let mut out = Vec::new();
        put_u32(&mut out, self.begin_address);
        put_u32(&mut out, self.end_address);
        put_u32(&mut out, self.exception_hander);
        put_u32(&mut out, self.data_hander);
        put_u32(&mut out, self.prolog_end_address);
        assert(out@ =~= self.spec_encode());
        Ok(out)
    }
}

/// A function table entry of x64 and Itanium images.
#[derive(Default, Copy, Clone, Debug, PartialEq, Eq)]
pub struct X64ExceptionHandlerTable {
    /// The RVA of the corresponding function.
    pub begin_address: u32,
    /// The RVA of the end of the function.
    pub end_address: u32,
    /// The RVA of the unwind information.
    pub unwind_infomation: u32,
}

impl X64ExceptionHandlerTable {
    /// The size of the entry in bytes.
    pub const SIZE: usize = 12;

    /// The entry that 12 bytes stand for.
    pub open spec fn spec_decode(bytes: Seq<u8>) -> Self {
        X64ExceptionHandlerTable {
            begin_address: u32_at(bytes, 0),
            end_address: u32_at(bytes, 4),
            unwind_infomation: u32_at(bytes, 8),
        }
    }

    /// The 12 bytes that stand for the entry.
    pub open spec fn spec_encode(&self) -> Seq<u8> {
        le32(self.begin_address)
            + le32(self.end_address)
            + le32(self.unwind_infomation)
    }

    /// Decodes the entry from exactly 12 bytes.
    pub(crate) fn decode(bytes: &[u8]) -> (entry: Self)
        requires
            bytes@.len() == Self::SIZE,
        ensures
            entry == Self::spec_decode(bytes@),
    {
        X64ExceptionHandlerTable {
            begin_address: get_u32(bytes, 0),
            end_address: get_u32(bytes, 4),
            unwind_infomation: get_u32(bytes, 8),
        }
    }

    /// An entry that is written and read again is the same entry, and its
    /// encoding has exactly 12 bytes.
    pub proof fn lemma_write_read(self)
        ensures
            self.spec_encode().len() == Self::SIZE,
            Self::spec_decode(self.spec_encode()) == self,
            Self::spec_read(self.spec_encode()) == Ok::<(Self, nat), PerwError>((self, 12)),
    {
        lemma_auto_spec_u16_to_from_le_bytes();
        lemma_auto_spec_u32_to_from_le_bytes();
        let b = self.spec_encode();
        assert(b.len() == 12);
        assert(b.subrange(0, 4) =~= le32(self.begin_address));
        assert(b.subrange(4, 8) =~= le32(self.end_address));
        assert(b.subrange(8, 12) =~= le32(self.unwind_infomation));
        assert(b.take(12) =~= b);
    }
}

impl ReadData for X64ExceptionHandlerTable {
    open spec fn spec_read(bytes: Seq<u8>) -> Result<(Self, nat), PerwError> {
        fixed_read(bytes, 12, Self::spec_decode(bytes.take(12)))
    }

    fn read<'a, R: Reader<'a>>(reader: &mut R) -> (r: Result<Self, PerwError>) {
        let bytes = reader.read_slice(Self::SIZE)?;
        Ok(Self::decode(bytes))
    }
}

impl WriteData for X64ExceptionHandlerTable {
    open spec fn spec_write(&self) -> Result<Seq<u8>, PerwError> {
        Ok(self.spec_encode())
    }

    fn to_bytes(&self) -> (r: Result<Vec<u8>, PerwError>) {
        let mut out = Vec::new();
        put_u32(&mut out, self.begin_address);
        put_u32(&mut out, self.end_address);
        put_u32(&mut out, self.unwind_infomation);
        assert(out@ =~= self.spec_encode());
        Ok(out)
    }
}

/// The width of the instructions of a function.
#[derive(Default, Copy, Clone, Debug, PartialEq, Eq)]
pub enum ExceptionHandlerInstructionLength {
    #[default]
    Is16Bit,
    Is32Bit,
}

/// A function table entry of ARM, PowerPC, SH3 and SH4 Windows CE images. Its
/// second word packs four fields.
#[derive(Default, Copy, Clone, Debug, PartialEq, Eq)]
pub struct ArmPowerPCSH4WindowsCEExceptionHandlerTable {
    /// The VA of the corresponding function.
    pub begin_address: u32,
    /// The number of instructions in the function's prolog: 8 bits.
    pub prolog_length: u8,
    /// The number of instructions in the function: 22 bits.
    pub function_length: u32,
    /// Whether the function consists of 32-bit or of 16-bit instructions.
    pub instruction_length: ExceptionHandlerInstructionLength,
    /// Whether an exception handler exists for the function.
    pub exception_hander_exists: bool,
}

/// The 22 bits of `function_length` when it stands at the low end of a word.
pub const FUNCTION_LENGTH_MASK: u32 = 0x003F_FFFF;

/// The prolog length that a packed word holds: its high 8 bits.
pub open spec fn spec_prolog_length(other_fields: u32) -> u8 {
    (other_fields >> 24) as u8
}

/// The function length that a packed word holds: the 22 bits above its low
/// two.
pub open spec fn spec_function_length(other_fields: u32) -> u32 {
    (other_fields >> 2) & FUNCTION_LENGTH_MASK
}

/// Whether a packed word says that the instructions have 32 bits: bit 1.
pub open spec fn spec_is_32bit(other_fields: u32) -> bool {
    (other_fields >> 1) & 1 == 1
}

/// Whether a packed word says that an exception handler exists: bit 0.
pub open spec fn spec_has_handler(other_fields: u32) -> bool {
    other_fields & 1 == 1
}

/// The packed word that holds the four fields.
pub open spec fn spec_pack(
    prolog_length: u8,
    function_length: u32,
    is_32bit: bool,
    has_handler: bool,
) -> u32 {
    ((prolog_length as u32) << 24) | ((function_length & FUNCTION_LENGTH_MASK) << 2) | (if is_32bit {
        2u32
    } else {
        0u32
    }) | (if has_handler {
        1u32
    } else {
        0u32
    })
}

/// The prolog length that a packed word holds.
pub fn prolog_length_of(other_fields: u32) -> (length: u8)
    ensures
        length == spec_prolog_length(other_fields),
{
    assert(other_fields >> 24 <= 0xFF) by (bit_vector);
    (other_fields >> 24) as u8
}

/// The function length that a packed word holds.
pub fn function_length_of(other_fields: u32) -> (length: u32)
    ensures
        length == spec_function_length(other_fields),
        length <= FUNCTION_LENGTH_MASK,
{
    assert((other_fields >> 2) & 0x003F_FFFF <= 0x003F_FFFF) by (bit_vector);
    (other_fields >> 2) & FUNCTION_LENGTH_MASK
}

/// Whether a packed word says that the instructions have 32 bits.
pub fn is_32bit_of(other_fields: u32) -> (b: bool)
    ensures
        b == spec_is_32bit(other_fields),
{
    (other_fields >> 1) & 1 == 1
}

/// Whether a packed word says that an exception handler exists.
pub fn has_handler_of(other_fields: u32) -> (b: bool)
    ensures
        b == spec_has_handler(other_fields),
{
    other_fields & 1 == 1
}

/// Packs the four fields into a word.
pub fn pack(prolog_length: u8, function_length: u32, is_32bit: bool, has_handler: bool) -> (word:
    u32)
    ensures
        word == spec_pack(prolog_length, function_length, is_32bit, has_handler),
{
    let mut other_fields: u32 = 0;
    let prolog = prolog_length as u32;
    let length = function_length & FUNCTION_LENGTH_MASK;
    assert(prolog << 24 <= 0xFF00_0000) by (bit_vector)
        requires
            prolog <= 0xFF,
    ;
    assert(length << 2 <= 0x00FF_FFFC) by (bit_vector)
        requires
            length == function_length & 0x003F_FFFF,
    ;
    let high = prolog << 24;
    let middle = length << 2;
    let width: u32 = if is_32bit {
        2
    } else {
        0
    };
    let handler: u32 = if has_handler {
        1
    } else {
        0
    };
    high | middle | width | handler
}

/// A word that packs four fields holds each of them, as long as the function
/// length has no more than 22 bits.
pub proof fn lemma_pack(prolog_length: u8, function_length: u32, is_32bit: bool, has_handler: bool)
    requires
        function_length <= FUNCTION_LENGTH_MASK,
    ensures
        spec_prolog_length(spec_pack(prolog_length, function_length, is_32bit, has_handler))
            == prolog_length,
        spec_function_length(spec_pack(prolog_length, function_length, is_32bit, has_handler))
            == function_length,
        spec_is_32bit(spec_pack(prolog_length, function_length, is_32bit, has_handler))
            == is_32bit,
        spec_has_handler(spec_pack(prolog_length, function_length, is_32bit, has_handler))
            == has_handler,
{
    let p = prolog_length as u32;
    let f = function_length;
    let w: u32 = if is_32bit {
        2
    } else {
        0
    };
    let h: u32 = if has_handler {
        1
    } else {
        0
    };
    let word = (p << 24) | ((f & 0x003F_FFFF) << 2) | w | h;
    assert(word >> 24 == p && (word >> 2) & 0x003F_FFFF == f && (word >> 1) & 1 == w >> 1 && word
        & 1 == h) by (bit_vector)
        requires
            word == (p << 24) | ((f & 0x003F_FFFF) << 2) | w | h,
            p <= 0xFF,
            f <= 0x003F_FFFF,
            w == 0 || w == 2,
            h == 0 || h == 1,
    ;
    assert(2u32 >> 1 == 1 && 0u32 >> 1 == 0) by (bit_vector);
}

impl ArmPowerPCSH4WindowsCEExceptionHandlerTable {
    /// The size of the entry in bytes.
    pub const SIZE: usize = 8;

    /// The entry that 8 bytes stand for.
    pub open spec fn spec_decode(bytes: Seq<u8>) -> Self {
        let other_fields = u32_at(bytes, 4);
        ArmPowerPCSH4WindowsCEExceptionHandlerTable {
            begin_address: u32_at(bytes, 0),
            prolog_length: spec_prolog_length(other_fields),
            function_length: spec_function_length(other_fields),
            instruction_length: if spec_is_32bit(other_fields) {
                ExceptionHandlerInstructionLength::Is32Bit
            } else {
                ExceptionHandlerInstructionLength::Is16Bit
            },
            exception_hander_exists: spec_has_handler(other_fields),
        }
    }

    /// The 8 bytes that stand for the entry. The function length counts
    /// with its low 22 bits.
    pub open spec fn spec_encode(&self) -> Seq<u8> {
        le32(self.begin_address) + le32(
            spec_pack(
                self.prolog_length,
                self.function_length,
                self.instruction_length is Is32Bit,
                self.exception_hander_exists,
            ),
        )
    }

    /// Decodes the entry from exactly 8 bytes.
    pub(crate) fn decode(bytes: &[u8]) -> (entry: Self)
        requires
            bytes@.len() == Self::SIZE,
        ensures
            entry == Self::spec_decode(bytes@),
    {
        let begin_address = get_u32(bytes, 0);
        let other_fields = get_u32(bytes, 4);
        ArmPowerPCSH4WindowsCEExceptionHandlerTable {
            begin_address,
            prolog_length: prolog_length_of(other_fields),
            function_length: function_length_of(other_fields),
            instruction_length: if is_32bit_of(other_fields) {
                ExceptionHandlerInstructionLength::Is32Bit
            } else {
                ExceptionHandlerInstructionLength::Is16Bit
            },
            exception_hander_exists: has_handler_of(other_fields),
        }
    }

    /// An entry whose function length has no more than 22 bits, written and
    /// read again, is the same entry, and its encoding has exactly 8 bytes.
    pub proof fn lemma_write_read(self)
        requires
            self.function_length <= FUNCTION_LENGTH_MASK,
        ensures
            self.spec_encode().len() == Self::SIZE,
            Self::spec_decode(self.spec_encode()) == self,
            Self::spec_read(self.spec_encode()) == Ok::<(Self, nat), PerwError>((self, 8)),
    {
        lemma_auto_spec_u32_to_from_le_bytes();
        let word = spec_pack(
            self.prolog_length,
            self.function_length,
            self.instruction_length is Is32Bit,
            self.exception_hander_exists,
        );
        lemma_pack(
            self.prolog_length,
            self.function_length,
            self.instruction_length is Is32Bit,
            self.exception_hander_exists,
        );
        let b = self.spec_encode();
        assert(b.subrange(0, 4) =~= le32(self.begin_address));
        assert(b.subrange(4, 8) =~= le32(word));
        assert(b.take(8) =~= b);
    }
}

impl ReadData for ArmPowerPCSH4WindowsCEExceptionHandlerTable {
    open spec fn spec_read(bytes: Seq<u8>) -> Result<(Self, nat), PerwError> {
        fixed_read(bytes, 8, Self::spec_decode(bytes.take(8)))
    }

    fn read<'a, R: Reader<'a>>(reader: &mut R) -> (r: Result<Self, PerwError>) {
        let bytes = reader.read_slice(Self::SIZE)?;
        Ok(Self::decode(bytes))
    }
}

impl WriteData for ArmPowerPCSH4WindowsCEExceptionHandlerTable {
    open spec fn spec_write(&self) -> Result<Seq<u8>, PerwError> {
        Ok(self.spec_encode())
    }

    fn to_bytes(&self) -> (r: Result<Vec<u8>, PerwError>) {
        let mut out = Vec::new();
        put_u32(&mut out, self.begin_address);
        let is_32bit = match self.instruction_length {
            ExceptionHandlerInstructionLength::Is16Bit => false,
            ExceptionHandlerInstructionLength::Is32Bit => true,
        };
        put_u32(
            &mut out,
            pack(
                self.prolog_length,
                self.function_length,
                is_32bit,
                self.exception_hander_exists,
            ),
        );
        assert(out@ =~= self.spec_encode());
        Ok(out)
    }
}

/// The exception data of an image, in the format that its machine type
/// selects. A machine type with no format of its own gives `Unsupported`.
#[derive(Default, Copy, Clone, Debug, PartialEq, Eq)]
pub enum ExceptionHandlerDataDirectory {
    #[default]
    Unsupported,
    Mips32(Mips32ExceptionHandlerTable),
    ArmPowerPCSH4WindowsCE(ArmPowerPCSH4WindowsCEExceptionHandlerTable),
    X64(X64ExceptionHandlerTable),
}

/// The formats of a function table entry.
#[derive(Copy, Clone, Debug, PartialEq, Eq)]
pub enum ExceptionTableShape {
    Unsupported,
    Mips32,
    ArmPowerPCSH4WindowsCE,
    X64,
}

impl ExceptionHandlerDataDirectory {
    /// The format that a machine type selects.
    pub open spec fn spec_shape(machine: ImageFileMachine) -> ExceptionTableShape {
        match machine {
            ImageFileMachine::MipsFPU | ImageFileMachine::R4000 => ExceptionTableShape::Mips32,
            ImageFileMachine::Arm | ImageFileMachine::PowerPC | ImageFileMachine::PowerPCFP =>
                ExceptionTableShape::ArmPowerPCSH4WindowsCE,
            ImageFileMachine::Arm64 | ImageFileMachine::RiscV64 | ImageFileMachine::Amd64 =>
                ExceptionTableShape::X64,
            _ => ExceptionTableShape::Unsupported,
        }
    }

    /// The format that a machine type selects.
    #[verifier::when_used_as_spec(spec_shape)]
    pub fn shape(machine: ImageFileMachine) -> (shape: ExceptionTableShape)
        ensures
            shape == Self::spec_shape(machine),
    {
        match machine {
            ImageFileMachine::MipsFPU | ImageFileMachine::R4000 => ExceptionTableShape::Mips32,
            ImageFileMachine::Arm | ImageFileMachine::PowerPC | ImageFileMachine::PowerPCFP =>
                ExceptionTableShape::ArmPowerPCSH4WindowsCE,
            ImageFileMachine::Arm64 | ImageFileMachine::RiscV64 | ImageFileMachine::Amd64 =>
                ExceptionTableShape::X64,
            _ => ExceptionTableShape::Unsupported,
        }
    }

    /// What the bytes of the exception directory decode to for a machine
    /// type: the entry that they start with, in the format of the machine.
    pub open spec fn spec_parse(section_data: Seq<u8>, machine: ImageFileMachine) -> Result<
        Self,
        PerwError,
    > {
        match Self::spec_shape(machine) {
            ExceptionTableShape::Mips32 => match Mips32ExceptionHandlerTable::spec_read(
                section_data,
            ) {
                Ok((entry, _)) => Ok(Self::Mips32(entry)),
                Err(e) => Err(e),
            },
            ExceptionTableShape::ArmPowerPCSH4WindowsCE => match ArmPowerPCSH4WindowsCEExceptionHandlerTable::spec_read(
            section_data) {
                Ok((entry, _)) => Ok(Self::ArmPowerPCSH4WindowsCE(entry)),
                Err(e) => Err(e),
            },
            ExceptionTableShape::X64 => match X64ExceptionHandlerTable::spec_read(section_data) {
                Ok((entry, _)) => Ok(Self::X64(entry)),
                Err(e) => Err(e),
            },
            ExceptionTableShape::Unsupported => Ok(Self::Unsupported),
        }
    }

    /// Decodes the exception data from the bytes of its directory.
    pub fn parse(section_data: &[u8], machine: ImageFileMachine) -> (r: Result<Self, PerwError>)
        ensures
            match Self::spec_parse(section_data@, machine) {
                Ok(table) => r == Ok::<Self, PerwError>(table),
                Err(e) => r matches Err(got) && got == e,
            },
    {
        let mut reader = section_data;
        let val = match Self::shape(machine) {
            ExceptionTableShape::Mips32 => Self::Mips32(
                Mips32ExceptionHandlerTable::read(&mut reader)?,
            ),
            ExceptionTableShape::ArmPowerPCSH4WindowsCE => Self::ArmPowerPCSH4WindowsCE(
                ArmPowerPCSH4WindowsCEExceptionHandlerTable::read(&mut reader)?,
            ),
            ExceptionTableShape::X64 => Self::X64(X64ExceptionHandlerTable::read(&mut reader)?),
            ExceptionTableShape::Unsupported => Self::Unsupported,
        };
        Ok(val)
    }
}


impl RoundTrip for Mips32ExceptionHandlerTable {
    open spec fn spec_canonical(&self) -> bool {
        true
    }

    proof fn lemma_round_trip(&self) {
        self.lemma_write_read();
    }
}

impl RoundTrip for X64ExceptionHandlerTable {
    open spec fn spec_canonical(&self) -> bool {
        true
    }

    proof fn lemma_round_trip(&self) {
        self.lemma_write_read();
    }
}

impl RoundTrip for ArmPowerPCSH4WindowsCEExceptionHandlerTable {
    open spec fn spec_canonical(&self) -> bool {
        self.function_length <= FUNCTION_LENGTH_MASK
    }

    proof fn lemma_round_trip(&self) {
        self.lemma_write_read();
    }
}

} // verus!
