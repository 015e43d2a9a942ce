//! The base relocation table of an image. It is divided into blocks, one for
//! each 4K page, and each block lists the places of the page that hold an
//! address to fix when the image is not loaded at its preferred base.
use crate::containers::{spec_prepend, Table};
use crate::error::PerwError;
use crate::io::{le32, put_u32, u32_at, ReadData, Reader, RoundTrip, WriteData};
use vstd::bytes::*;
use vstd::prelude::*;

verus! {

/// The kind of fix that a base relocation asks for.
#[derive(Default, Copy, Clone, Debug, PartialEq, Eq)]
pub enum BaseRelocationType {
    /// The base relocation is skipped. This type can be used to pad a block.
    #[default]
    Absolute,
    /// Adds the high 16 bits of the difference to the 16-bit field at offset.
    High,
    /// Adds the low 16 bits of the difference to the 16-bit field at offset.
    Low,
    /// Applies all 32 bits of the difference to the 32-bit field at offset.
    HighLow,
    /// Adds the high 16 bits of the difference to the 16-bit field at offset;
    /// the low 16 bits are stored in the word that follows.
    HighAdj,
    /// Depends on the machine type: a MIPS jump instruction, an ARM or Thumb
    /// MOVW/MOVT pair, or the high 20 bits of a RISC-V address.
    MipsJmpAddrOrArmMove32OrRscvHigh20,
    /// Reserved, must be zero.
    Reserved,
    /// A Thumb MOVW/MOVT pair, or the low 12 bits of a RISC-V address in an
    /// I-type instruction.
    ThumbMov32OrRiscVLow121,
    /// The low 12 bits of a RISC-V address in an S-type instruction, or a
    /// LoongArch address formed in two instructions.
    RiscVLow125OtLoongArch32or64MarkLa,
    /// A MIPS16 jump instruction.
    MipsJmpAddr16,
    /// Applies the difference to the 64-bit field at offset.
    Dir64,
}

impl BaseRelocationType {
    /// The error for a number that names no relocation type.
    pub open spec fn invalid() -> PerwError {
        PerwError::InvalidImageFormat { message: "Invalid base relcation type.." }
    }

    /// The number that stands for the type.
    pub open spec fn spec_to_u8(&self) -> u8 {
        match self {
            Self::Absolute => 0,
            Self::High => 1,
            Self::Low => 2,
            Self::HighLow => 3,
            Self::HighAdj => 4,
            Self::MipsJmpAddrOrArmMove32OrRscvHigh20 => 5,
            Self::Reserved => 6,
            Self::ThumbMov32OrRiscVLow121 => 7,
            Self::RiscVLow125OtLoongArch32or64MarkLa => 8,
            Self::MipsJmpAddr16 => 9,
            Self::Dir64 => 10,
        }
    }

    /// The type that a number stands for; the numbers above 10 name none.
    pub open spec fn spec_from_u8(value: u8) -> Result<Self, PerwError> {
        match value {
            0 => Ok(Self::Absolute),
            1 => Ok(Self::High),
            2 => Ok(Self::Low),
            3 => Ok(Self::HighLow),
            4 => Ok(Self::HighAdj),
            5 => Ok(Self::MipsJmpAddrOrArmMove32OrRscvHigh20),
            6 => Ok(Self::Reserved),
            7 => Ok(Self::ThumbMov32OrRiscVLow121),
            8 => Ok(Self::RiscVLow125OtLoongArch32or64MarkLa),
            9 => Ok(Self::MipsJmpAddr16),
            10 => Ok(Self::Dir64),
            _ => Err(Self::invalid()),
        }
    }

    /// The type that a number stands for, or an error for a number above 10.
    pub fn from_u8(value: u8) -> (r: Result<Self, PerwError>)
        ensures
            match Self::spec_from_u8(value) {
                Ok(reloc_type) => r == Ok::<Self, PerwError>(reloc_type) && value <= 10
                    && reloc_type.spec_to_u8() == value,
                Err(e) => r matches Err(got) && got == e && value > 10,
            },
    {
        let reloc_type = match value {
            0 => Self::Absolute,
            1 => Self::High,
            2 => Self::Low,
            3 => Self::HighLow,
            4 => Self::HighAdj,
            5 => Self::MipsJmpAddrOrArmMove32OrRscvHigh20,
            6 => Self::Reserved,
            7 => Self::ThumbMov32OrRiscVLow121,
            8 => Self::RiscVLow125OtLoongArch32or64MarkLa,
            9 => Self::MipsJmpAddr16,
            10 => Self::Dir64,
            _ => {
                return Err(PerwError::invalid_image_format("Invalid base relcation type.."));
            },
        };
        Ok(reloc_type)
    }

    /// The number that stands for the type.
    #[verifier::when_used_as_spec(spec_to_u8)]
    pub fn to_u8(&self) -> (value: u8)
        ensures
            value == self.spec_to_u8(),
            Self::spec_from_u8(value) == Ok::<Self, PerwError>(*self),
    {
        match self {
            Self::Absolute => 0,
            Self::High => 1,
            Self::Low => 2,
            Self::HighLow => 3,
            Self::HighAdj => 4,
            Self::MipsJmpAddrOrArmMove32OrRscvHigh20 => 5,
            Self::Reserved => 6,
            Self::ThumbMov32OrRiscVLow121 => 7,
            Self::RiscVLow125OtLoongArch32or64MarkLa => 8,
            Self::MipsJmpAddr16 => 9,
            Self::Dir64 => 10,
        }
    }
}

/// One entry of a relocation block: a word whose high 4 bits hold the type
/// and whose low 12 bits hold the offset in the page.
#[derive(Default, Copy, Clone, Debug, PartialEq, Eq)]
pub struct BaseRelocationBlockOffsets {
    /// The kind of fix to apply.
    pub relocation_type: BaseRelocationType,
    /// The offset in the page of the block at which to apply it.
    pub offset: u16,
}

/// The type bits of an entry word: its high 4 bits.
pub open spec fn spec_type_bits(value: u16) -> u8 {
    (value >> 12) as u8
}

/// The offset bits of an entry word: its low 12 bits.
pub open spec fn spec_offset_bits(value: u16) -> u16 {
    value & 0x0FFF
}

/// The type bits of an entry word.
pub fn type_bits(value: u16) -> (bits: u8)
    ensures
        bits == spec_type_bits(value),
        bits < 16,
{
    assert(value >> 12 < 16) by (bit_vector);
    (value >> 12) as u8
}

/// The offset bits of an entry word.
pub fn offset_bits(value: u16) -> (bits: u16)
    ensures
        bits == spec_offset_bits(value),
        bits < 4096,
{
    assert(value & 0x0FFF < 4096) by (bit_vector);
    value & 0x0FFF
}

impl BaseRelocationBlockOffsets {
    /// The size of an entry in bytes.
    pub const SIZE: usize = 2;

    /// The entry that a word stands for, or the error for type bits that
    /// name no relocation type.
    pub open spec fn spec_from_u16(value: u16) -> Result<Self, PerwError> {
        match BaseRelocationType::spec_from_u8(spec_type_bits(value)) {
            Ok(relocation_type) => Ok(
                BaseRelocationBlockOffsets { relocation_type, offset: spec_offset_bits(value) },
            ),
            Err(e) => Err(e),
        }
    }

    /// The word that stands for the entry. The offset counts with its low 12
    /// bits.
    pub open spec fn spec_to_u16(&self) -> u16 {
        ((self.relocation_type.spec_to_u8() as u16) << 12) | (self.offset & 0x0FFF)
    }

    /// The word that stands for the entry.
    pub fn to_u16(&self) -> (value: u16)
        ensures
            value == self.spec_to_u16(),
    {
        ((self.relocation_type.to_u8() as u16) << 12) | (self.offset & 0x0FFF)
    }

    /// An entry whose offset has no more than 12 bits is the entry that its
    /// word stands for.
    pub proof fn lemma_write_read(self)
        requires
            self.offset < 4096,
        ensures
            Self::spec_from_u16(self.spec_to_u16()) == Ok::<Self, PerwError>(self),
    {
        let t = self.relocation_type.spec_to_u8() as u16;
        let o = self.offset;
        assert(t <= 10);
        assert(((t << 12) | (o & 0x0FFF)) >> 12 == t && ((t << 12) | (o & 0x0FFF)) & 0x0FFF == o)
            by (bit_vector)
            requires
                t <= 10,
                o < 4096,
        ;
    }
}

impl ReadData for BaseRelocationBlockOffsets {
    open spec fn spec_read(bytes: Seq<u8>) -> Result<(Self, nat), PerwError> {
        if bytes.len() < 2 {
            Err(PerwError::NotEnoughDataLeft { attempted_read: 2 })
        } else {
            match Self::spec_from_u16(spec_u16_from_le_bytes(bytes.take(2))) {
                Ok(entry) => Ok((entry, 2)),
                Err(e) => Err(e),
            }
        }
    }

    fn read<'a, R: Reader<'a>>(reader: &mut R) -> (r: Result<Self, PerwError>) {
        let bytes = reader.read_slice(Self::SIZE)?;
        let value = u16_from_le_bytes(bytes);
        let relocation_type = BaseRelocationType::from_u8(type_bits(value))?;
        Ok(Self { relocation_type, offset: offset_bits(value) })
    }
}

impl WriteData for BaseRelocationBlockOffsets {
    open spec fn spec_write(&self) -> Result<Seq<u8>, PerwError> {
        Ok(spec_u16_to_le_bytes(self.spec_to_u16()))
    }

    fn to_bytes(&self) -> (r: Result<Vec<u8>, PerwError>) {
        Ok(u16_to_le_bytes(self.to_u16()))
    }
}

/// One block of the base relocation table: the relocations of one page.
#[derive(Default, Clone, Debug, PartialEq, Eq)]
pub struct BaseRelocationBlockHeader {
    /// The address of the page. It is added to each offset.
    pub base_rva: u32,
    /// The total number of bytes in the block: the 8 bytes of these two
    /// fields and the entries that follow.
    pub block_size: u32,
    /// The entries of the block.
    pub table: Table<BaseRelocationBlockOffsets>,
}

/// What a relocation block holds, as plain values.
pub struct BaseRelocationBlockView {
    pub base_rva: u32,
    pub block_size: u32,
    pub table: Seq<BaseRelocationBlockOffsets>,
}

impl View for BaseRelocationBlockHeader {
    type V = BaseRelocationBlockView;

    open spec fn view(&self) -> BaseRelocationBlockView {
        BaseRelocationBlockView {
            base_rva: self.base_rva,
            block_size: self.block_size,
            table: self.table@,
        }
    }
}

impl BaseRelocationBlockHeader {
    /// The size of the two fields that a block starts with, in bytes.
    pub const HEADER_SIZE: usize = 8;

    /// The error for a block that declares fewer bytes than its own two
    /// fields take.
    pub open spec fn bad_block_size() -> PerwError {
        PerwError::InvalidImageFormat { message: "Invalid base relocation block size." }
    }

    /// The entries that `bytes` hold, two bytes each, to the end of `bytes`.
    pub open spec fn spec_entries(bytes: Seq<u8>) -> Result<
        Seq<BaseRelocationBlockOffsets>,
        PerwError,
    >
        decreases bytes.len(),
    {
        if bytes.len() == 0 {
            Ok(Seq::empty())
        } else {
            match BaseRelocationBlockOffsets::spec_read(bytes) {
                Err(e) => Err(e),
                Ok((entry, _)) => spec_prepend(seq![entry], Self::spec_entries(bytes.skip(2))),
            }
        }
    }

    /// The block that `bytes` start with and the count of bytes that it
    /// takes, which is its `block_size`.
    pub open spec fn spec_read(bytes: Seq<u8>) -> Result<(BaseRelocationBlockView, nat), PerwError> {
        if bytes.len() < 8 {
            Err(PerwError::NotEnoughDataLeft { attempted_read: 8 })
        } else {
            let base_rva = u32_at(bytes, 0);
            let block_size = u32_at(bytes, 4);
            if block_size < 8 {
                Err(Self::bad_block_size())
            } else if bytes.len() < block_size {
                Err(PerwError::NotEnoughDataLeft { attempted_read: (block_size - 8) as usize })
            } else {
                match Self::spec_entries(bytes.subrange(8, block_size as int)) {
                    Err(e) => Err(e),
                    Ok(table) => Ok(
                        (BaseRelocationBlockView { base_rva, block_size, table }, block_size as nat),
                    ),
                }
            }
        }
    }

    /// The 8 bytes of the two fields that the block starts with.
    pub open spec fn spec_encode_header(&self) -> Seq<u8> {
        le32(self.base_rva) + le32(self.block_size)
    }

    /// Entries that decode are half as many as the bytes that hold them.
    pub proof fn lemma_entries_len(bytes: Seq<u8>)
        requires
            Self::spec_entries(bytes) is Ok,
        ensures
            2 * Self::spec_entries(bytes)->Ok_0.len() == bytes.len(),
        decreases bytes.len(),
    {
        if bytes.len() != 0 {
            Self::lemma_entries_len(bytes.skip(2));
        }
    }

    /// A block that decodes and declares `8 + 2 * n` bytes holds exactly `n`
    /// entries, and takes exactly the bytes that it declares.
    pub proof fn lemma_block_entry_count(bytes: Seq<u8>)
        requires
            Self::spec_read(bytes) is Ok,
        ensures
            ({
                let (block, taken) = Self::spec_read(bytes)->Ok_0;
                &&& block.block_size == 8 + 2 * block.table.len()
                &&& taken == block.block_size
                &&& block.block_size == u32_at(bytes, 4)
            }),
    {
        let block_size = u32_at(bytes, 4);
        Self::lemma_entries_len(bytes.subrange(8, block_size as int));
    }

    /// Reads the entries that `data` hold to its end.
    pub fn read_entries(data: &[u8]) -> (r: Result<Table<BaseRelocationBlockOffsets>, PerwError>)
        ensures
            match Self::spec_entries(data@) {
                Ok(entries) => r matches Ok(got) && got@ == entries,
                Err(e) => r matches Err(got) && got == e,
            },
    {
        let mut relocation_data = data;
        let mut table: Vec<BaseRelocationBlockOffsets> = Vec::new();
        let ghost whole = Self::spec_entries(data@);
        assert(spec_prepend(table@, whole) =~= whole) by {
            if whole is Ok {
                assert(table@ + whole->Ok_0 =~= whole->Ok_0);
            }
        }
        while !relocation_data.is_empty()
            invariant
                whole == Self::spec_entries(data@),
                whole == spec_prepend(table@, Self::spec_entries(relocation_data@)),
            decreases relocation_data@.len(),
        {
            let entry = BaseRelocationBlockOffsets::read(&mut relocation_data)?;
            proof {
                let rest = Self::spec_entries(relocation_data@);
                if rest is Ok {
                    assert(table@ + (seq![entry] + rest->Ok_0) =~= table@.push(entry)
                        + rest->Ok_0);
                }
            }
            table.push(entry);
        }
        assert(table@ + Seq::empty() =~= table@);
        Ok(Table(table))
    }

    /// Reads one block: its two fields and the entries that its size
    /// declares.
    pub fn read<'a, R: Reader<'a>>(reader: &mut R) -> (r: Result<Self, PerwError>)
        ensures
            match Self::spec_read(old(reader).unread()) {
                Ok((block, taken)) => {
                    &&& r matches Ok(got)
                    &&& got@ == block
                    &&& taken <= old(reader).unread().len()
                    &&& final(reader).unread() == old(reader).unread().skip(taken as int)
                },
                Err(e) => r matches Err(got) && got == e,
            },
    {
        let ghost bytes = old(reader).unread();
        let header = reader.read_slice(Self::HEADER_SIZE)?;
        let base_rva = u32_from_le_bytes(vstd::slice::slice_subrange(header, 0, 4));
        let block_size = u32_from_le_bytes(vstd::slice::slice_subrange(header, 4, 8));
        assert(header@.subrange(0, 4) =~= bytes.subrange(0, 4));
        assert(header@.subrange(4, 8) =~= bytes.subrange(4, 8));
        if block_size < 8 {
            return Err(PerwError::invalid_image_format("Invalid base relocation block size."));
        }
        let relocation_block_size = (block_size - 8) as usize;
        let relocation_data = reader.read_slice(relocation_block_size)?;
        assert(relocation_data@ =~= bytes.subrange(8, block_size as int));
        assert(reader.unread() =~= bytes.skip(block_size as int));
        let table = Self::read_entries(relocation_data)?;
        Ok(Self { base_rva, block_size, table })
    }

    /// The 8 bytes of the two fields that the block starts with.
    pub fn header_to_bytes(&self) -> (out: Vec<u8>)
        ensures
            out@ == self.spec_encode_header(),
    {
        let mut out = Vec::new();
        put_u32(&mut out, self.base_rva);
        put_u32(&mut out, self.block_size);
        assert(out@ =~= self.spec_encode_header());
        out
    }
}

/// The base relocation table of an image, decoded: its blocks in order.
#[derive(Default, Clone, Debug, PartialEq, Eq)]
pub struct BaseRelocationDataDitectory {
    pub relocations: Table<BaseRelocationBlockHeader>,
}

/// The views of the blocks, in order.
pub open spec fn spec_block_views(blocks: Seq<BaseRelocationBlockHeader>) -> Seq<
    BaseRelocationBlockView,
> {
    Seq::new(blocks.len(), |i: int| blocks[i]@)
}

impl View for BaseRelocationDataDitectory {
    type V = Seq<BaseRelocationBlockView>;

    open spec fn view(&self) -> Seq<BaseRelocationBlockView> {
        spec_block_views(self.relocations@)
    }
}

impl BaseRelocationDataDitectory {
    /// The blocks that the bytes of the directory hold, one after the other
    /// to the end of the bytes.
    pub open spec fn spec_parse(section_data: Seq<u8>) -> Result<
        Seq<BaseRelocationBlockView>,
        PerwError,
    >
        decreases section_data.len(),
    {
        if section_data.len() == 0 {
            Ok(Seq::empty())
        } else {
            match BaseRelocationBlockHeader::spec_read(section_data) {
                Err(e) => Err(e),
                Ok((block, taken)) => if taken < 8 {
                    Err(BaseRelocationBlockHeader::bad_block_size())
                } else {
                    spec_prepend(seq![block], Self::spec_parse(section_data.skip(taken as int)))
                },
            }
        }
    }

    /// Decodes the base relocation table from the bytes of its directory.
    pub fn parse(section_data: &[u8]) -> (r: Result<Self, PerwError>)
        ensures
            match Self::spec_parse(section_data@) {
                Ok(blocks) => r matches Ok(got) && got@ == blocks,
                Err(e) => r matches Err(got) && got == e,
            },
    {
        let mut data_ptr = section_data;
        let mut relocations: Vec<BaseRelocationBlockHeader> = Vec::new();
        let ghost whole = Self::spec_parse(section_data@);
        assert(spec_prepend(spec_block_views(relocations@), whole) =~= whole) by {
            if whole is Ok {
                assert(spec_block_views(relocations@) + whole->Ok_0 =~= whole->Ok_0);
            }
        }
        while !data_ptr.is_empty()
            invariant
                whole == Self::spec_parse(section_data@),
                whole == spec_prepend(spec_block_views(relocations@), Self::spec_parse(data_ptr@)),
            decreases data_ptr@.len(),
        {
            let ghost before = data_ptr@;
            let block = BaseRelocationBlockHeader::read(&mut data_ptr)?;
            proof {
                BaseRelocationBlockHeader::lemma_block_entry_count(before);
                let rest = Self::spec_parse(data_ptr@);
                let have = spec_block_views(relocations@);
                assert(spec_block_views(relocations@.push(block)) =~= have.push(block@));
                if rest is Ok {
                    assert(have + (seq![block@] + rest->Ok_0) =~= have.push(block@) + rest->Ok_0);
                }
            }
            relocations.push(block);
        }
        assert(spec_block_views(relocations@) + Seq::empty() =~= spec_block_views(relocations@));
        Ok(Self { relocations: Table(relocations) })
    }
}


impl RoundTrip for BaseRelocationBlockOffsets {
    open spec fn spec_canonical(&self) -> bool {
        self.offset < 4096
    }

    proof fn lemma_round_trip(&self) {
        lemma_auto_spec_u16_to_from_le_bytes();
        BaseRelocationBlockOffsets::lemma_write_read(*self);
        let bytes = spec_u16_to_le_bytes(self.spec_to_u16());
        assert(bytes.take(2) =~= bytes);
    }
}

} // verus!
