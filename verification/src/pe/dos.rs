//! The MS-DOS header that every image starts with. Its last field holds the
//! file offset of the PE signature.
use crate::error::PerwError;
use crate::io::{
    array_of, fixed_read, get_u16, get_u16_array, get_u32, le16, le16_seq, le32, lemma_array_of,
    lemma_array_of_view, lemma_le16_seq, lemma_le16_seq_at, put_u16, put_u16_array, put_u32,
    u16_array_at, u16_at, u32_at, ReadData, Reader, RoundTrip, WriteData,
};
use vstd::bytes::*;
use vstd::prelude::*;

verus! {

/// The legacy header at offset 0 of an image.
#[derive(Clone, Debug, PartialEq, Eq)]
pub struct ImageDosHeader {
    /// Magic number
    pub e_magic: u16,
    /// Bytes on last page of file
    pub e_cblp: u16,
    /// Pages in file
    pub e_cp: u16,
    /// Relocations
    pub e_crlc: u16,
    /// Size of header in paragraphs
    pub e_cparhdr: u16,
    /// Minimum extra paragraphs needed
    pub e_minalloc: u16,
    /// Maximum extra paragraphs needed
    pub e_maxalloc: u16,
    /// Initial (relative) SS value
    pub e_ss: u16,
    /// Initial SP value
    pub e_sp: u16,
    /// Checksum
    pub e_csum: u16,
    /// Initial IP value
    pub e_ip: u16,
    /// Initial (relative) CS value
    pub e_cs: u16,
    /// File address of relocation table
    pub e_lfarlc: u16,
    /// Overlay number
    pub e_ovno: u16,
    /// Reserved words
    pub e_res: [u16; 4],
    /// OEM identifier (for e_oeminfo)
    pub e_oemid: u16,
    /// OEM information; e_oemid specific
    pub e_oeminfo: u16,
    /// Reserved words
    pub e_res2: [u16; 10],
    /// File address of the PE signature
    pub e_lfanew: u32,
}

impl ImageDosHeader {
    /// The expected value of `e_magic`: the letters "MZ".
    pub const MAGIC_CONSTANT: u16 = 0x5A4D;

    /// The size of the header in bytes.
    pub const SIZE: usize = 64;

    /// The header with every field zero.
    pub open spec fn spec_zero() -> Self {
        ImageDosHeader {
            e_magic: 0,
            e_cblp: 0,
            e_cp: 0,
            e_crlc: 0,
            e_cparhdr: 0,
            e_minalloc: 0,
            e_maxalloc: 0,
            e_ss: 0,
            e_sp: 0,
            e_csum: 0,
            e_ip: 0,
            e_cs: 0,
            e_lfarlc: 0,
            e_ovno: 0,
            e_res: array_of(Seq::new(4, |i: int| 0u16)),
            e_oemid: 0,
            e_oeminfo: 0,
            e_res2: array_of(Seq::new(10, |i: int| 0u16)),
            e_lfanew: 0,
        }
    }

    /// The header that 64 bytes stand for.
    pub open spec fn spec_decode(bytes: Seq<u8>) -> Self {
        ImageDosHeader {
            e_magic: u16_at(bytes, 0),
            e_cblp: u16_at(bytes, 2),
            e_cp: u16_at(bytes, 4),
            e_crlc: u16_at(bytes, 6),
            e_cparhdr: u16_at(bytes, 8),
            e_minalloc: u16_at(bytes, 10),
            e_maxalloc: u16_at(bytes, 12),
            e_ss: u16_at(bytes, 14),
            e_sp: u16_at(bytes, 16),
            e_csum: u16_at(bytes, 18),
            e_ip: u16_at(bytes, 20),
            e_cs: u16_at(bytes, 22),
            e_lfarlc: u16_at(bytes, 24),
            e_ovno: u16_at(bytes, 26),
            e_res: u16_array_at::<4>(bytes, 28),
            e_oemid: u16_at(bytes, 36),
            e_oeminfo: u16_at(bytes, 38),
            e_res2: u16_array_at::<10>(bytes, 40),
            e_lfanew: u32_at(bytes, 60),
        }
    }

    /// The 64 bytes that stand for the header.
    pub open spec fn spec_encode(&self) -> Seq<u8> {
        le16(self.e_magic) + le16(self.e_cblp) + le16(self.e_cp) + le16(self.e_crlc) + le16(
            self.e_cparhdr,
        ) + le16(self.e_minalloc) + le16(self.e_maxalloc) + le16(self.e_ss) + le16(self.e_sp)
            + le16(self.e_csum) + le16(self.e_ip) + le16(self.e_cs) + le16(self.e_lfarlc) + le16(
            self.e_ovno,
        ) + le16_seq(self.e_res@) + le16(self.e_oemid) + le16(self.e_oeminfo) + le16_seq(
            self.e_res2@,
        ) + le32(self.e_lfanew)
    }

    /// Decodes a header from exactly 64 bytes.
    pub(crate) fn decode(bytes: &[u8]) -> (header: Self)
        requires
            bytes@.len() == Self::SIZE,
        ensures
            header == Self::spec_decode(bytes@),
    {
        ImageDosHeader {
            e_magic: get_u16(bytes, 0),
            e_cblp: get_u16(bytes, 2),
            e_cp: get_u16(bytes, 4),
            e_crlc: get_u16(bytes, 6),
            e_cparhdr: get_u16(bytes, 8),
            e_minalloc: get_u16(bytes, 10),
            e_maxalloc: get_u16(bytes, 12),
            e_ss: get_u16(bytes, 14),
            e_sp: get_u16(bytes, 16),
            e_csum: get_u16(bytes, 18),
            e_ip: get_u16(bytes, 20),
            e_cs: get_u16(bytes, 22),
            e_lfarlc: get_u16(bytes, 24),
            e_ovno: get_u16(bytes, 26),
            e_res: get_u16_array::<4>(bytes, 28),
            e_oemid: get_u16(bytes, 36),
            e_oeminfo: get_u16(bytes, 38),
            e_res2: get_u16_array::<10>(bytes, 40),
            e_lfanew: get_u32(bytes, 60),
        }
    }

    /// A header that is written and read again is the same header, and its
    /// encoding has exactly 64 bytes.
    pub proof fn lemma_write_read(self)
        ensures
            self.spec_encode().len() == Self::SIZE,
            Self::spec_decode(self.spec_encode()) == self,
            Self::spec_read(self.spec_encode()) == Ok::<(Self, nat), PerwError>((self, 64)),
    {
        broadcast use vstd::array::group_array_axioms;

        lemma_auto_spec_u16_to_from_le_bytes();
        lemma_auto_spec_u32_to_from_le_bytes();
        lemma_le16_seq(self.e_res@);
        lemma_le16_seq(self.e_res2@);
        let b = self.spec_encode();
        assert(b.len() == 64);
        let d = Self::spec_decode(b);
        assert(b.subrange(0, 2) =~= le16(self.e_magic));
        assert(b.subrange(2, 4) =~= le16(self.e_cblp));
        assert(b.subrange(4, 6) =~= le16(self.e_cp));
        assert(b.subrange(6, 8) =~= le16(self.e_crlc));
        assert(b.subrange(8, 10) =~= le16(self.e_cparhdr));
        assert(b.subrange(10, 12) =~= le16(self.e_minalloc));
        assert(b.subrange(12, 14) =~= le16(self.e_maxalloc));
        assert(b.subrange(14, 16) =~= le16(self.e_ss));
        assert(b.subrange(16, 18) =~= le16(self.e_sp));
        assert(b.subrange(18, 20) =~= le16(self.e_csum));
        assert(b.subrange(20, 22) =~= le16(self.e_ip));
        assert(b.subrange(22, 24) =~= le16(self.e_cs));
        assert(b.subrange(24, 26) =~= le16(self.e_lfarlc));
        assert(b.subrange(26, 28) =~= le16(self.e_ovno));
        assert(b.subrange(36, 38) =~= le16(self.e_oemid));
        assert(b.subrange(38, 40) =~= le16(self.e_oeminfo));
        assert(b.subrange(60, 64) =~= le32(self.e_lfanew));
        let res = Seq::new(4, |i: int| u16_at(b, 28 + 2 * i));
        assert(res =~= self.e_res@) by {
            assert forall|i: int| 0 <= i < 4 implies res[i] == self.e_res@[i] by {
                assert(b.subrange(28 + 2 * i, 28 + 2 * i + 2) =~= le16_seq(self.e_res@).subrange(
                    2 * i,
                    2 * i + 2,
                ));
                assert(u16_at(le16_seq(self.e_res@), 2 * i) == self.e_res@[i]);
            }
        }
        let res2 = Seq::new(10, |i: int| u16_at(b, 40 + 2 * i));
        assert(res2 =~= self.e_res2@) by {
            assert forall|i: int| 0 <= i < 10 implies res2[i] == self.e_res2@[i] by {
                assert(b.subrange(40 + 2 * i, 40 + 2 * i + 2) =~= le16_seq(
                    self.e_res2@,
                ).subrange(2 * i, 2 * i + 2));
                assert(u16_at(le16_seq(self.e_res2@), 2 * i) == self.e_res2@[i]);
            }
        }
        lemma_array_of_view::<u16, 4>(self.e_res);
        lemma_array_of_view::<u16, 10>(self.e_res2);
        assert(d.e_res == self.e_res);
        assert(d.e_res2 == self.e_res2);
        assert(b.take(64) =~= b);
    }
}

impl ImageDosHeader {
    /// Sixty-four bytes that are read and written again are the same bytes.
    pub proof fn lemma_read_write(bytes: Seq<u8>)
        requires
            bytes.len() == Self::SIZE,
        ensures
            Self::spec_decode(bytes).spec_encode() == bytes,
    {
        broadcast use vstd::array::group_array_axioms;

        lemma_auto_spec_u16_to_from_le_bytes();
        lemma_auto_spec_u32_to_from_le_bytes();
        let h = Self::spec_decode(bytes);
        lemma_array_of::<u16, 4>(Seq::new(4, |i: int| u16_at(bytes, 28 + 2 * i)));
        lemma_array_of::<u16, 10>(Seq::new(10, |i: int| u16_at(bytes, 40 + 2 * i)));
        lemma_le16_seq_at(bytes, 28, 4);
        lemma_le16_seq_at(bytes, 40, 10);
        assert(le16_seq(h.e_res@) == bytes.subrange(28, 36));
        assert(le16_seq(h.e_res2@) == bytes.subrange(40, 60));
        assert(h.spec_encode() =~= bytes.subrange(0, 2) + bytes.subrange(2, 4) + bytes.subrange(
            4,
            6,
        ) + bytes.subrange(6, 8) + bytes.subrange(8, 10) + bytes.subrange(10, 12)
            + bytes.subrange(12, 14) + bytes.subrange(14, 16) + bytes.subrange(16, 18)
            + bytes.subrange(18, 20) + bytes.subrange(20, 22) + bytes.subrange(22, 24)
            + bytes.subrange(24, 26) + bytes.subrange(26, 28) + bytes.subrange(28, 36)
            + bytes.subrange(36, 38) + bytes.subrange(38, 40) + bytes.subrange(40, 60)
            + bytes.subrange(60, 64));
        assert(h.spec_encode() =~= bytes);
    }
}

impl Default for ImageDosHeader {
    /// The header with every field zero.
    fn default() -> (header: Self)
        ensures
            header == Self::spec_zero(),
    {
        broadcast use vstd::array::group_array_axioms;

        let header = ImageDosHeader {
            e_magic: 0,
            e_cblp: 0,
            e_cp: 0,
            e_crlc: 0,
            e_cparhdr: 0,
            e_minalloc: 0,
            e_maxalloc: 0,
            e_ss: 0,
            e_sp: 0,
            e_csum: 0,
            e_ip: 0,
            e_cs: 0,
            e_lfarlc: 0,
            e_ovno: 0,
            e_res: [0u16;4],
            e_oemid: 0,
            e_oeminfo: 0,
            e_res2: [0u16;10],
            e_lfanew: 0,
        };
        proof {
            lemma_array_of::<u16, 4>(Seq::new(4, |i: int| 0u16));
            lemma_array_of::<u16, 10>(Seq::new(10, |i: int| 0u16));
            assert(header.e_res =~= Self::spec_zero().e_res);
            assert(header.e_res2 =~= Self::spec_zero().e_res2);
        }
        header
    }
}

impl ReadData for ImageDosHeader {
    open spec fn spec_read(bytes: Seq<u8>) -> Result<(Self, nat), PerwError> {
        fixed_read(bytes, 64, Self::spec_decode(bytes.take(64)))
    }

    fn read<'a, R: Reader<'a>>(reader: &mut R) -> (r: Result<Self, PerwError>) {
        let bytes = reader.read_slice(Self::SIZE)?;
        Ok(Self::decode(bytes))
    }
}

impl WriteData for ImageDosHeader {
    open spec fn spec_write(&self) -> Result<Seq<u8>, PerwError> {
        Ok(self.spec_encode())
    }

    fn to_bytes(&self) -> (r: Result<Vec<u8>, PerwError>) {
        let mut out = Vec::new();
        put_u16(&mut out, self.e_magic);
        put_u16(&mut out, self.e_cblp);
        put_u16(&mut out, self.e_cp);
        put_u16(&mut out, self.e_crlc);
        put_u16(&mut out, self.e_cparhdr);
        put_u16(&mut out, self.e_minalloc);
        put_u16(&mut out, self.e_maxalloc);
        put_u16(&mut out, self.e_ss);
        put_u16(&mut out, self.e_sp);
        put_u16(&mut out, self.e_csum);
        put_u16(&mut out, self.e_ip);
        put_u16(&mut out, self.e_cs);
        put_u16(&mut out, self.e_lfarlc);
        put_u16(&mut out, self.e_ovno);
        put_u16_array::<4>(&mut out, &self.e_res);
        put_u16(&mut out, self.e_oemid);
        put_u16(&mut out, self.e_oeminfo);
        put_u16_array::<10>(&mut out, &self.e_res2);
        put_u32(&mut out, self.e_lfanew);
        assert(out@ =~= self.spec_encode());
        Ok(out)
    }
}


impl RoundTrip for ImageDosHeader {
    open spec fn spec_canonical(&self) -> bool {
        true
    }

    proof fn lemma_round_trip(&self) {
        self.lemma_write_read();
    }
}

} // verus!
