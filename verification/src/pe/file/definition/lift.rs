//! How the rows of a parsed image become the sections of a definition.
use super::sections::{SectionDefinitionsView, SectionHeapView};
use crate::pe::sections::SectionTableRow;
use vstd::prelude::*;
use vstd::utf8::{decode_utf8, valid_utf8};

verus! {

/// The bytes of the name `.text`.
pub open spec fn spec_text_name() -> Seq<u8> {
    seq![0x2Eu8, 0x74u8, 0x65u8, 0x78u8, 0x74u8]
}

/// The bytes of the name `.data`.
pub open spec fn spec_data_name() -> Seq<u8> {
    seq![0x2Eu8, 0x64u8, 0x61u8, 0x74u8, 0x61u8]
}

/// The bytes of the name `.rdata`.
pub open spec fn spec_rdata_name() -> Seq<u8> {
    seq![0x2Eu8, 0x72u8, 0x64u8, 0x61u8, 0x74u8, 0x61u8]
}

/// The bytes of the name `.reloc`.
pub open spec fn spec_reloc_name() -> Seq<u8> {
    seq![0x2Eu8, 0x72u8, 0x65u8, 0x6Cu8, 0x6Fu8, 0x63u8]
}

/// The bytes of the name `.pdata`.
pub open spec fn spec_pdata_name() -> Seq<u8> {
    seq![0x2Eu8, 0x70u8, 0x64u8, 0x61u8, 0x74u8, 0x61u8]
}

/// The section heap that a row of a parsed image is lifted to: its name as
/// text, its address, size and characteristics, and the raw data that the
/// row points to in `file`. Where the file does not hold all of the raw
/// data, the heap holds no data.
pub open spec fn spec_lift_row(row: SectionTableRow, file: Seq<u8>) -> SectionHeapView {
    SectionHeapView {
        name: if valid_utf8(row.spec_name_bytes()) {
            decode_utf8(row.spec_name_bytes())
        } else {
            Seq::empty()
        },
        virtual_address: row.virtual_address,
        virtual_size: row.virtual_size,
        characteristics: row.characteristics,
        data: if row.pointer_to_raw_data + row.size_of_raw_data <= file.len() {
            file.subrange(
                row.pointer_to_raw_data as int,
                row.pointer_to_raw_data + row.size_of_raw_data,
            )
        } else {
            Seq::empty()
        },
    }
}

/// The sections with one more section put in: into the field of its name
/// where the name is that of a well known section, else behind the other
/// sections.
pub open spec fn spec_place(
    sections: SectionDefinitionsView,
    name: Seq<u8>,
    heap: SectionHeapView,
) -> SectionDefinitionsView {
    if name == spec_text_name() {
        SectionDefinitionsView { text: Some(heap), ..sections }
    } else if name == spec_data_name() {
        SectionDefinitionsView { data: Some(heap), ..sections }
    } else if name == spec_rdata_name() {
        SectionDefinitionsView { rdata: Some(heap), ..sections }
    } else if name == spec_reloc_name() {
        SectionDefinitionsView { reloc: Some(heap), ..sections }
    } else if name == spec_pdata_name() {
        SectionDefinitionsView { pdata: Some(heap), ..sections }
    } else {
        SectionDefinitionsView { other: sections.other.push(heap), ..sections }
    }
}

/// The sections that the rows of a parsed image are lifted to, put in one
/// after the other.
pub open spec fn spec_lift(rows: Seq<SectionTableRow>, file: Seq<u8>) -> SectionDefinitionsView
    decreases rows.len(),
{
    if rows.len() == 0 {
        SectionDefinitionsView {
            text: None,
            data: None,
            rdata: None,
            pdata: None,
            reloc: None,
            other: Seq::empty(),
        }
    } else {
        spec_place(
            spec_lift(rows.drop_last(), file),
            rows.last().spec_name_bytes(),
            spec_lift_row(rows.last(), file),
        )
    }
}

/// Whether two runs of bytes are the same.
pub fn bytes_equal(a: &[u8], b: &[u8]) -> (same: bool)
    ensures
        same == (a@ == b@),
{
    if a.len() != b.len() {
        return false;
    }
    let mut i: usize = 0;
    while i < a.len()
        invariant
            i <= a@.len(),
            a@.len() == b@.len(),
            forall|k: int| 0 <= k < i ==> a@[k] == b@[k],
        decreases a@.len() - i,
    {
        if a[i] != b[i] {
            return false;
        }
        i += 1;
    }
    assert(a@ =~= b@);
    true
}

} // verus!
