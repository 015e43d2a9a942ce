//! The layout of a file that is written: alignment, the rows of the section
//! table, and the file offsets of the data of the sections.
use super::sections::SectionHeapView;
use crate::io::array_of;
use crate::pe::sections::SectionTableRow;
use vstd::prelude::*;

verus! {

/// The least multiple of `alignment` that is not below `x`. An alignment of
/// 0 aligns nothing.
pub open spec fn spec_align_up(x: int, alignment: int) -> int {
    if alignment <= 0 || x % alignment == 0 {
        x
    } else {
        x + (alignment - x % alignment)
    }
}

/// The least multiple of `alignment` that is not below `x`.
pub fn align_up(x: usize, alignment: usize) -> (aligned: usize)
    requires
        spec_align_up(x as int, alignment as int) <= usize::MAX,
    ensures
        aligned == spec_align_up(x as int, alignment as int),
        x <= aligned,
{
    if alignment == 0 || x % alignment == 0 {
        x
    } else {
        x + (alignment - x % alignment)
    }
}

/// The least multiple of `alignment` that is not below `x`, where the machine
/// can hold it.
pub fn checked_align_up(x: usize, alignment: usize) -> (aligned: Option<usize>)
    ensures
        match aligned {
            Some(value) => value == spec_align_up(x as int, alignment as int),
            None => spec_align_up(x as int, alignment as int) > usize::MAX,
        },
{
    if alignment == 0 || x % alignment == 0 {
        Some(x)
    } else {
        x.checked_add(alignment - x % alignment)
    }
}

/// The sizes of the data of the sections, each taken up to a multiple of
/// `alignment`, in sum.
pub open spec fn spec_sections_size(sections: Seq<SectionHeapView>, alignment: int) -> int
    decreases sections.len(),
{
    if sections.len() == 0 {
        0
    } else {
        spec_sections_size(sections.drop_last(), alignment) + spec_align_up(
            sections.last().data.len() as int,
            alignment,
        )
    }
}

/// The eight bytes that a file holds for a section name: its first eight
/// characters, each cut to a byte, filled up with NUL bytes.
pub open spec fn spec_name_field(name: Seq<char>) -> [u8; 8] {
    array_of(
        Seq::new(
            8,
            |i: int|
                if i < name.len() {
                    name[i] as u8
                } else {
                    0u8
                },
        ),
    )
}

/// The row of the section table for a section whose data go to the file
/// offset `data_offset`. Sizes and offsets that do not fit in 32 bits are cut
/// to 32 bits.
pub open spec fn spec_row(section: SectionHeapView, data_offset: int) -> SectionTableRow {
    SectionTableRow {
        name: spec_name_field(section.name),
        virtual_size: if section.virtual_size >= (section.data.len() as u32) {
            section.virtual_size
        } else {
            section.data.len() as u32
        },
        virtual_address: section.virtual_address,
        size_of_raw_data: section.data.len() as u32,
        pointer_to_raw_data: data_offset as u32,
        pointer_to_relocations: 0,
        pointer_to_line_numbers: 0,
        number_of_relocaions: 0,
        number_of_line_numbers: 0,
        characteristics: section.characteristics,
    }
}

/// The file offset behind the data of the sections, where the data of the
/// first go to `first`, and the data of each next section go to the next
/// multiple of `alignment` behind the data before.
pub open spec fn spec_data_end(sections: Seq<SectionHeapView>, first: int, alignment: int) -> int
    decreases sections.len(),
{
    if sections.len() == 0 {
        first
    } else {
        spec_align_up(
            spec_data_end(sections.drop_last(), first, alignment)
                + sections.last().data.len(),
            alignment,
        )
    }
}

/// The rows of the section table for the sections.
pub open spec fn spec_rows(sections: Seq<SectionHeapView>, first: int, alignment: int) -> Seq<
    SectionTableRow,
> {
    Seq::new(
        sections.len(),
        |i: int| spec_row(sections[i], spec_data_end(sections.take(i), first, alignment)),
    )
}

/// `buffer`, filled up with NUL bytes to the length `to` where it is
/// shorter.
pub open spec fn spec_pad_to(buffer: Seq<u8>, to: int) -> Seq<u8> {
    if buffer.len() < to {
        buffer + Seq::new((to - buffer.len()) as nat, |i: int| 0u8)
    } else {
        buffer
    }
}

/// `buffer` with the data of the sections behind it, each filled up to the
/// file offset that its row declares.
pub open spec fn spec_with_payloads(
    buffer: Seq<u8>,
    sections: Seq<SectionHeapView>,
    rows: Seq<SectionTableRow>,
) -> Seq<u8>
    decreases sections.len(),
{
    if sections.len() == 0 {
        buffer
    } else {
        spec_pad_to(
            spec_with_payloads(buffer, sections.drop_last(), rows),
            rows[sections.len() - 1].pointer_to_raw_data as int,
        ) + sections.last().data
    }
}

/// The data of the first sections end at a file offset that is not above the
/// one at which the data of all end.
pub proof fn lemma_data_end_bound(
    sections: Seq<SectionHeapView>,
    first: int,
    alignment: int,
    k: int,
)
    requires
        0 <= k <= sections.len(),
        0 <= alignment,
        0 <= first,
    ensures
        first <= spec_data_end(sections.take(k), first, alignment) <= spec_data_end(
            sections,
            first,
            alignment,
        ),
        k < sections.len() ==> spec_data_end(sections.take(k), first, alignment)
            + sections[k].data.len() <= spec_data_end(sections.take(k + 1), first, alignment),
    decreases sections.len() - k,
{
    if k < sections.len() {
        lemma_data_end_bound(sections, first, alignment, k + 1);
        assert(sections.take(k + 1).drop_last() =~= sections.take(k));
        assert(sections.take(k + 1).last() == sections[k]);
        lemma_data_end_from(sections.take(k), first, alignment);
        lemma_align_up_bounds(
            spec_data_end(sections.take(k), first, alignment) + sections[k].data.len(),
            alignment,
        );
    } else {
        assert(sections.take(k) =~= sections);
        lemma_data_end_from(sections, first, alignment);
    }
}

/// No data end before the file offset at which the first data start.
pub proof fn lemma_data_end_from(sections: Seq<SectionHeapView>, first: int, alignment: int)
    requires
        0 <= alignment,
        0 <= first,
    ensures
        first <= spec_data_end(sections, first, alignment),
    decreases sections.len(),
{
    if sections.len() > 0 {
        lemma_data_end_from(sections.drop_last(), first, alignment);
        lemma_align_up_bounds(
            spec_data_end(sections.drop_last(), first, alignment) + sections.last().data.len(),
            alignment,
        );
    }
}

/// The sizes of the first sections are in sum not above those of all, and
/// no aligned size is below the size that it stands for.
pub proof fn lemma_sections_size_bound(sections: Seq<SectionHeapView>, alignment: int, k: int)
    requires
        0 <= k <= sections.len(),
        0 <= alignment,
    ensures
        0 <= spec_sections_size(sections.take(k), alignment) <= spec_sections_size(
            sections,
            alignment,
        ),
        k > 0 ==> spec_sections_size(sections.take(k), alignment) == spec_sections_size(
            sections.take(k - 1),
            alignment,
        ) + spec_align_up(sections[k - 1].data.len() as int, alignment),
        k > 0 ==> sections[k - 1].data.len() <= spec_align_up(
            sections[k - 1].data.len() as int,
            alignment,
        ),
    decreases sections.len() - k,
{
    if k < sections.len() {
        lemma_sections_size_bound(sections, alignment, k + 1);
        assert(sections.take(k + 1).drop_last() =~= sections.take(k));
    } else {
        assert(sections.take(k) =~= sections);
    }
    if k > 0 {
        assert(sections.take(k).drop_last() =~= sections.take(k - 1));
        assert(sections.take(k).last() == sections[k - 1]);
    }
    lemma_sections_size_nonnegative(sections.take(k), alignment);
}

/// A sum of aligned sizes is never negative.
pub proof fn lemma_sections_size_nonnegative(sections: Seq<SectionHeapView>, alignment: int)
    requires
        0 <= alignment,
    ensures
        0 <= spec_sections_size(sections, alignment),
    decreases sections.len(),
{
    if sections.len() > 0 {
        lemma_sections_size_nonnegative(sections.drop_last(), alignment);
    }
}

/// An aligned size is not below the size that it stands for and less than one
/// alignment above it, and it is a multiple of the alignment.
pub proof fn lemma_align_up_bounds(x: int, alignment: int)
    requires
        0 <= x,
        0 <= alignment,
    ensures
        x <= spec_align_up(x, alignment),
        alignment > 0 ==> spec_align_up(x, alignment) < x + alignment,
        alignment > 0 ==> spec_align_up(x, alignment) % alignment == 0,
{
    if alignment > 0 {
        let r = x % alignment;
        assert(0 <= r < alignment);
        if r != 0 {
            assert((x + (alignment - r)) % alignment == 0) by (nonlinear_arith)
                requires
                    r == x % alignment,
                    0 < r < alignment,
                    0 <= x,
            ;
        }
    }
}

} // verus!
