//! The sections of an image that is to be written: the bytes of each, and
//! the addresses at which they are to be loaded.
use crate::pe::sections::SectionFlags;
use vstd::prelude::*;

verus! {

/// The bytes of one section that is to be written, with the address at which
/// it is to be loaded. Set the address before data is added.
#[derive(Debug, Clone, Default, PartialEq, Eq)]
pub struct SectionHeap {
    /// The name of the section. A file holds its first eight characters.
    pub name: String,
    /// Where the section will be loaded into memory.
    pub virtual_address: u32,
    /// The size of the section in memory. Leave it zero for new sections.
    pub virtual_size: u32,
    pub characteristics: SectionFlags,
    pub data: Vec<u8>,
}

/// What a section heap holds, as plain values.
pub struct SectionHeapView {
    pub name: Seq<char>,
    pub virtual_address: u32,
    pub virtual_size: u32,
    pub characteristics: SectionFlags,
    pub data: Seq<u8>,
}

impl View for SectionHeap {
    type V = SectionHeapView;

    open spec fn view(&self) -> SectionHeapView {
        SectionHeapView {
            name: self.name@,
            virtual_address: self.virtual_address,
            virtual_size: self.virtual_size,
            characteristics: self.characteristics,
            data: self.data@,
        }
    }
}

impl SectionHeapView {
    /// The address behind the last byte of the data.
    pub open spec fn end_address(&self) -> int {
        self.virtual_address + self.data.len()
    }

    /// Whether the data hold the address.
    pub open spec fn spec_contains(&self, virtual_address: int) -> bool {
        self.virtual_address <= virtual_address < self.end_address()
    }
}

/// The start of the 4K region that follows the one that holds `addr`.
pub open spec fn spec_next_section(addr: int) -> int {
    (addr / 4096 + 1) * 4096
}

impl SectionHeap {
    /// Appends data to the heap and returns the address of its first byte.
    /// Where the address of the heap is zero, that is the offset in the heap.
    pub fn add_data(&mut self, data: &[u8]) -> (addr: usize)
        requires
            old(self)@.end_address() <= usize::MAX,
        ensures
            addr == old(self)@.end_address(),
            final(self)@ == (SectionHeapView { data: old(self)@.data + data@, ..old(self)@ }),
    {
        let addr: usize = self.virtual_address as usize + self.data.len();
        self.data.extend_from_slice(data);
        assert(self.data@ =~= old(self).data@ + data@);
        addr
    }

    /// The size of the data, taken up to the start of the next 4K region.
    pub fn virtual_size(&self) -> (size: usize)
        requires
            self@.data.len() + 4096 <= usize::MAX,
        ensures
            size == spec_next_section(self@.data.len() as int),
    {
        SectionDefinitions::allign_to_next_section(self.data.len())
    }

    /// The space that is left until a new 4K region has to be taken.
    pub fn remaining_section_size(&self) -> (size: usize)
        requires
            self@.data.len() + 4096 <= usize::MAX,
        ensures
            size == spec_next_section(self@.data.len() as int) - self@.data.len(),
            0 < size <= 4096,
    {
        self.virtual_size() - self.data.len()
    }
}

/// The sections of an image that is to be written. The named fields hold
/// well known sections for convenience; they are treated as the sections of
/// `other` are. A section with address 0 is left out of the image.
#[derive(Debug, Clone, Default, PartialEq, Eq)]
pub struct SectionDefinitions {
    /// The section `.text`: code
    pub text: Option<SectionHeap>,
    /// The section `.data`: initial values of variables
    pub data: Option<SectionHeap>,
    /// The section `.rdata`: read-only initialized data
    pub rdata: Option<SectionHeap>,
    /// The section `.pdata`: the exception table
    pub pdata: Option<SectionHeap>,
    /// The section `.reloc`: the relocation table
    pub reloc: Option<SectionHeap>,
    /// Other sections
    pub other: Vec<SectionHeap>,
}

/// The views of the heaps, in order.
pub open spec fn spec_heap_views(heaps: Seq<SectionHeap>) -> Seq<SectionHeapView> {
    Seq::new(heaps.len(), |i: int| heaps[i]@)
}

/// The section of a named field, if the field holds one.
pub open spec fn spec_named(heap: Option<SectionHeap>) -> Seq<SectionHeapView> {
    match heap {
        Some(heap) => seq![heap@],
        None => Seq::empty(),
    }
}

/// The sections of `all` that have an address other than 0, in order.
pub open spec fn spec_included(all: Seq<SectionHeapView>) -> Seq<SectionHeapView>
    decreases all.len(),
{
    if all.len() == 0 {
        Seq::empty()
    } else if all.last().virtual_address != 0 {
        spec_included(all.drop_last()).push(all.last())
    } else {
        spec_included(all.drop_last())
    }
}

/// The greatest end address of the sections, or 0 where there is none.
pub open spec fn spec_max_end(sections: Seq<SectionHeapView>) -> int
    decreases sections.len(),
{
    if sections.len() == 0 {
        0
    } else {
        let before = spec_max_end(sections.drop_last());
        if sections.last().end_address() > before {
            sections.last().end_address()
        } else {
            before
        }
    }
}

/// The position of the first section from `from` on whose data hold the
/// address.
pub open spec fn spec_first_heap_from(
    sections: Seq<SectionHeapView>,
    virtual_address: int,
    from: int,
) -> Option<int>
    decreases sections.len() - from,
{
    if from < 0 || from >= sections.len() {
        None
    } else if sections[from].spec_contains(virtual_address) {
        Some(from)
    } else {
        spec_first_heap_from(sections, virtual_address, from + 1)
    }
}

/// The position of the section that resolves the address: the first whose
/// data hold it. Address 0 never resolves.
pub open spec fn spec_find_heap(sections: Seq<SectionHeapView>, virtual_address: int) -> Option<
    int,
> {
    if virtual_address == 0 {
        None
    } else {
        spec_first_heap_from(sections, virtual_address, 0)
    }
}

/// Whether the section at position `i` starts inside the data of another
/// section, or of an earlier section with the same start.
pub open spec fn spec_overlaps_at(sections: Seq<SectionHeapView>, i: int) -> bool {
    match spec_find_heap(sections, sections[i].virtual_address as int) {
        Some(j) => j != i,
        None => false,
    }
}

/// The sections that have an address other than 0 are the same after one
/// more section was taken in.
pub proof fn lemma_included_push(all: Seq<SectionHeapView>, heap: SectionHeapView)
    ensures
        spec_included(all.push(heap)) == if heap.virtual_address != 0 {
            spec_included(all).push(heap)
        } else {
            spec_included(all)
        },
{
    assert(all.push(heap).drop_last() =~= all);
}

/// The views of the heaps that the references point to, in order.
pub open spec fn spec_ref_views(heaps: Seq<&SectionHeap>) -> Seq<SectionHeapView> {
    Seq::new(heaps.len(), |i: int| heaps[i]@)
}

/// What the sections of a definition hold, as plain values.
pub struct SectionDefinitionsView {
    pub text: Option<SectionHeapView>,
    pub data: Option<SectionHeapView>,
    pub rdata: Option<SectionHeapView>,
    pub pdata: Option<SectionHeapView>,
    pub reloc: Option<SectionHeapView>,
    pub other: Seq<SectionHeapView>,
}

/// The view of the section of a named field.
pub open spec fn spec_named_view(heap: Option<SectionHeap>) -> Option<SectionHeapView> {
    match heap {
        Some(heap) => Some(heap@),
        None => None,
    }
}

impl View for SectionDefinitions {
    type V = SectionDefinitionsView;

    open spec fn view(&self) -> SectionDefinitionsView {
        SectionDefinitionsView {
            text: spec_named_view(self.text),
            data: spec_named_view(self.data),
            rdata: spec_named_view(self.rdata),
            pdata: spec_named_view(self.pdata),
            reloc: spec_named_view(self.reloc),
            other: spec_heap_views(self.other@),
        }
    }
}

impl SectionDefinitions {
    /// The alignment of the addresses of sections.
    pub const VIRTUAL_ADDRESS_ALIGNMENT: usize = 0x1000;

    /// Every section, named fields first, in the order in which an image
    /// holds them.
    pub open spec fn spec_all(&self) -> Seq<SectionHeapView> {
        spec_named(self.text) + spec_named(self.rdata) + spec_named(self.data) + spec_named(
            self.pdata,
        ) + spec_named(self.reloc) + spec_heap_views(self.other@)
    }

    /// The sections that an image holds: those with an address other than 0.
    pub open spec fn spec_sections(&self) -> Seq<SectionHeapView> {
        spec_included(self.spec_all())
    }

    /// The address at which the next section goes: the start of the 4K
    /// region behind the one that holds the greatest end address.
    pub open spec fn spec_next_virtual_address(&self) -> int {
        spec_next_section(spec_max_end(self.spec_sections()))
    }

    /// The definitions with no section.
    pub fn new() -> (sections: Self)
        ensures
            sections.spec_all() == Seq::<SectionHeapView>::empty(),
            sections.spec_sections() == Seq::<SectionHeapView>::empty(),
            sections.text is None,
            sections.data is None,
            sections.rdata is None,
            sections.pdata is None,
            sections.reloc is None,
            sections.other@ == Seq::<SectionHeap>::empty(),
    {
        let sections = SectionDefinitions {
            text: None,
            data: None,
            rdata: None,
            pdata: None,
            reloc: None,
            other: Vec::new(),
        };
        assert(sections.spec_all() =~= Seq::<SectionHeapView>::empty());
        sections
    }

    /// The start of the 4K region that follows the one that holds `addr`.
    pub fn allign_to_next_section(addr: usize) -> (next: usize)
        requires
            addr + 4096 <= usize::MAX,
        ensures
            next == spec_next_section(addr as int),
            addr < next <= addr + 4096,
    {
        (addr / Self::VIRTUAL_ADDRESS_ALIGNMENT + 1) * Self::VIRTUAL_ADDRESS_ALIGNMENT
    }

    /// Every section, named fields first.
    pub fn all_sections(&self) -> (sections: Vec<&SectionHeap>)
        ensures
            spec_ref_views(sections@) == self.spec_all(),
    {
        let mut sections: Vec<&SectionHeap> = Vec::new();
        if let Some(heap) = &self.text {
            sections.push(heap);
        }
        assert(spec_ref_views(sections@) =~= spec_named(self.text));
        let ghost one = sections@;
        if let Some(heap) = &self.rdata {
            sections.push(heap);
        }
        assert(spec_ref_views(sections@) =~= spec_ref_views(one) + spec_named(self.rdata));
        let ghost two = sections@;
        if let Some(heap) = &self.data {
            sections.push(heap);
        }
        assert(spec_ref_views(sections@) =~= spec_ref_views(two) + spec_named(self.data));
        let ghost three = sections@;
        if let Some(heap) = &self.pdata {
            sections.push(heap);
        }
        assert(spec_ref_views(sections@) =~= spec_ref_views(three) + spec_named(self.pdata));
        let ghost four = sections@;
        if let Some(heap) = &self.reloc {
            sections.push(heap);
        }
        assert(spec_ref_views(sections@) =~= spec_ref_views(four) + spec_named(self.reloc));
        let ghost named = sections@;
        let mut i: usize = 0;
        assert(spec_ref_views(sections@) =~= spec_ref_views(named) + spec_heap_views(
            self.other@.take(0),
        ));
        while i < self.other.len()
            invariant
                i <= self.other@.len(),
                spec_ref_views(sections@) == spec_ref_views(named) + spec_heap_views(
                    self.other@.take(i as int),
                ),
            decreases self.other@.len() - i,
        {
            let heap = &self.other[i];
            let ghost before = sections@;
            sections.push(heap);
            assert(spec_ref_views(sections@) =~= spec_ref_views(before).push(heap@));
            assert(spec_heap_views(self.other@.take(i + 1)) =~= spec_heap_views(
                self.other@.take(i as int),
            ).push(heap@));
            assert(spec_ref_views(sections@) =~= spec_ref_views(named) + spec_heap_views(
                self.other@.take(i + 1),
            ));
            i += 1;
        }
        assert(self.other@.take(self.other@.len() as int) =~= self.other@);
        sections
    }

    /// The sections that have an address other than 0, in the order in which
    /// an image holds them.
    pub fn iter_sections(&self) -> (sections: Vec<&SectionHeap>)
        ensures
            sections@.len() == self.spec_sections().len(),
            forall|i: int|
                0 <= i < sections@.len() ==> (#[trigger] sections@[i])@ == self.spec_sections()[i],
    {
        let all = self.all_sections();
        let ghost views = spec_ref_views(all@);
        let mut sections: Vec<&SectionHeap> = Vec::new();
        let mut i: usize = 0;
        assert(views.take(0) =~= Seq::<SectionHeapView>::empty());
        while i < all.len()
            invariant
                i <= all@.len(),
                views == spec_ref_views(all@),
                sections@.len() == spec_included(views.take(i as int)).len(),
                forall|k: int|
                    0 <= k < sections@.len() ==> (#[trigger] sections@[k])@ == spec_included(
                        views.take(i as int),
                    )[k],
            decreases all@.len() - i,
        {
            let heap = all[i];
            proof {
                lemma_included_push(views.take(i as int), heap@);
                assert(views.take(i + 1) =~= views.take(i as int).push(heap@));
            }
            if heap.virtual_address != 0 {
                sections.push(heap);
            }
            i += 1;
        }
        assert(views.take(views.len() as int) =~= views);
        sections
    }

    /// The count of sections that have an address other than 0.
    pub fn count(&self) -> (count: usize)
        ensures
            count == self.spec_sections().len(),
    {
        self.iter_sections().len()
    }

    /// The section that resolves the address: the first whose data hold it.
    /// Address 0 never resolves.
    pub fn find_rva(&self, virtual_address: usize) -> (heap: Option<&SectionHeap>)
        ensures
            match spec_find_heap(self.spec_sections(), virtual_address as int) {
                Some(i) => heap matches Some(found) && found@ == self.spec_sections()[i],
                None => heap is None,
            },
    {
        match self.find_rva_index(virtual_address) {
            Some((_, heap)) => Some(heap),
            None => None,
        }
    }

    /// The section that resolves the address, with its position among the
    /// sections that the image holds.
    pub fn find_rva_index(&self, virtual_address: usize) -> (found: Option<(usize, &SectionHeap)>)
        ensures
            match spec_find_heap(self.spec_sections(), virtual_address as int) {
                Some(i) => found matches Some((at, heap)) && at == i && heap@
                    == self.spec_sections()[i],
                None => found is None,
            },
    {
        if virtual_address == 0 {
            return None;
        }
        let sections = self.iter_sections();
        let ghost views = self.spec_sections();
        let mut i: usize = 0;
        while i < sections.len()
            invariant
                i <= sections@.len(),
                virtual_address != 0,
                views == self.spec_sections(),
                sections@.len() == views.len(),
                forall|k: int| 0 <= k < sections@.len() ==> (#[trigger] sections@[k])@ == views[k],
                spec_first_heap_from(views, virtual_address as int, 0) == spec_first_heap_from(
                    views,
                    virtual_address as int,
                    i as int,
                ),
            decreases sections@.len() - i,
        {
            let heap = sections[i];
            assert(heap@ == views[i as int]);
            let start = heap.virtual_address as u128;
            let end = start + heap.data.len() as u128;
            if virtual_address as u128 >= start && (virtual_address as u128) < end {
                assert(spec_first_heap_from(views, virtual_address as int, i as int) == Some(
                    i as int,
                ));
                return Some((i, heap));
            }
            i += 1;
        }
        None
    }

    /// Whether some section starts inside the data of another section.
    pub fn has_overlapping_sections(&self) -> (overlap: bool)
        ensures
            overlap == (exists|i: int|
                0 <= i < self.spec_sections().len() && spec_overlaps_at(self.spec_sections(), i)),
    {
        let sections = self.iter_sections();
        let ghost views = self.spec_sections();
        let mut i: usize = 0;
        while i < sections.len()
            invariant
                i <= sections@.len(),
                views == self.spec_sections(),
                sections@.len() == views.len(),
                forall|k: int| 0 <= k < sections@.len() ==> (#[trigger] sections@[k])@ == views[k],
                forall|k: int| 0 <= k < i ==> !spec_overlaps_at(views, k),
            decreases sections@.len() - i,
        {
            let section = sections[i];
            assert(section@ == views[i as int]);
            if let Some((at, _)) = self.find_rva_index(section.virtual_address as usize) {
                if at != i {
                    assert(spec_overlaps_at(views, i as int));
                    return true;
                }
            }
            i += 1;
        }
        false
    }

    /// Adds a section and returns its address. A section with address 0 gets
    /// the address that `next_virtual_address` gives, cut to 32 bits.
    pub fn add_section(&mut self, section: SectionHeap) -> (vaddr: usize)
        requires
            section.virtual_address == 0 ==> old(self).spec_next_virtual_address() <= usize::MAX,
        ensures
            vaddr == if section.virtual_address == 0 {
                old(self).spec_next_virtual_address() as u32
            } else {
                section.virtual_address
            },
            final(self).spec_all() == old(self).spec_all().push(
                SectionHeapView { virtual_address: vaddr as u32, ..section@ },
            ),
            final(self).other@.len() == old(self).other@.len() + 1,
            final(self).text == old(self).text,
            final(self).data == old(self).data,
            final(self).rdata == old(self).rdata,
            final(self).pdata == old(self).pdata,
            final(self).reloc == old(self).reloc,
    {
        let mut section = section;
        if section.virtual_address == 0 {
            section.virtual_address = #[verifier::truncate]
            (self.next_virtual_address() as u32);
        }
        let vaddr = section.virtual_address;
        self.other.push(section);
        assert(self.spec_all() =~= old(self).spec_all().push(section@)) by {
            assert(spec_heap_views(self.other@) =~= spec_heap_views(old(self).other@).push(
                section@,
            ));
        }
        vaddr as usize
    }

    /// The address at which the next section goes, where the machine can
    /// hold it.
    pub fn checked_next_virtual_address(&self) -> (addr: Option<usize>)
        ensures
            match addr {
                Some(value) => value == self.spec_next_virtual_address(),
                None => self.spec_next_virtual_address() > usize::MAX,
            },
    {
        let sections = self.iter_sections();
        let ghost views = self.spec_sections();
        let mut v_addr: usize = 0;
        let mut i: usize = 0;
        assert(views.take(0) =~= Seq::<SectionHeapView>::empty());
        while i < sections.len()
            invariant
                i <= sections@.len(),
                views == self.spec_sections(),
                sections@.len() == views.len(),
                forall|k: int| 0 <= k < sections@.len() ==> (#[trigger] sections@[k])@ == views[k],
                v_addr == spec_max_end(views.take(i as int)),
            decreases sections@.len() - i,
        {
            let heap = sections[i];
            assert(heap@ == views[i as int]);
            proof {
                assert(views.take(i + 1).drop_last() =~= views.take(i as int));
                lemma_max_end_bound(views, i + 1);
            }
            let heap_end_addr = match (heap.virtual_address as usize).checked_add(
                heap.data.len(),
            ) {
                Some(heap_end_addr) => heap_end_addr,
                None => {
                    return None;
                },
            };
            if heap_end_addr > v_addr {
                v_addr = heap_end_addr;
            }
            i += 1;
        }
        assert(views.take(views.len() as int) =~= views);
        if v_addr > usize::MAX - 4096 {
            None
        } else {
            Some(Self::allign_to_next_section(v_addr))
        }
    }

    /// The address at which the next section goes: the start of the 4K
    /// region behind the one that holds the greatest end address.
    pub fn next_virtual_address(&self) -> (addr: usize)
        requires
            self.spec_next_virtual_address() <= usize::MAX,
        ensures
            addr == self.spec_next_virtual_address(),
    {
        let sections = self.iter_sections();
        let ghost views = self.spec_sections();
        let mut v_addr: usize = 0;
        let mut i: usize = 0;
        assert(views.take(0) =~= Seq::<SectionHeapView>::empty());
        proof {
            lemma_max_end_bound(views, 0);
        }
        while i < sections.len()
            invariant
                i <= sections@.len(),
                views == self.spec_sections(),
                sections@.len() == views.len(),
                forall|k: int| 0 <= k < sections@.len() ==> (#[trigger] sections@[k])@ == views[k],
                v_addr == spec_max_end(views.take(i as int)),
                spec_next_section(spec_max_end(views)) <= usize::MAX,
            decreases sections@.len() - i,
        {
            let heap = sections[i];
            assert(heap@ == views[i as int]);
            proof {
                assert(views.take(i + 1).drop_last() =~= views.take(i as int));
                lemma_max_end_bound(views, i + 1);
            }
            let heap_end_addr = heap.virtual_address as usize + heap.data.len();
            if heap_end_addr > v_addr {
                v_addr = heap_end_addr;
            }
            i += 1;
        }
        assert(views.take(views.len() as int) =~= views);
        Self::allign_to_next_section(v_addr)
    }
}

/// The greatest end address of the first sections is not above that of all
/// of them, and the end address of each section is not above it either.
pub proof fn lemma_max_end_bound(sections: Seq<SectionHeapView>, k: int)
    requires
        0 <= k <= sections.len(),
    ensures
        0 <= spec_max_end(sections.take(k)) <= spec_max_end(sections),
        k > 0 ==> sections[k - 1].end_address() <= spec_max_end(sections.take(k)),
        spec_max_end(sections) < spec_next_section(spec_max_end(sections)),
    decreases sections.len() - k,
{
    if k < sections.len() {
        lemma_max_end_bound(sections, k + 1);
        assert(sections.take(k + 1).drop_last() =~= sections.take(k));
    } else {
        assert(sections.take(k) =~= sections);
        lemma_max_end_nonnegative(sections);
    }
    if k > 0 {
        assert(sections.take(k).last() == sections[k - 1]);
    }
    lemma_max_end_nonnegative(sections.take(k));
}

/// The greatest end address is never negative.
pub proof fn lemma_max_end_nonnegative(sections: Seq<SectionHeapView>)
    ensures
        0 <= spec_max_end(sections),
    decreases sections.len(),
{
    if sections.len() > 0 {
        lemma_max_end_nonnegative(sections.drop_last());
    }
}

} // verus!
