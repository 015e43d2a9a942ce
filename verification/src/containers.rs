//! A table of records that were read one after the other.
use crate::error::PerwError;
use crate::io::{ReadData, Reader};
use vstd::prelude::*;

verus! {

/// A growable table of records.
#[derive(Debug, Clone, Default, PartialEq, Eq)]
pub struct Table<T>(pub Vec<T>);

impl<T> View for Table<T> {
    type V = Seq<T>;

    open spec fn view(&self) -> Seq<T> {
        self.0@
    }
}

/// What `count` reads of a `T` give on `bytes`, one after the other: the
/// values in order and the count of bytes that they take together, or the
/// error of the first read that fails.
pub open spec fn spec_read_n<T: ReadData>(bytes: Seq<u8>, count: nat) -> Result<
    (Seq<T>, nat),
    PerwError,
>
    decreases count,
{
    if count == 0 {
        Ok((Seq::empty(), 0))
    } else {
        match spec_read_n::<T>(bytes, (count - 1) as nat) {
            Err(e) => Err(e),
            Ok((items, taken)) => match T::spec_read(bytes.skip(taken as int)) {
                Err(e) => Err(e),
                Ok((item, n)) => Ok((items.push(item), taken + n)),
            },
        }
    }
}

/// `items` put before what `rest` holds, or the error of `rest`.
pub open spec fn spec_prepend<T>(items: Seq<T>, rest: Result<Seq<T>, PerwError>) -> Result<
    Seq<T>,
    PerwError,
> {
    match rest {
        Ok(more) => Ok(items + more),
        Err(e) => Err(e),
    }
}

/// Once a read has failed, every longer run of reads fails with the same
/// error.
pub proof fn lemma_read_n_fails<T: ReadData>(bytes: Seq<u8>, failed: nat, count: nat)
    requires
        failed <= count,
        spec_read_n::<T>(bytes, failed) is Err,
    ensures
        spec_read_n::<T>(bytes, count) == spec_read_n::<T>(bytes, failed),
    decreases count,
{
    if failed < count {
        lemma_read_n_fails::<T>(bytes, failed, (count - 1) as nat);
    }
}

/// A run of reads that succeeds gives as many values as were asked for.
pub proof fn lemma_read_n_len<T: ReadData>(bytes: Seq<u8>, count: nat)
    requires
        spec_read_n::<T>(bytes, count) is Ok,
    ensures
        spec_read_n::<T>(bytes, count)->Ok_0.0.len() == count,
    decreases count,
{
    if count > 0 {
        lemma_read_n_len::<T>(bytes, (count - 1) as nat);
    }
}

impl<T> Table<T> {
    /// The table with no record.
    pub fn new() -> (table: Self)
        ensures
            table@ == Seq::<T>::empty(),
    {
        Self(Vec::new())
    }

    /// The table with no record and room for `capacity` records.
    pub fn with_capacity(capacity: usize) -> (table: Self)
        ensures
            table@ == Seq::<T>::empty(),
    {
        Self(Vec::with_capacity(capacity))
    }

    /// The count of records.
    pub fn len(&self) -> (n: usize)
        ensures
            n == self@.len(),
    {
        self.0.len()
    }

    /// Whether the table holds no record.
    pub fn is_empty(&self) -> (b: bool)
        ensures
            b == (self@.len() == 0),
    {
        self.0.len() == 0
    }

    /// The record at position `i`.
    pub fn get(&self, i: usize) -> (item: Option<&T>)
        ensures
            i < self@.len() ==> item == Some(&self@[i as int]),
            i >= self@.len() ==> item is None,
    {
        if i < self.0.len() {
            Some(&self.0[i])
        } else {
            None
        }
    }

    /// The last record.
    pub fn last(&self) -> (item: Option<&T>)
        ensures
            self@.len() > 0 ==> item == Some(&self@.last()),
            self@.len() == 0 ==> item is None,
    {
        let n = self.0.len();
        if n > 0 {
            Some(&self.0[n - 1])
        } else {
            None
        }
    }

    /// Appends a record.
    pub fn push(&mut self, item: T)
        ensures
            final(self)@ == old(self)@.push(item),
    {
        self.0.push(item);
    }

    /// The records as a slice.
    pub fn as_slice(&self) -> (items: &[T])
        ensures
            items@ == self@,
    {
        self.0.as_slice()
    }
}

impl<T: ReadData> Table<T> {
    /// Reads `items_count` records, one after the other.
    pub fn new_linear<'a, R: Reader<'a>>(reader: &mut R, items_count: usize) -> (r: Result<
        Self,
        PerwError,
    >)
        ensures
            match spec_read_n::<T>(old(reader).unread(), items_count as nat) {
                Ok((items, taken)) => {
                    &&& r matches Ok(table)
                    &&& table@ == items
                    &&& taken <= old(reader).unread().len()
                    &&& final(reader).unread() == old(reader).unread().skip(taken as int)
                },
                Err(e) => r matches Err(got) && got == e,
            },
    {
        let ghost bytes = old(reader).unread();
        let ghost mut taken: nat = 0;
        let mut items: Vec<T> = Vec::new();
        let mut i: usize = 0;
        assert(reader.unread() =~= bytes.skip(0));
        while i < items_count
            invariant
                i <= items_count,
                bytes == old(reader).unread(),
                taken <= bytes.len(),
                spec_read_n::<T>(bytes, i as nat) == Ok::<(Seq<T>, nat), PerwError>(
                    (items@, taken),
                ),
                reader.unread() == bytes.skip(taken as int),
            decreases items_count - i,
        {
            match T::read(reader) {
                Ok(item) => {
                    proof {
                        let n = T::spec_read(bytes.skip(taken as int))->Ok_0.1;
                        assert(bytes.skip(taken as int).skip(n as int) =~= bytes.skip(
                            (taken + n) as int,
                        ));
                        taken = taken + n;
                    }
                    items.push(item);
                },
                Err(e) => {
                    proof {
                        assert(spec_read_n::<T>(bytes, (i + 1) as nat) is Err);
                        lemma_read_n_fails::<T>(bytes, (i + 1) as nat, items_count as nat);
                    }
                    return Err(e);
                },
            }
            i += 1;
        }
        Ok(Self(items))
    }
}


/// Whether `read_item`, called with the bytes `unread`, may give `out`.
pub open spec fn spec_read_step<T, F: Fn(&[u8]) -> Result<(T, usize), PerwError>>(
    read_item: F,
    unread: Seq<u8>,
    out: Result<(T, usize), PerwError>,
) -> bool {
    exists|bytes: &[u8]| bytes@ == unread && call_ensures(read_item, (bytes,), out)
}

/// Whether calls of `read_item`, each with the bytes that the calls before
/// it left, may give `items` and take `taken` bytes of `bytes` together.
pub open spec fn spec_reads_with<T, F: Fn(&[u8]) -> Result<(T, usize), PerwError>>(
    read_item: F,
    bytes: Seq<u8>,
    items: Seq<T>,
    taken: nat,
) -> bool
    decreases items.len(),
{
    if items.len() == 0 {
        taken == 0
    } else {
        exists|before: nat, n: usize|
            {
                &&& spec_reads_with(read_item, bytes, items.drop_last(), before)
                &&& before + n == taken
                &&& taken <= bytes.len()
                &&& spec_read_step(
                    read_item,
                    bytes.skip(before as int),
                    Ok::<(T, usize), PerwError>((items.last(), n)),
                )
            }
    }
}

impl<T> Table<T> {
    /// Reads `items_count` records with `read_item`, one after the other.
    /// Each call gets the bytes that are left and gives a record and the
    /// count of bytes that the record takes. A count that is greater than
    /// the count of bytes that are left is an error.
    pub fn new_with_reader<'a, F: Fn(&[u8]) -> Result<(T, usize), PerwError>>(
        data_ptr: &mut &'a [u8],
        items_count: usize,
        read_item: F,
    ) -> (r: Result<Self, PerwError>)
        requires
            forall|bytes: &[u8]| call_requires(read_item, (bytes,)),
        ensures
            match r {
                Ok(table) => exists|taken: nat|
                    {
                        &&& table@.len() == items_count
                        &&& spec_reads_with(read_item, old(data_ptr)@, table@, taken)
                        &&& taken <= old(data_ptr)@.len()
                        &&& final(data_ptr)@ == old(data_ptr)@.skip(taken as int)
                    },
                Err(e) => exists|items: Seq<T>, taken: nat|
                    {
                        &&& items.len() < items_count
                        &&& spec_reads_with(read_item, old(data_ptr)@, items, taken)
                        &&& taken <= old(data_ptr)@.len()
                        &&& {
                            ||| spec_read_step(
                                read_item,
                                old(data_ptr)@.skip(taken as int),
                                Err::<(T, usize), PerwError>(e),
                            )
                            ||| exists|item: T, n: usize|
                                {
                                    &&& taken + n > old(data_ptr)@.len()
                                    &&& e == (PerwError::NotEnoughDataLeft { attempted_read: n })
                                    &&& spec_read_step(
                                        read_item,
                                        old(data_ptr)@.skip(taken as int),
                                        Ok::<(T, usize), PerwError>((item, n)),
                                    )
                                }
                        }
                    },
            },
    {
        let ghost bytes = data_ptr@;
        let ghost mut taken: nat = 0;
        let mut items: Vec<T> = Vec::new();
        let mut i: usize = 0;
        assert(data_ptr@ =~= bytes.skip(0));
        while i < items_count
            invariant
                i <= items_count,
                items@.len() == i,
                bytes == old(data_ptr)@,
                taken <= bytes.len(),
                data_ptr@ == bytes.skip(taken as int),
                forall|bytes: &[u8]| call_requires(read_item, (bytes,)),
                spec_reads_with(read_item, bytes, items@, taken),
            decreases items_count - i,
        {
            let ghost before = items@;
            let ghost start = taken;
            let unread: &[u8] = *data_ptr;
            match read_item(unread) {
                Ok((item, n)) => {
                    assert(spec_read_step(
                        read_item,
                        bytes.skip(start as int),
                        Ok::<(T, usize), PerwError>((item, n)),
                    ));
                    if n > unread.len() {
                        return Err(PerwError::not_enough_data(n));
                    }
                    *data_ptr = vstd::slice::slice_subrange(unread, n, unread.len());
                    items.push(item);
                    proof {
                        assert(items@.drop_last() =~= before);
                        assert(items@.last() == item);
                        assert(data_ptr@ =~= bytes.skip(start + n));
                        taken = (start + n) as nat;
                        assert(spec_reads_with(read_item, bytes, items@.drop_last(), start)
                            && start + n == taken);
                    }
                },
                Err(e) => {
                    assert(spec_read_step(
                        read_item,
                        bytes.skip(start as int),
                        Err::<(T, usize), PerwError>(e),
                    ));
                    return Err(e);
                },
            }
            i += 1;
        }
        Ok(Self(items))
    }
}

} // verus!
