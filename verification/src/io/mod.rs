//! The typed byte stream: bounds checked, little-endian readers and writers.
pub mod stream;
pub mod text;

use crate::error::PerwError;
use vstd::bytes::*;
use vstd::prelude::*;
use vstd::slice::slice_subrange;

verus! {

/// The 16-bit little-endian integer held at `at` in `bytes`.
pub open spec fn u16_at(bytes: Seq<u8>, at: int) -> u16 {
    spec_u16_from_le_bytes(bytes.subrange(at, at + 2))
}

/// The 32-bit little-endian integer held at `at` in `bytes`.
pub open spec fn u32_at(bytes: Seq<u8>, at: int) -> u32 {
    spec_u32_from_le_bytes(bytes.subrange(at, at + 4))
}

/// The 64-bit little-endian integer held at `at` in `bytes`.
pub open spec fn u64_at(bytes: Seq<u8>, at: int) -> u64 {
    spec_u64_from_le_bytes(bytes.subrange(at, at + 8))
}

/// The two bytes of `x`, low byte first.
pub open spec fn le16(x: u16) -> Seq<u8> {
    spec_u16_to_le_bytes(x)
}

/// The four bytes of `x`, low byte first.
pub open spec fn le32(x: u32) -> Seq<u8> {
    spec_u32_to_le_bytes(x)
}

/// The eight bytes of `x`, low byte first.
pub open spec fn le64(x: u64) -> Seq<u8> {
    spec_u64_to_le_bytes(x)
}

/// The array whose items are those of `items`.
pub open spec fn array_of<T, const N: usize>(items: Seq<T>) -> [T; N] {
    choose|a: [T; N]| a@ == items
}

/// The `N` bytes held at `at` in `bytes`.
pub open spec fn u8_array_at<const N: usize>(bytes: Seq<u8>, at: int) -> [u8; N] {
    array_of(bytes.subrange(at, at + N))
}

/// The `N` 16-bit little-endian integers held at `at` in `bytes`.
pub open spec fn u16_array_at<const N: usize>(bytes: Seq<u8>, at: int) -> [u16; N] {
    array_of(Seq::new(N as nat, |i: int| u16_at(bytes, at + 2 * i)))
}

/// The bytes of the integers of `items`, each low byte first.
pub open spec fn le16_seq(items: Seq<u16>) -> Seq<u8>
    decreases items.len(),
{
    if items.len() == 0 {
        Seq::empty()
    } else {
        le16_seq(items.drop_last()) + le16(items.last())
    }
}

/// What a read of a record of `size` bytes gives on `bytes`, where `value` is
/// what the first `size` bytes decode to.
pub open spec fn fixed_read<T>(bytes: Seq<u8>, size: nat, value: T) -> Result<(T, nat), PerwError> {
    if bytes.len() >= size {
        Ok((value, size))
    } else {
        Err(PerwError::NotEnoughDataLeft { attempted_read: size as usize })
    }
}

/// A read that went as `expected` says: `got` is the value or the error, and
/// on success the unread bytes lost exactly the bytes that the value took.
pub open spec fn reads_as<T>(
    expected: Result<(T, nat), PerwError>,
    got: Result<T, PerwError>,
    before: Seq<u8>,
    after: Seq<u8>,
) -> bool {
    match expected {
        Ok((value, taken)) => got == Ok::<T, PerwError>(value) && taken <= before.len() && after
            == before.skip(taken as int),
        Err(e) => got == Err::<T, PerwError>(e),
    }
}

/// `bytes` with `data` laid over it from position `at` on. Where `data`
/// reaches past the end, the result ends with `data`.
pub open spec fn splice(bytes: Seq<u8>, at: int, data: Seq<u8>) -> Seq<u8> {
    bytes.subrange(0, at) + data + if at + data.len() <= bytes.len() {
        bytes.subrange(at + data.len(), bytes.len() as int)
    } else {
        Seq::empty()
    }
}

/// `buffer` with `data` laid over it at `at`, or the error for a buffer that
/// ends before the end of `data`.
pub open spec fn spec_write_at(buffer: Seq<u8>, at: int, data: Seq<u8>) -> Result<
    Seq<u8>,
    PerwError,
> {
    if at + data.len() <= buffer.len() {
        Ok(splice(buffer, at, data))
    } else {
        Err(PerwError::NotEnoughSpaceLeft { attempted_write: data.len() as usize })
    }
}

/// Lays `data` over `buffer` at `at`. A buffer that is too short stays as it
/// is.
pub fn write_at(buffer: &mut [u8], at: usize, data: &[u8]) -> (r: Result<(), PerwError>)
    ensures
        match spec_write_at(old(buffer)@, at as int, data@) {
            Ok(laid) => r is Ok && final(buffer)@ == laid,
            Err(e) => r matches Err(got) && got == e && final(buffer)@ == old(buffer)@,
        },
{
    let len = buffer.len();
    if at > len || len - at < data.len() {
        return Err(PerwError::not_enough_space(data.len()));
    }
    let mut i: usize = 0;
    while i < data.len()
        invariant
            i <= data@.len(),
            at + data@.len() <= len,
            buffer@.len() == len,
            len == old(buffer)@.len(),
            forall|k: int| 0 <= k < at ==> buffer@[k] == old(buffer)@[k],
            forall|k: int| at <= k < at + i ==> buffer@[k] == data@[k - at],
            forall|k: int| at + i <= k < len ==> buffer@[k] == old(buffer)@[k],
        decreases data@.len() - i,
    {
        buffer[at + i] = data[i];
        i += 1;
    }
    assert(buffer@ =~= splice(old(buffer)@, at as int, data@));
    Ok(())
}

/// A source of bytes with a cursor.
pub trait Reader<'a>: Sized {
    /// The bytes from the cursor to the end of the source.
    spec fn unread(&self) -> Seq<u8>;

    /// Hands out the next `size` bytes and moves the cursor past them, or
    /// fails when fewer are left. After a failure the cursor is unspecified.
    fn read_slice(&mut self, size: usize) -> (r: Result<&'a [u8], PerwError>)
        ensures
            r is Ok <==> size <= old(self).unread().len(),
            r matches Ok(bytes) ==> bytes@ == old(self).unread().take(size as int),
            r is Ok ==> final(self).unread() == old(self).unread().skip(size as int),
            r matches Err(e) ==> e == (PerwError::NotEnoughDataLeft { attempted_read: size }),
    ;
}

/// A sink for bytes with a cursor.
pub trait Writer: Sized {
    /// The bytes that the sink holds.
    spec fn contents(&self) -> Seq<u8>;

    /// Where the next write lands in `contents`.
    spec fn cursor(&self) -> int;

    /// Whether a write of `size` bytes finds room.
    spec fn accepts(&self, size: nat) -> bool;

    /// Lays `data` over the sink at the cursor and moves the cursor past it,
    /// or fails when the sink has no room for all of it.
    fn write_slice(&mut self, data: &[u8]) -> (r: Result<(), PerwError>)
        ensures
            r is Ok <==> old(self).accepts(data@.len()),
            r is Ok ==> final(self).contents() == splice(
                old(self).contents(),
                old(self).cursor(),
                data@,
            ) && final(self).cursor() == old(self).cursor() + data@.len(),
            r matches Err(e) ==> e == (PerwError::NotEnoughSpaceLeft {
                attempted_write: data@.len() as usize,
            }),
    ;
}

/// A write that went as `expected` says: where the value has no encoding the
/// error is that of the encoding; else the write succeeds exactly when the
/// sink accepts the encoding, and lays it at the cursor.
pub open spec fn writes_as<W: Writer>(
    expected: Result<Seq<u8>, PerwError>,
    got: Result<(), PerwError>,
    before: W,
    after: W,
) -> bool {
    match expected {
        Ok(bytes) => {
            &&& got is Ok <==> before.accepts(bytes.len())
            &&& got is Ok ==> after.contents() == splice(before.contents(), before.cursor(), bytes)
                && after.cursor() == before.cursor() + bytes.len()
            &&& got matches Err(e) ==> e == (PerwError::NotEnoughSpaceLeft {
                attempted_write: bytes.len() as usize,
            })
        },
        Err(e) => got == Err::<(), PerwError>(e),
    }
}

/// A value that can be read from a byte source.
pub trait ReadData: Sized {
    /// The value that `bytes` start with and the count of bytes it takes, or
    /// the error that a read of `bytes` ends in.
    spec fn spec_read(bytes: Seq<u8>) -> Result<(Self, nat), PerwError>;

    fn read<'a, R: Reader<'a>>(reader: &mut R) -> (r: Result<Self, PerwError>)
        ensures
            reads_as(
                Self::spec_read(old(reader).unread()),
                r,
                old(reader).unread(),
                final(reader).unread(),
            ),
    ;
}

/// A value that can be written to a byte sink.
pub trait WriteData: Sized {
    /// The bytes that stand for the value, or the error for a value that has
    /// no encoding.
    spec fn spec_write(&self) -> Result<Seq<u8>, PerwError>;

    /// The encoding as an owned buffer.
    fn to_bytes(&self) -> (r: Result<Vec<u8>, PerwError>)
        ensures
            match self.spec_write() {
                Ok(bytes) => r matches Ok(out) && out@ == bytes,
                Err(e) => r == Err::<Vec<u8>, PerwError>(e),
            },
    ;

    fn write_to<W: Writer>(&self, writer: &mut W) -> (r: Result<(), PerwError>)
        ensures
            writes_as(self.spec_write(), r, *old(writer), *final(writer)),
    {
        match self.to_bytes() {
            Ok(bytes) => writer.write_slice(bytes.as_slice()),
            Err(e) => Err(e),
        }
    }
}

/// A value that is written and read again is the same value. This holds
/// of every record of fixed layout, and of the optional header.
pub trait RoundTrip: ReadData + WriteData {
    /// Whether the value is one that a read can give. Only such values are
    /// read back as they are.
    spec fn spec_canonical(&self) -> bool;

    /// The encoding of a canonical value decodes to the value, and the read
    /// takes exactly the bytes of the encoding.
    proof fn lemma_round_trip(&self)
        requires
            self.spec_canonical(),
        ensures
            self.spec_write() is Ok,
            Self::spec_read(self.spec_write()->Ok_0) == Ok::<(Self, nat), PerwError>(
                (*self, self.spec_write()->Ok_0.len()),
            ),
    ;
}

impl<'a> Reader<'a> for &'a [u8] {
    open spec fn unread(&self) -> Seq<u8> {
        self@
    }

    fn read_slice(&mut self, size: usize) -> (r: Result<&'a [u8], PerwError>) {
        if self.len() < size {
            return Err(PerwError::not_enough_data(size));
        }
        let (data, remaining) = self.split_at(size);
        *self = remaining;
        Ok(data)
    }
}

impl Writer for Vec<u8> {
    open spec fn contents(&self) -> Seq<u8> {
        self@
    }

    open spec fn cursor(&self) -> int {
        self@.len() as int
    }

    open spec fn accepts(&self, size: nat) -> bool {
        true
    }

    fn write_slice(&mut self, data: &[u8]) -> (r: Result<(), PerwError>) {
        self.extend_from_slice(data);
        assert(self@ =~= splice(old(self)@, old(self)@.len() as int, data@));
        Ok(())
    }
}


proof fn lemma_array_prefix<T, const N: usize>(items: Seq<T>, k: nat) -> (a: [T; N])
    requires
        items.len() == N,
        k <= N,
    ensures
        forall|i: int| 0 <= i < k ==> a@[i] == items[i],
    decreases k,
{
    broadcast use vstd::array::group_array_axioms;

    if k == 0 {
        arbitrary()
    } else {
        let b = lemma_array_prefix::<T, N>(items, (k - 1) as nat);
        vstd::array::spec_array_update(b, k - 1, items[k - 1])
    }
}

/// Every sequence of `N` items is the view of an array.
pub proof fn lemma_array_of<T, const N: usize>(items: Seq<T>)
    requires
        items.len() == N,
    ensures
        array_of::<T, N>(items)@ == items,
{
    broadcast use vstd::array::group_array_axioms;

    let a = lemma_array_prefix::<T, N>(items, N as nat);
    assert(a@ =~= items);
}

/// An array is the array of its own items.
pub proof fn lemma_array_of_view<T, const N: usize>(a: [T; N])
    ensures
        array_of::<T, N>(a@) == a,
{
    broadcast use vstd::array::group_array_axioms;

    lemma_array_of::<T, N>(a@);
    assert(array_of::<T, N>(a@) =~= a);
}

/// The encoding of `items` has two bytes for each, in order.
pub proof fn lemma_le16_seq(items: Seq<u16>)
    ensures
        le16_seq(items).len() == 2 * items.len(),
        forall|i: int|
            0 <= i < items.len() ==> #[trigger] u16_at(le16_seq(items), 2 * i) == items[i],
    decreases items.len(),
{
    lemma_auto_spec_u16_to_from_le_bytes();
    if items.len() > 0 {
        let front = items.drop_last();
        lemma_le16_seq(front);
        let all = le16_seq(items);
        assert forall|i: int| 0 <= i < items.len() implies #[trigger] u16_at(all, 2 * i)
            == items[i] by {
            if i < front.len() {
                assert(all.subrange(2 * i, 2 * i + 2) =~= le16_seq(front).subrange(
                    2 * i,
                    2 * i + 2,
                ));
                assert(u16_at(le16_seq(front), 2 * i) == front[i]);
            } else {
                assert(all.subrange(2 * i, 2 * i + 2) =~= le16(items.last()));
            }
        }
    }
}

/// The integers that `2 * count` bytes at `at` hold encode to those bytes.
pub proof fn lemma_le16_seq_at(bytes: Seq<u8>, at: int, count: nat)
    requires
        0 <= at,
        at + 2 * count <= bytes.len(),
    ensures
        le16_seq(Seq::new(count, |i: int| u16_at(bytes, at + 2 * i))) == bytes.subrange(
            at,
            at + 2 * count,
        ),
    decreases count,
{
    lemma_auto_spec_u16_to_from_le_bytes();
    let items = Seq::new(count, |i: int| u16_at(bytes, at + 2 * i));
    if count > 0 {
        let front = Seq::new((count - 1) as nat, |i: int| u16_at(bytes, at + 2 * i));
        lemma_le16_seq_at(bytes, at, (count - 1) as nat);
        assert(items.drop_last() =~= front);
        let last = at + 2 * (count - 1);
        assert(bytes.subrange(last, last + 2).len() == 2);
        assert(le16(items.last()) == bytes.subrange(last, last + 2));
        assert(bytes.subrange(at, last) + bytes.subrange(last, last + 2) =~= bytes.subrange(
            at,
            at + 2 * count,
        ));
    } else {
        assert(le16_seq(items) =~= bytes.subrange(at, at + 2 * count));
    }
}

/// A slice is never longer than the machine can count.
pub proof fn lemma_slice_len(bytes: &[u8])
    ensures
        bytes@.len() <= usize::MAX,
{
    vstd::slice::axiom_spec_len(bytes);
}

/// Reads the 16-bit integer at `at`.
pub(crate) fn get_u16(bytes: &[u8], at: usize) -> (x: u16)
    requires
        at + 2 <= bytes@.len(),
    ensures
        x == u16_at(bytes@, at as int),
{
    proof {
        lemma_slice_len(bytes);
    }
    u16_from_le_bytes(slice_subrange(bytes, at, at + 2))
}

/// Reads the 32-bit integer at `at`.
pub(crate) fn get_u32(bytes: &[u8], at: usize) -> (x: u32)
    requires
        at + 4 <= bytes@.len(),
    ensures
        x == u32_at(bytes@, at as int),
{
    proof {
        lemma_slice_len(bytes);
    }
    u32_from_le_bytes(slice_subrange(bytes, at, at + 4))
}

/// Reads the 64-bit integer at `at`.
pub(crate) fn get_u64(bytes: &[u8], at: usize) -> (x: u64)
    requires
        at + 8 <= bytes@.len(),
    ensures
        x == u64_at(bytes@, at as int),
{
    proof {
        lemma_slice_len(bytes);
    }
    u64_from_le_bytes(slice_subrange(bytes, at, at + 8))
}

/// Reads the `N` bytes at `at`.
pub(crate) fn get_u8_array<const N: usize>(bytes: &[u8], at: usize) -> (a: [u8; N])
    requires
        at + N <= bytes@.len(),
    ensures
        a == u8_array_at::<N>(bytes@, at as int),
{
    broadcast use vstd::array::group_array_axioms;

    let len = bytes.len();
    let mut a: [u8; N] = [0u8;N];
    let mut i: usize = 0;
    while i < N
        invariant
            i <= N,
            at + N <= bytes@.len(),
            bytes@.len() == len,
            forall|k: int| 0 <= k < i ==> a@[k] == bytes@[at + k],
        decreases N - i,
    {
        a[i] = bytes[at + i];
        i += 1;
    }
    proof {
        lemma_array_of::<u8, N>(bytes@.subrange(at as int, at + N));
        assert(a =~= u8_array_at::<N>(bytes@, at as int));
    }
    a
}

/// Reads the `N` 16-bit integers at `at`.
pub(crate) fn get_u16_array<const N: usize>(bytes: &[u8], at: usize) -> (a: [u16; N])
    requires
        at + 2 * N <= bytes@.len(),
    ensures
        a == u16_array_at::<N>(bytes@, at as int),
{
    broadcast use vstd::array::group_array_axioms;

    let len = bytes.len();
    let mut a: [u16; N] = [0u16;N];
    let mut i: usize = 0;
    while i < N
        invariant
            i <= N,
            at + 2 * N <= bytes@.len(),
            bytes@.len() == len,
            forall|k: int| 0 <= k < i ==> a@[k] == u16_at(bytes@, at + 2 * k),
        decreases N - i,
    {
        a[i] = get_u16(bytes, at + 2 * i);
        i += 1;
    }
    proof {
        lemma_array_of::<u16, N>(Seq::new(N as nat, |k: int| u16_at(bytes@, at + 2 * k)));
        assert(a =~= u16_array_at::<N>(bytes@, at as int));
    }
    a
}

/// Appends one byte.
pub fn put_u8(out: &mut Vec<u8>, x: u8)
    ensures
        final(out)@ == old(out)@ + seq![x],
{
    out.push(x);
    assert(out@ =~= old(out)@ + seq![x]);
}

/// Appends the two bytes of `x`.
pub fn put_u16(out: &mut Vec<u8>, x: u16)
    ensures
        final(out)@ == old(out)@ + le16(x),
{
    let bytes = u16_to_le_bytes(x);
    out.extend_from_slice(bytes.as_slice());
    assert(out@ =~= old(out)@ + le16(x));
}

/// Appends the four bytes of `x`.
pub fn put_u32(out: &mut Vec<u8>, x: u32)
    ensures
        final(out)@ == old(out)@ + le32(x),
{
    let bytes = u32_to_le_bytes(x);
    out.extend_from_slice(bytes.as_slice());
    assert(out@ =~= old(out)@ + le32(x));
}

/// Appends the eight bytes of `x`.
pub fn put_u64(out: &mut Vec<u8>, x: u64)
    ensures
        final(out)@ == old(out)@ + le64(x),
{
    let bytes = u64_to_le_bytes(x);
    out.extend_from_slice(bytes.as_slice());
    assert(out@ =~= old(out)@ + le64(x));
}

/// Appends the bytes of `data`.
pub fn put_slice(out: &mut Vec<u8>, data: &[u8])
    ensures
        final(out)@ == old(out)@ + data@,
{
    out.extend_from_slice(data);
    assert(out@ =~= old(out)@ + data@);
}

/// Appends the integers of `items`, each low byte first.
pub fn put_u16_array<const N: usize>(out: &mut Vec<u8>, items: &[u16; N])
    ensures
        final(out)@ == old(out)@ + le16_seq(items@),
{
    broadcast use vstd::array::group_array_axioms;

    let mut i: usize = 0;
    while i < N
        invariant
            i <= N,
            out@ == old(out)@ + le16_seq(items@.take(i as int)),
        decreases N - i,
    {
        put_u16(out, items[i]);
        proof {
            assert(items@.take(i + 1).drop_last() =~= items@.take(i as int));
            assert(out@ =~= old(out)@ + le16_seq(items@.take(i + 1)));
        }
        i += 1;
    }
    assert(items@.take(N as int) =~= items@);
}

impl ReadData for u8 {
    open spec fn spec_read(bytes: Seq<u8>) -> Result<(Self, nat), PerwError> {
        fixed_read(bytes, 1, bytes[0])
    }

    fn read<'a, R: Reader<'a>>(reader: &mut R) -> (r: Result<Self, PerwError>) {
        let bytes = reader.read_slice(1)?;
        Ok(bytes[0])
    }
}

impl WriteData for u8 {
    open spec fn spec_write(&self) -> Result<Seq<u8>, PerwError> {
        Ok(seq![*self])
    }

    fn to_bytes(&self) -> (r: Result<Vec<u8>, PerwError>) {
        let mut out = Vec::new();
        put_u8(&mut out, *self);
        assert(out@ =~= seq![*self]);
        Ok(out)
    }
}

impl ReadData for u16 {
    open spec fn spec_read(bytes: Seq<u8>) -> Result<(Self, nat), PerwError> {
        fixed_read(bytes, 2, spec_u16_from_le_bytes(bytes.take(2)))
    }

    fn read<'a, R: Reader<'a>>(reader: &mut R) -> (r: Result<Self, PerwError>) {
        let bytes = reader.read_slice(2)?;
        Ok(u16_from_le_bytes(bytes))
    }
}

impl WriteData for u16 {
    open spec fn spec_write(&self) -> Result<Seq<u8>, PerwError> {
        Ok(le16(*self))
    }

    fn to_bytes(&self) -> (r: Result<Vec<u8>, PerwError>) {
        Ok(u16_to_le_bytes(*self))
    }
}

impl ReadData for u32 {
    open spec fn spec_read(bytes: Seq<u8>) -> Result<(Self, nat), PerwError> {
        fixed_read(bytes, 4, spec_u32_from_le_bytes(bytes.take(4)))
    }

    fn read<'a, R: Reader<'a>>(reader: &mut R) -> (r: Result<Self, PerwError>) {
        let bytes = reader.read_slice(4)?;
        Ok(u32_from_le_bytes(bytes))
    }
}

impl WriteData for u32 {
    open spec fn spec_write(&self) -> Result<Seq<u8>, PerwError> {
        Ok(le32(*self))
    }

    fn to_bytes(&self) -> (r: Result<Vec<u8>, PerwError>) {
        Ok(u32_to_le_bytes(*self))
    }
}

impl ReadData for u64 {
    open spec fn spec_read(bytes: Seq<u8>) -> Result<(Self, nat), PerwError> {
        fixed_read(bytes, 8, spec_u64_from_le_bytes(bytes.take(8)))
    }

    fn read<'a, R: Reader<'a>>(reader: &mut R) -> (r: Result<Self, PerwError>) {
        let bytes = reader.read_slice(8)?;
        Ok(u64_from_le_bytes(bytes))
    }
}

impl WriteData for u64 {
    open spec fn spec_write(&self) -> Result<Seq<u8>, PerwError> {
        Ok(le64(*self))
    }

    fn to_bytes(&self) -> (r: Result<Vec<u8>, PerwError>) {
        Ok(u64_to_le_bytes(*self))
    }
}

impl<const N: usize> ReadData for [u8; N] {
    open spec fn spec_read(bytes: Seq<u8>) -> Result<(Self, nat), PerwError> {
        fixed_read(bytes, N as nat, array_of::<u8, N>(bytes.take(N as int)))
    }

    fn read<'a, R: Reader<'a>>(reader: &mut R) -> (r: Result<Self, PerwError>) {
        let bytes = reader.read_slice(N)?;
        assert(bytes@.subrange(0, 0 + N) =~= bytes@);
        Ok(get_u8_array::<N>(bytes, 0))
    }
}

impl<const N: usize> WriteData for [u8; N] {
    open spec fn spec_write(&self) -> Result<Seq<u8>, PerwError> {
        Ok(self@)
    }

    fn to_bytes(&self) -> (r: Result<Vec<u8>, PerwError>) {
        let mut out = Vec::new();
        put_slice(&mut out, self.as_slice());
        assert(out@ =~= self@);
        Ok(out)
    }
}


impl RoundTrip for u8 {
    open spec fn spec_canonical(&self) -> bool {
        true
    }

    proof fn lemma_round_trip(&self) {
        assert(seq![*self][0] == *self);
    }
}

impl RoundTrip for u16 {
    open spec fn spec_canonical(&self) -> bool {
        true
    }

    proof fn lemma_round_trip(&self) {
        lemma_auto_spec_u16_to_from_le_bytes();
        assert(le16(*self).take(2) =~= le16(*self));
    }
}

impl RoundTrip for u32 {
    open spec fn spec_canonical(&self) -> bool {
        true
    }

    proof fn lemma_round_trip(&self) {
        lemma_auto_spec_u32_to_from_le_bytes();
        assert(le32(*self).take(4) =~= le32(*self));
    }
}

impl RoundTrip for u64 {
    open spec fn spec_canonical(&self) -> bool {
        true
    }

    proof fn lemma_round_trip(&self) {
        lemma_auto_spec_u64_to_from_le_bytes();
        assert(le64(*self).take(8) =~= le64(*self));
    }
}

impl<const N: usize> RoundTrip for [u8; N] {
    open spec fn spec_canonical(&self) -> bool {
        true
    }

    proof fn lemma_round_trip(&self) {
        broadcast use vstd::array::group_array_axioms;

        lemma_array_of_view::<u8, N>(*self);
        assert(self@.take(N as int) =~= self@);
    }
}

} // verus!
