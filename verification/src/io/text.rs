//! Text held in an image: names that end at a NUL byte, decoded as UTF-8.
use vstd::prelude::*;
use vstd::slice::slice_subrange;
use vstd::utf8::{decode_utf8, valid_utf8};

verus! {

/// The text that a lossy decoding of `bytes` as UTF-8 gives: the text that
/// `bytes` encode where they are valid UTF-8, and else that text with a
/// replacement character for each malformed part.
pub uninterp spec fn lossy_utf8(bytes: Seq<u8>) -> Seq<char>;

/// The position of the first NUL byte of `bytes`, or the length of `bytes`
/// where there is none.
pub open spec fn nul_position(bytes: Seq<u8>) -> int
    decreases bytes.len(),
{
    if bytes.len() == 0 || bytes[0] == 0 {
        0
    } else {
        1 + nul_position(bytes.skip(1))
    }
}

/// The position that `nul_position` gives is the first at which a NUL byte
/// stands.
pub proof fn lemma_nul_position(bytes: Seq<u8>)
    ensures
        0 <= nul_position(bytes) <= bytes.len(),
        nul_position(bytes) < bytes.len() ==> bytes[nul_position(bytes)] == 0,
        forall|i: int| 0 <= i < nul_position(bytes) ==> bytes[i] != 0,
    decreases bytes.len(),
{
    if bytes.len() != 0 && bytes[0] != 0 {
        lemma_nul_position(bytes.skip(1));
        assert forall|i: int| 0 <= i < nul_position(bytes) implies bytes[i] != 0 by {
            if i > 0 {
                assert(bytes.skip(1)[i - 1] == bytes[i]);
            }
        }
    }
}

/// A position that holds a NUL byte and has none before it is the one that
/// `nul_position` gives; so is the length where no byte is NUL.
pub proof fn lemma_nul_position_is(bytes: Seq<u8>, at: int)
    requires
        0 <= at <= bytes.len(),
        at < bytes.len() ==> bytes[at] == 0,
        forall|i: int| 0 <= i < at ==> bytes[i] != 0,
    ensures
        nul_position(bytes) == at,
{
    lemma_nul_position(bytes);
}

/// Finds the first NUL byte.
pub fn find_nul(bytes: &[u8]) -> (at: usize)
    ensures
        at == nul_position(bytes@),
        at <= bytes@.len(),
{
    let mut at: usize = 0;
    while at < bytes.len() && bytes[at] != 0
        invariant
            at <= bytes@.len(),
            forall|i: int| 0 <= i < at ==> bytes@[i] != 0,
        decreases bytes@.len() - at,
    {
        at += 1;
    }
    proof {
        lemma_nul_position_is(bytes@, at as int);
    }
    at
}

/// Calls `String::from_utf8_lossy` of std. The contract names its result,
/// and states what the documentation of std promises of valid input: the
/// text is then the one that the bytes encode.
#[verifier::external_body]
pub(crate) fn string_from_utf8_lossy(bytes: &[u8]) -> (text: String)
    ensures
        text@ == lossy_utf8(bytes@),
        valid_utf8(bytes@) ==> text@ == decode_utf8(bytes@),
{
    String::from_utf8_lossy(bytes).into_owned()
}

/// Calls `core::str::from_utf8` of std, which gives the text that the bytes
/// encode exactly when they are valid UTF-8.
#[verifier::external_body]
pub(crate) fn str_from_utf8(bytes: &[u8]) -> (text: Option<&str>)
    ensures
        text is Some <==> valid_utf8(bytes@),
        text matches Some(s) ==> s@ == decode_utf8(bytes@),
{
    core::str::from_utf8(bytes).ok()
}

/// The bytes up to the first NUL byte of `data`, or no bytes where `data`
/// holds no NUL byte.
pub open spec fn spec_terminated(data: Seq<u8>) -> Seq<u8> {
    if nul_position(data) < data.len() {
        data.take(nul_position(data))
    } else {
        Seq::empty()
    }
}

/// Reads the text that ends at the first NUL byte of `data`, decoded as
/// UTF-8 with replacement characters; the empty text where no NUL byte
/// ends it.
pub fn read_terminated(data: &[u8]) -> (text: String)
    ensures
        text@ == lossy_utf8(spec_terminated(data@)),
        valid_utf8(spec_terminated(data@)) ==> text@ == decode_utf8(spec_terminated(data@)),
{
    let end = find_nul(data);
    if end < data.len() {
        assert(data@.subrange(0, end as int) =~= spec_terminated(data@));
        string_from_utf8_lossy(slice_subrange(data, 0, end))
    } else {
        assert(data@.subrange(0, 0) =~= spec_terminated(data@));
        string_from_utf8_lossy(slice_subrange(data, 0, 0))
    }
}

} // verus!
