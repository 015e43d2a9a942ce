//! The resource data of an image. Resources are indexed by a tree of
//! directory tables, by convention three levels deep: type, name and
//! language. The tree is kept as the bytes that hold it.
use crate::error::PerwError;
use vstd::prelude::*;
use vstd::slice::slice_to_vec;

verus! {

/// The resource data of an image, as the bytes of its directory.
#[derive(Default, Clone, Debug, PartialEq, Eq)]
pub struct ResourceDataDirectory {
    pub data: Vec<u8>,
}

impl View for ResourceDataDirectory {
    type V = Seq<u8>;

    open spec fn view(&self) -> Seq<u8> {
        self.data@
    }
}

impl ResourceDataDirectory {
    /// Keeps the bytes of the directory as they are.
    pub fn parse(section_data: &[u8]) -> (r: Result<Self, PerwError>)
        ensures
            r matches Ok(got) && got@ == section_data@,
    {
        Ok(Self { data: slice_to_vec(section_data) })
    }
}

} // verus!
