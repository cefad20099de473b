//! Return types of methods.

use vstd::prelude::*;
use crate::symbol::guid::{lemma_guid_len, Guid};
use crate::symbol::type_id::AdsTypeId;

verus! {

/// A method return type as plain values: (size, alignment, type, GUID bytes, type name).
pub type ReturnTypeView = (u32, u32, AdsTypeId, Seq<u8>, Seq<char>);

/// The return type of a method, gathered from fields of the method header.
#[derive(Debug, Clone, PartialEq, Eq)]
pub struct AdsMethodReturnTypeInfo {
    size: u32,
    align_size: u32,
    type_id: AdsTypeId,
    guid: Guid,
    name: String,
}

impl AdsMethodReturnTypeInfo {
    /// The return type as plain values.
    pub closed spec fn spec_view(self) -> ReturnTypeView {
        (self.size, self.align_size, self.type_id, self.guid.spec_bytes(), self.name@)
    }

    /// Creates a return type.
    pub fn new(size: u32, align_size: u32, type_id: AdsTypeId, guid: Guid, name: &str) -> (r: AdsMethodReturnTypeInfo)
        ensures
            r.spec_view() == (size, align_size, type_id, guid.spec_bytes(), name@),
    {
        AdsMethodReturnTypeInfo { size, align_size, type_id, guid, name: name.to_owned() }
    }

    /// Creates a return type taking the name as an owned string.
    pub(crate) fn from_parts(size: u32, align_size: u32, type_id: AdsTypeId, guid: Guid, name: String) -> (r:
        AdsMethodReturnTypeInfo)
        ensures
            r.spec_view() == (size, align_size, type_id, guid.spec_bytes(), name@),
    {
        AdsMethodReturnTypeInfo { size, align_size, type_id, guid, name }
    }

    /// The size of the return value in bytes.
    pub fn size(&self) -> (r: u32)
        ensures
            r == self.spec_view().0,
    {
        self.size
    }

    /// The alignment of the return value.
    pub fn align_size(&self) -> (r: u32)
        ensures
            r == self.spec_view().1,
    {
        self.align_size
    }

    /// The base data type of the return value.
    pub fn type_id(&self) -> (r: AdsTypeId)
        ensures
            r == self.spec_view().2,
    {
        self.type_id
    }

    /// The GUID of the return type.
    pub fn guid(&self) -> (r: &Guid)
        ensures
            r.spec_bytes() == self.spec_view().3,
    {
        &self.guid
    }

    /// The name of the return type.
    pub fn name(&self) -> (r: &str)
        ensures
            r@ == self.spec_view().4,
    {
        self.name.as_str()
    }
}

/// The GUID of a return type has sixteen bytes.
pub proof fn lemma_return_type_guid(t: AdsMethodReturnTypeInfo)
    ensures
        t.spec_view().3.len() == 16,
{
    lemma_guid_len(t.guid);
}

} // verus!
