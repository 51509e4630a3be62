//! Source symbols (an identifier and its payload) and repair symbols (wire
//! bytes of one equation).

use crate::metadata::{be_value_u64, SourceSymbolMetadata};
use vstd::prelude::*;

verus! {

/// One unit of application data and the wire form of its identifier.
#[derive(Clone, PartialEq, Eq, Debug)]
pub struct SourceSymbol {
    metadata: SourceSymbolMetadata,
    data: Vec<u8>,
}

/// The wire bytes of one repair symbol.
#[derive(Clone, PartialEq, Eq, Debug)]
pub struct RepairSymbol {
    data: Vec<u8>,
}

impl SourceSymbol {
    /// The identifier of this symbol.
    pub open spec fn id(&self) -> u64 {
        be_value_u64(self.metadata_bytes())
    }

    /// The wire form of the identifier.
    pub closed spec fn metadata_bytes(&self) -> Seq<u8> {
        self.metadata@
    }

    /// The payload.
    pub closed spec fn payload(&self) -> Seq<u8> {
        self.data@
    }

    pub fn new(metadata: SourceSymbolMetadata, data: Vec<u8>) -> (r: SourceSymbol)
        ensures
            r.metadata_bytes() == metadata@,
            r.payload() == data@,
    {
        SourceSymbol { metadata, data }
    }

    pub fn take(self) -> (r: Vec<u8>)
        ensures
            r@ == self.payload(),
    {
        self.data
    }

    pub fn get(&self) -> (r: &Vec<u8>)
        ensures
            r@ == self.payload(),
    {
        &self.data
    }

    pub fn metadata(&self) -> (r: SourceSymbolMetadata)
        ensures
            r@ == self.metadata_bytes(),
    {
        self.metadata
    }
}

impl RepairSymbol {
    /// The wire bytes.
    pub closed spec fn bytes(&self) -> Seq<u8> {
        self.data@
    }

    /// A repair symbol holding `data` as its wire bytes.
    pub fn new(data: Vec<u8>) -> (r: RepairSymbol)
        ensures
            r.bytes() == data@,
    {
        RepairSymbol { data }
    }

    pub fn wire_len(&self) -> (r: usize)
        ensures
            r == self.bytes().len(),
    {
        self.data.len()
    }

    pub fn take(self) -> (r: Vec<u8>)
        ensures
            r@ == self.bytes(),
    {
        self.data
    }

    pub fn get(&self) -> (r: &Vec<u8>)
        ensures
            r@ == self.bytes(),
    {
        &self.data
    }
}

} // verus!
