//! Two ready-made vertex payloads: the root marker and a plain datum.

use crate::protocols::{Datable, Identifiable};
use crate::text::{decimal, i32_to_decimal, signed_decimal, u64_to_decimal};
use vstd::prelude::*;
use vstd::string::StringExecFns;

verus! {

/// The origin of a context graph.
#[derive(Debug, Copy, Clone, Hash, Eq, PartialEq, Structural)]
pub struct Root {
    id: u64,
}

impl Root {
    pub closed spec fn spec_id(&self) -> u64 {
        self.id
    }

    /// The text that describes the root with identity `id`.
    pub open spec fn text(id: u64) -> Seq<char> {
        "Root ID: "@ + decimal(id as nat)
    }

    pub fn new(id: u64) -> (r: Self)
        ensures
            r.spec_id() == id,
    {
        Self { id }
    }

    pub fn to_string(&self) -> (s: String)
        ensures
            s@ == Self::text(self.spec_id()),
    {
        let mut s = String::from_str("Root ID: ");
        s.append(u64_to_decimal(self.id).as_str());
        s
    }
}

impl Identifiable for Root {
    fn id(&self) -> (id: u64)
        ensures
            id == self.spec_id(),
    {
        self.id
    }
}

/// An identified integer observation.
#[derive(Debug, Copy, Clone, Hash, Eq, PartialEq, Structural)]
pub struct Dataoid {
    id: u64,
    data: i32,
}

impl Dataoid {
    pub closed spec fn spec_id(&self) -> u64 {
        self.id
    }

    pub closed spec fn spec_data(&self) -> i32 {
        self.data
    }

    /// The text that describes the datum `data` with identity `id`.
    pub open spec fn text(id: u64, data: i32) -> Seq<char> {
        "Dataoid: id: "@ + decimal(id as nat) + " data: "@ + signed_decimal(data as int)
    }

    pub fn new(id: u64, data: i32) -> (d: Self)
        ensures
            d.spec_id() == id,
            d.spec_data() == data,
    {
        Self { id, data }
    }

    pub fn data(&self) -> (data: i32)
        ensures
            data == self.spec_data(),
    {
        self.data
    }

    pub fn to_string(&self) -> (s: String)
        ensures
            s@ == Self::text(self.spec_id(), self.spec_data()),
    {
        let mut s = String::from_str("Dataoid: id: ");
        s.append(u64_to_decimal(self.id).as_str());
        s.append(" data: ");
        s.append(i32_to_decimal(self.data).as_str());
        s
    }
}

impl Identifiable for Dataoid {
    fn id(&self) -> (id: u64)
        ensures
            id == self.spec_id(),
    {
        self.id
    }
}

impl Datable for Dataoid {

}

} // verus!
