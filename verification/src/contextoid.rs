//! The vertex of a context graph: an identity and one tagged payload.

use crate::protocols::{Datable, Identifiable, SpaceTemporal, Spatial, Temporal};
use crate::text::{decimal, u64_to_decimal};
use vstd::prelude::*;
use vstd::string::StringExecFns;

verus! {

/// What a vertex carries: the root marker, or exactly one payload.
#[derive(Debug, Copy, Clone, Hash, Eq, PartialEq)]
pub enum ContextoidType<D, S, T, ST> where D: Datable, S: Spatial, T: Temporal, ST: SpaceTemporal {
    Root,
    Datum(D),
    SpatialPoint(S),
    TemporalPoint(T),
    SpaceTimePoint(ST),
}

/// A vertex: immutable once built, and free of any graph state.
#[derive(Debug, Copy, Clone, Hash, Eq, PartialEq)]
pub struct Contextoid<D, S, T, ST> where D: Datable, S: Spatial, T: Temporal, ST: SpaceTemporal {
    id: u64,
    vertex_type: ContextoidType<D, S, T, ST>,
}

impl<D, S, T, ST> Contextoid<D, S, T, ST> where
    D: Datable,
    S: Spatial,
    T: Temporal,
    ST: SpaceTemporal,
 {
    /// The identity the vertex was built with.
    pub closed spec fn spec_id(&self) -> u64 {
        self.id
    }

    /// The payload the vertex was built with.
    pub closed spec fn spec_vertex_type(&self) -> ContextoidType<D, S, T, ST> {
        self.vertex_type
    }

    pub fn new(id: u64, vertex_type: ContextoidType<D, S, T, ST>) -> (v: Self)
        ensures
            v.spec_id() == id,
            v.spec_vertex_type() == vertex_type,
    {
        Self { id, vertex_type }
    }

    pub fn vertex_type(&self) -> (t: &ContextoidType<D, S, T, ST>)
        ensures
            *t == self.spec_vertex_type(),
    {
        &self.vertex_type
    }

    /// The text that describes a vertex with identity `id` whose payload is
    /// written `payload`.
    pub open spec fn text(id: u64, payload: Seq<char>) -> Seq<char> {
        "Contextoid ID: "@ + decimal(id as nat) + " Type: "@ + payload
    }

    /// Describes the vertex, given the text of its payload.
    pub fn to_string_with(&self, payload: &str) -> (s: String)
        ensures
            s@ == Self::text(self.spec_id(), payload@),
    {
        let mut s = String::from_str("Contextoid ID: ");
        s.append(u64_to_decimal(self.id).as_str());
        s.append(" Type: ");
        s.append(payload);
        s
    }

    /// Two vertices with the same identity and the same payload are the same
    /// vertex.
    pub proof fn lemma_same_parts_same_vertex(a: Self, b: Self)
        requires
            a.spec_id() == b.spec_id(),
            a.spec_vertex_type() == b.spec_vertex_type(),
        ensures
            a == b,
    {
    }
}

impl<D, S, T, ST> Identifiable for Contextoid<D, S, T, ST> where
    D: Datable,
    S: Spatial,
    T: Temporal,
    ST: SpaceTemporal,
 {
    fn id(&self) -> (id: u64)
        ensures
            id == self.spec_id(),
    {
        self.id
    }
}

} // verus!
