//! Vertices: an identifier and named properties of three types.

use crate::model::VertexModel;
use crate::text::{push_decimal, vertex_text};
use vstd::hash_map::StringHashMap;
use vstd::prelude::*;
use vstd::string::StringExecFns;

verus! {

/// A node of a graph.
///
/// The three property maps are independent: one name may be set in each of
/// them, with unrelated values.
pub struct Vertex {
    pub id: usize,
    pub string_props: StringHashMap<String>,
    pub int_props: StringHashMap<i64>,
    /// Each value is the bit pattern of a 64-bit float (`f64::to_bits`).
    pub float_props: StringHashMap<u64>,
}

impl View for Vertex {
    type V = VertexModel;

    open spec fn view(&self) -> VertexModel {
        VertexModel {
            id: self.id as nat,
            string_props: self.string_props@.map_values(|s: String| s@),
            int_props: self.int_props@,
            float_props: self.float_props@,
        }
    }
}

impl Vertex {
    /// A vertex with the given identifier and no property.
    pub fn new(id: usize) -> (v: Vertex)
        ensures
            v@ == VertexModel::new(id as nat),
    {
        let v = Vertex {
            id,
            string_props: StringHashMap::new(),
            int_props: StringHashMap::new(),
            float_props: StringHashMap::new(),
        };
        assert(v@.string_props =~= Map::empty());
        v
    }

    /// Sets the string property `label` to `value`, replacing any earlier value.
    pub fn add_string_props(&mut self, label: String, value: String)
        ensures
            final(self)@ == old(self)@.add_string_props(label@, value@),
    {
        self.string_props.insert(label, value);
        assert(self@.string_props =~= old(self)@.string_props.insert(label@, value@));
    }

    /// Sets the integer property `label` to `value`, replacing any earlier value.
    pub fn add_int_props(&mut self, label: String, value: i64)
        ensures
            final(self)@ == old(self)@.add_int_props(label@, value),
    {
        self.int_props.insert(label, value);
    }

    /// Sets the float property `label` to the float whose bit pattern is
    /// `value`, replacing any earlier value.
    pub fn add_float_props(&mut self, label: String, value: u64)
        ensures
            final(self)@ == old(self)@.add_float_props(label@, value),
    {
        self.float_props.insert(label, value);
    }

    /// The text of this vertex, which names its identifier.
    pub fn to_string(&self) -> (s: String)
        ensures
            s@ == vertex_text(self@),
    {
        let mut s = String::from_str("Vertex(id: ");
        push_decimal(&mut s, self.id);
        s.append(")");
        s
    }
}

} // verus!
