//! Type descriptors and the graph that holds them.

use vstd::prelude::*;

use crate::type_def::{type_def_refs_in, TypeDef};
use crate::type_id::{type_id_refs_in, TypeId};

verus! {

/// The identity of a type: a stable token that names exactly one type of a
/// [`TypeGraph`].
#[derive(PartialEq, Eq, Structural, Clone, Copy, Debug, PartialOrd, Ord, Hash)]
pub struct MetaType {
    pub id: u64,
}

impl MetaType {
    /// Creates the identity with the given token.
    pub fn new(id: u64) -> (r: MetaType)
        ensures
            r.id == id,
    {
        MetaType { id }
    }
}

/// Types that name their own identity.
pub trait Metadata {
    /// Returns the identity of `Self`.
    fn meta_type() -> MetaType;
}

/// Types that know their own type identifier.
pub trait HasTypeId {
    /// Returns the type identifier of `Self`.
    fn type_id() -> TypeId;
}

/// Types that know their own internal structure.
pub trait HasTypeDef {
    /// Returns the type definition of `Self`.
    fn type_def() -> TypeDef;
}

/// A type: its identity, what it is called and its internal structure.
///
/// The identifier and the definition refer to other types by identity, so a
/// type may refer to itself, directly or through others.
#[derive(PartialEq, Eq, Debug)]
pub struct Descriptor {
    pub meta: MetaType,
    pub type_id: TypeId,
    pub type_def: TypeDef,
}

/// The descriptors of a set of types, each identity described once.
pub struct TypeGraph {
    descriptors: Vec<Descriptor>,
}

impl TypeGraph {
    /// The descriptors, in the order in which they were added.
    pub closed spec fn view(&self) -> Seq<Descriptor> {
        self.descriptors@
    }

    /// The graph describes the type with identity `id`.
    pub open spec fn has(&self, id: u64) -> bool {
        exists|i: int| 0 <= i < self.view().len() && (#[trigger] self.view()[i]).meta.id == id
    }

    /// The identities described by the graph.
    pub open spec fn ids(&self) -> Set<u64> {
        Set::new(|id: u64| self.has(id))
    }

    /// No identity is described twice, and every type that a descriptor
    /// refers to is described.
    pub open spec fn well_formed(&self) -> bool {
        &&& forall|i: int, j: int|
            0 <= i < j < self.view().len() ==> (#[trigger] self.view()[i]).meta.id
                != (#[trigger] self.view()[j]).meta.id
        &&& forall|i: int|
            0 <= i < self.view().len() ==> {
                &&& type_id_refs_in(#[trigger] self.view()[i].type_id, self.ids())
                &&& type_def_refs_in(self.view()[i].type_def, self.ids())
            }
    }

    /// Creates an empty graph.
    pub fn new() -> (r: TypeGraph)
        ensures
            r.view().len() == 0,
    {
        TypeGraph { descriptors: Vec::new() }
    }

    /// Returns the number of described types.
    pub fn len(&self) -> (r: usize)
        ensures
            r == self.view().len(),
    {
        self.descriptors.len()
    }

    /// Returns the descriptor of `ty`, if the graph has one.
    pub fn get(&self, ty: &MetaType) -> (r: Option<&Descriptor>)
        ensures
            match r {
                Some(d) => exists|i: int|
                    0 <= i < self.view().len() && self.view()[i] == *d && d.meta == *ty,
                None => !self.has(ty.id),
            },
    {
        let n = self.descriptors.len();
        let mut i: usize = 0;
        while i < n
            invariant
                n == self.view().len(),
                i <= n,
                forall|j: int| 0 <= j < i ==> (#[trigger] self.view()[j]).meta.id != ty.id,
            decreases n - i,
        {
            if self.descriptors[i].meta.id == ty.id {
                return Some(&self.descriptors[i]);
            }
            i = i + 1;
        }
        None
    }

    /// Adds the descriptor of a type, unless its identity is already described.
    ///
    /// Returns whether it was added.
    pub fn add(&mut self, meta: MetaType, type_id: TypeId, type_def: TypeDef) -> (r: bool)
        ensures
            r == !old(self).has(meta.id),
            r ==> final(self).view() == old(self).view().push(
                Descriptor { meta, type_id, type_def },
            ),
            !r ==> final(self).view() == old(self).view(),
    {
        match self.get(&meta) {
            Some(_) => false,
            None => {
                self.descriptors.push(Descriptor { meta, type_id, type_def });
                true
            },
        }
    }

    /// Adds the descriptor of the type `T`, unless its identity is already
    /// described.
    ///
    /// Returns whether it was added.
    pub fn add_type<T: Metadata + HasTypeId + HasTypeDef>(&mut self) -> (r: bool)
        ensures
            r ==> final(self).view().len() == old(self).view().len() + 1,
            !r ==> final(self).view() == old(self).view(),
            old(self).view().is_prefix_of(final(self).view()),
    {
        self.add(T::meta_type(), T::type_id(), T::type_def())
    }
}

} // verus!
