//! The registry that compacts type descriptors.
//!
//! Strings and type identities are interned into symbols, and each type is
//! stored once, as a compacted identifier and definition that refer to other
//! types and to strings by symbol only. A type may be reached many times, also
//! from within itself: its identity is interned before its parts are compacted,
//! so a second visit returns the symbol at once.

use vstd::prelude::*;

use crate::interner::{extends, interned, lemma_interned_no_duplicates, symbol_of, Interner, Symbol};
use crate::meta_type::{Descriptor, MetaType, TypeGraph};
use crate::traversal::{lookup, reg_tables, with_string, Tables};
use crate::type_def::{compacts_named, compacts_type_def, lemma_compacts_type_def_extends, TypeDef};
use crate::type_id::{compacts_type_id, lemma_compacts_type_id_extends, TypeId};

verus! {

/// The compacted identifier and definition of one type.
#[derive(PartialEq, Eq, Debug)]
pub struct TypeIdDef {
    /// What the type is called.
    pub id: TypeId<Symbol, Symbol>,
    /// The internal structure of the type.
    pub def: TypeDef<Symbol, Symbol>,
}

/// The entry `e` compacts the descriptor `d` under the given tables.
pub open spec fn compacts_entry(e: TypeIdDef, d: Descriptor, strings: Seq<Seq<char>>, ids: Seq<u64>) -> bool {
    &&& compacts_type_id(e.id, d.type_id, strings, ids)
    &&& compacts_type_def(e.def, d.type_def, strings, ids)
}

/// The entries that are present, in storage order.
pub open spec fn defined(entries: Seq<Option<TypeIdDef>>) -> Seq<TypeIdDef>
    decreases entries.len(),
{
    if entries.len() == 0 {
        Seq::empty()
    } else {
        let rest = defined(entries.drop_last());
        match entries.last() {
            Some(e) => rest.push(e),
            None => rest,
        }
    }
}

/// The entries that are present, each with its symbol, in storage order.
pub open spec fn defined_pairs(entries: Seq<Option<TypeIdDef>>) -> Seq<(Symbol, TypeIdDef)>
    decreases entries.len(),
{
    if entries.len() == 0 {
        Seq::empty()
    } else {
        let rest = defined_pairs(entries.drop_last());
        match entries.last() {
            Some(e) => rest.push((Symbol { id: entries.len() as usize }, e)),
            None => rest,
        }
    }
}

/// Compacts the implementor using a registry: its strings and the types it
/// refers to are registered, and the result refers to them by symbol.
pub trait IntoCompact: Sized {
    /// The compacted form of `Self`.
    type Output;

    /// Every type that `self` refers to is described by `graph`.
    spec fn refs_within(&self, graph: &TypeGraph) -> bool;

    /// The tables that compacting `self` leaves behind, from the tables `t`.
    spec fn visit(&self, g: Seq<Descriptor>, t: Tables, fuel: nat) -> Tables;

    /// `out` is `self` with each string and type replaced by its symbol.
    spec fn compacts_to(&self, out: Self::Output, strings: Seq<Seq<char>>, ids: Seq<u64>) -> bool;

    /// Compacts `self`, registering its strings and the types it refers to.
    fn into_compact(&self, registry: &mut Registry, graph: &TypeGraph, fuel: Ghost<nat>) -> (r: Self::Output)
        requires
            old(registry).tracks(graph),
            graph.well_formed(),
            self.refs_within(graph),
            fuel@ >= graph.view().len() - old(registry).ids().len(),
        ensures
            final(registry).tracks(graph),
            old(registry).grows_to(final(registry)),
            self.compacts_to(r, final(registry).string_seq(), final(registry).ids()),
            final(registry).tables() == self.visit(graph.view(), old(registry).tables(), fuel@),
    ;
}

/// The registry for the compaction of type identifiers and definitions.
///
/// It holds a table of strings, a table of type identities and, for each
/// identity, the slot of its compacted entry, at the position of its symbol.
/// A slot is empty only while its type is being compacted.
pub struct Registry {
    string_table: Interner<&'static str>,
    type_table: Interner<u64>,
    types: Vec<Option<TypeIdDef>>,
}

/// What registering the type `ty` does to a registry: a known identity
/// returns its symbol and changes nothing; a new one gets the next symbol and a
/// compacted entry at it.
pub open spec fn registered(old: &Registry, new: &Registry, ty: MetaType, sym: Symbol) -> bool {
    if old.ids().contains(ty.id) {
        &&& new.string_seq() == old.string_seq()
        &&& new.ids() == old.ids()
        &&& new.entries() == old.entries()
        &&& symbol_of(old.ids(), sym, ty.id)
    } else {
        &&& sym.id == old.ids().len() + 1
        &&& symbol_of(new.ids(), sym, ty.id)
        &&& new.entries()[sym.id - 1] is Some
    }
}

impl Registry {
    /// The interned strings, in symbol order.
    pub closed spec fn string_seq(&self) -> Seq<Seq<char>> {
        self.string_table.view()
    }

    /// The interned type identities, in symbol order.
    pub closed spec fn ids(&self) -> Seq<u64> {
        self.type_table.view()
    }

    /// The slots of the compacted entries, in storage order.
    pub closed spec fn entries(&self) -> Seq<Option<TypeIdDef>> {
        self.types@
    }

    /// The string table and the identity table.
    pub open spec fn tables(&self) -> Tables {
        (self.string_seq(), self.ids())
    }

    /// Every slot is filled.
    pub open spec fn complete(&self) -> bool {
        forall|k: int| 0 <= k < self.entries().len() ==> (#[trigger] self.entries()[k]) is Some
    }

    /// The registry holds types of `graph`: each identity once, one slot per
    /// identity, and each filled slot compacts the descriptor of its identity.
    pub open spec fn tracks(&self, graph: &TypeGraph) -> bool {
        &&& self.string_seq().no_duplicates()
        &&& self.ids().no_duplicates()
        &&& forall|k: int| 0 <= k < self.ids().len() ==> graph.has(#[trigger] self.ids()[k])
        &&& self.ids().len() <= graph.view().len()
        &&& self.entries().len() == self.ids().len()
        &&& forall|k: int, j: int|
            0 <= k < self.entries().len() && 0 <= j < graph.view().len()
                && (#[trigger] self.entries()[k]) is Some && (#[trigger] graph.view()[j]).meta.id
                == self.ids()[k] ==> compacts_entry(
                self.entries()[k]->Some_0,
                graph.view()[j],
                self.string_seq(),
                self.ids(),
            )
    }

    /// `new` comes from `self` by registrations: the tables grow at their
    /// ends, existing slots are kept and the new ones are filled.
    pub open spec fn grows_to(&self, new: &Registry) -> bool {
        &&& extends(self.string_seq(), new.string_seq())
        &&& extends(self.ids(), new.ids())
        &&& self.entries().len() <= new.entries().len()
        &&& forall|k: int| 0 <= k < self.entries().len() ==> new.entries()[k] == self.entries()[k]
        &&& forall|k: int|
            self.entries().len() <= k < new.entries().len() ==> (#[trigger] new.entries()[k]) is Some
    }

    /// Creates an empty registry.
    pub fn new() -> (r: Self)
        ensures
            r.string_seq().len() == 0,
            forall|g: &TypeGraph| r.tracks(g),
            r.ids().len() == 0,
            r.entries().len() == 0,
    {
        Registry { string_table: Interner::new(), type_table: Interner::new(), types: Vec::new() }
    }

    /// Registers a string and returns its symbol.
    pub fn register_string(&mut self, string: &'static str) -> (r: Symbol)
        ensures
            interned(
                old(self).string_seq(),
                string@,
                final(self).string_seq(),
                final(self).string_seq().len() > old(self).string_seq().len(),
                r,
            ),
            final(self).ids() == old(self).ids(),
            final(self).entries() == old(self).entries(),
            old(self).string_seq().no_duplicates() ==> final(self).string_seq().no_duplicates(),
    {
        let (_, sym) = self.string_table.intern_or_get(string);
        proof {
            if old(self).string_seq().no_duplicates() {
                lemma_interned_no_duplicates(
                    old(self).string_seq(),
                    string@,
                    self.string_seq(),
                    self.string_seq().len() > old(self).string_seq().len(),
                    sym,
                );
            }
        }
        sym
    }

    /// Registers a string found in a descriptor of `graph`.
    pub(crate) fn intern_string(&mut self, graph: &TypeGraph, string: &'static str) -> (r: Symbol)
        requires
            old(self).tracks(graph),
        ensures
            final(self).tracks(graph),
            old(self).grows_to(final(self)),
            symbol_of(final(self).string_seq(), r, string@),
            final(self).tables() == with_string(old(self).tables(), string@),
            final(self).entries() == old(self).entries(),
    {
        let ghost r0 = *self;
        let r = self.register_string(string);
        proof {
            lemma_register_string_tracks(&r0, self, graph, string@, r);
        }
        r
    }

    /// Returns the compacted entries, in storage order.
    pub fn definitions(&self) -> (r: Vec<&TypeIdDef>)
        ensures
            r@.map_values(|e: &TypeIdDef| *e) == defined(self.entries()),
    {
        let n = self.types.len();
        let mut out: Vec<&TypeIdDef> = Vec::new();
        let mut i: usize = 0;
        while i < n
            invariant
                n == self.entries().len(),
                i <= n,
                out@.map_values(|e: &TypeIdDef| *e) == defined(self.entries().take(i as int)),
            decreases n - i,
        {
            proof {
                assert(self.entries().take(i + 1).drop_last() == self.entries().take(i as int));
            }
            match &self.types[i] {
                Some(e) => {
                    proof {
                        assert(out@.push(e).map_values(|e: &TypeIdDef| *e) == out@.map_values(
                            |e: &TypeIdDef| *e,
                        ).push(*e));
                    }
                    out.push(e);
                },
                None => {},
            }
            i = i + 1;
        }
        proof {
            assert(self.entries().take(n as int) == self.entries());
        }
        out
    }

    /// Returns the compacted entries with their symbols, in storage order.
    pub fn iter(&self) -> (r: Vec<(Symbol, &TypeIdDef)>)
        ensures
            r@.map_values(|p: (Symbol, &TypeIdDef)| (p.0, *p.1)) == defined_pairs(self.entries()),
    {
        let n = self.types.len();
        let mut out: Vec<(Symbol, &TypeIdDef)> = Vec::new();
        let mut i: usize = 0;
        while i < n
            invariant
                n == self.entries().len(),
                i <= n,
                out@.map_values(|p: (Symbol, &TypeIdDef)| (p.0, *p.1)) == defined_pairs(
                    self.entries().take(i as int),
                ),
            decreases n - i,
        {
            proof {
                assert(self.entries().take(i + 1).drop_last() == self.entries().take(i as int));
            }
            match &self.types[i] {
                Some(e) => {
                    let sym = Symbol { id: i + 1 };
                    proof {
                        assert(out@.push((sym, e)).map_values(|p: (Symbol, &TypeIdDef)| (p.0, *p.1))
                            == out@.map_values(|p: (Symbol, &TypeIdDef)| (p.0, *p.1)).push((sym, *e)));
                    }
                    out.push((sym, e));
                },
                None => {},
            }
            i = i + 1;
        }
        proof {
            assert(self.entries().take(n as int) == self.entries());
        }
        out
    }

    /// Returns the interned strings, in symbol order.
    pub fn strings(&self) -> (r: Vec<&'static str>)
        ensures
            r@.map_values(|s: &'static str| s@) == self.string_seq(),
    {
        let n = self.string_table.len();
        let mut out: Vec<&'static str> = Vec::new();
        let mut i: usize = 0;
        while i < n
            invariant
                n == self.string_seq().len(),
                i <= n,
                out@.map_values(|s: &'static str| s@) == self.string_seq().take(i as int),
            decreases n - i,
        {
            let s = *self.string_table.get(Symbol { id: i + 1 });
            proof {
                assert(out@.push(s).map_values(|s: &'static str| s@) == out@.map_values(
                    |s: &'static str| s@,
                ).push(s@));
                assert(self.string_seq().take(i + 1) == self.string_seq().take(i as int).push(s@));
            }
            out.push(s);
            i = i + 1;
        }
        proof {
            assert(self.string_seq().take(n as int) == self.string_seq());
        }
        out
    }

    /// Creates a registry from its interned strings and its entries, in
    /// storage order; no type identity is interned.
    pub(crate) fn from_parts(strings: Vec<&'static str>, types: Vec<Option<TypeIdDef>>) -> (r: Registry)
        ensures
            r.string_seq() == strings@.map_values(|s: &'static str| s@),
            r.ids().len() == 0,
            r.entries() == types@,
    {
        Registry { string_table: Interner::from_values(strings), type_table: Interner::new(), types }
    }

    /// Gives up the interned strings and the entry slots.
    pub(crate) fn into_parts(self) -> (r: (Vec<&'static str>, Vec<Option<TypeIdDef>>))
        ensures
            r.0@.map_values(|s: &'static str| s@) == self.string_seq(),
            r.1@ == self.entries(),
    {
        (self.string_table.into_values(), self.types)
    }

    /// Interns a type identity, returning whether it is new and its symbol.
    fn intern_type_id(&mut self, id: u64) -> (r: (bool, Symbol))
        ensures
            interned(old(self).ids(), id, final(self).ids(), r.0, r.1),
            final(self).string_seq() == old(self).string_seq(),
            final(self).entries() == old(self).entries(),
    {
        self.type_table.intern_or_get(id)
    }

    /// Registers a type of `graph` and returns the symbol of its identity.
    ///
    /// A type seen before is not compacted again. A new one is given the next
    /// symbol before its identifier and definition are compacted, so that
    /// the types it reaches, itself included, find it registered. The tables
    /// grow as the traversal of the type prescribes.
    pub fn register_type(&mut self, graph: &TypeGraph, ty: &MetaType) -> (r: Symbol)
        requires
            old(self).tracks(graph),
            graph.well_formed(),
            graph.has(ty.id),
        ensures
            final(self).tracks(graph),
            old(self).grows_to(final(self)),
            registered(old(self), final(self), *ty, r),
            final(self).tables() == reg_tables(
                graph.view(),
                old(self).tables(),
                ty.id,
                (graph.view().len() - old(self).ids().len()) as nat,
            ),
    {
        self.register_type_in(graph, ty, Ghost((graph.view().len() - self.ids().len()) as nat))
    }

    /// Registers a type of `graph`, with `fuel` nested registrations at most.
    pub(crate) fn register_type_in(&mut self, graph: &TypeGraph, ty: &MetaType, fuel: Ghost<nat>) -> (r: Symbol)
        requires
            old(self).tracks(graph),
            graph.well_formed(),
            graph.has(ty.id),
            fuel@ >= graph.view().len() - old(self).ids().len(),
        ensures
            final(self).tracks(graph),
            old(self).grows_to(final(self)),
            registered(old(self), final(self), *ty, r),
            final(self).tables() == reg_tables(graph.view(), old(self).tables(), ty.id, fuel@),
        decreases fuel@, 0int,
    {
        let ghost s0 = self.string_seq();
        let ghost i0 = self.ids();
        let (inserted, symbol) = self.intern_type_id(ty.id);
        if !inserted {
            return symbol;
        }
        self.types.push(None);
        proof {
            assert(self.ids() == i0.push(ty.id));
            assert(extends(i0, self.ids()));
            assert(self.ids().no_duplicates()) by {
                assert forall|a: int, b: int|
                    0 <= a < self.ids().len() && 0 <= b < self.ids().len() && a != b implies self.ids()[a]
                    != self.ids()[b] by {
                    if a < i0.len() && b < i0.len() {
                    } else if a == i0.len() {
                        assert(self.ids()[b] == i0[b]);
                        if self.ids()[a] == self.ids()[b] {
                            assert(i0.contains(ty.id));
                        }
                    } else {
                        assert(self.ids()[a] == i0[a]);
                        if self.ids()[a] == self.ids()[b] {
                            assert(i0.contains(ty.id));
                        }
                    }
                }
            }
            lemma_ids_fit(self.ids(), graph);
            assert forall|k: int, j: int|
                0 <= k < self.entries().len() && 0 <= j < graph.view().len()
                    && (#[trigger] self.entries()[k]) is Some && (#[trigger] graph.view()[j]).meta.id
                    == self.ids()[k] implies compacts_entry(
                self.entries()[k]->Some_0,
                graph.view()[j],
                self.string_seq(),
                self.ids(),
            ) by {
                let e = self.entries()[k]->Some_0;
                assert(k < i0.len());
                assert(self.entries()[k] == old(self).entries()[k]);
                lemma_compacts_type_id_extends(e.id, graph.view()[j].type_id, s0, i0, self.string_seq(), self.ids());
                lemma_compacts_type_def_extends(e.def, graph.view()[j].type_def, s0, i0, self.string_seq(), self.ids());
            }
        }
        let d = match graph.get(ty) {
            Some(d) => d,
            None => {
                return symbol;
            },
        };
        proof {
            let k = choose|i: int| 0 <= i < graph.view().len() && graph.view()[i] == *d && d.meta == *ty;
            let c = choose|i: int| 0 <= i < graph.view().len() && (#[trigger] graph.view()[i]).meta.id == ty.id;
            assert(graph.view()[k].meta.id == ty.id);
            assert(graph.view()[c].meta.id == graph.view()[k].meta.id);
            assert(c == k);
            assert(lookup(graph.view(), ty.id) == *d);
            assert(fuel@ > 0);
        }
        let ghost r1 = *self;
        let ghost slot = symbol.id - 1;
        let id = d.type_id.into_compact(self, graph, Ghost((fuel@ - 1) as nat));
        let ghost s2 = self.string_seq();
        let ghost i2 = self.ids();
        let ghost r2 = *self;
        let def = d.type_def.into_compact(self, graph, Ghost((fuel@ - 1) as nat));
        proof {
            lemma_grows_trans(&r1, &r2, self);
            lemma_compacts_type_id_extends(id, d.type_id, s2, i2, self.string_seq(), self.ids());
            assert(self.entries()[slot] is None);
        }
        self.types.set(symbol.id - 1, Some(TypeIdDef { id, def }));
        proof {
            assert forall|k: int, j: int|
                0 <= k < self.entries().len() && 0 <= j < graph.view().len()
                    && (#[trigger] self.entries()[k]) is Some && (#[trigger] graph.view()[j]).meta.id
                    == self.ids()[k] implies compacts_entry(
                self.entries()[k]->Some_0,
                graph.view()[j],
                self.string_seq(),
                self.ids(),
            ) by {
                if k == slot {
                    let i0d = choose|i: int| 0 <= i < graph.view().len() && graph.view()[i] == *d && d.meta == *ty;
                    assert(graph.view()[j].meta.id == graph.view()[i0d].meta.id);
                    assert(j == i0d);
                }
            }
            assert(extends(i0, self.ids()));
            assert(old(self).grows_to(self));
        }
        symbol
    }
}

impl Default for Registry {
    fn default() -> (r: Self)
        ensures
            r.string_seq().len() == 0,
            r.ids().len() == 0,
            r.entries().len() == 0,
    {
        Registry::new()
    }
}

/// Distinct identities that a graph describes are no more than its
/// descriptors.
pub proof fn lemma_ids_fit(ids: Seq<u64>, graph: &TypeGraph)
    requires
        ids.no_duplicates(),
        forall|k: int| 0 <= k < ids.len() ==> graph.has(#[trigger] ids[k]),
    ensures
        ids.len() <= graph.view().len(),
{
    broadcast use vstd::seq_lib::seq_to_set_is_finite;

    let g = graph.view().map_values(|d: Descriptor| d.meta.id);
    ids.unique_seq_to_set();
    g.lemma_cardinality_of_set();
    assert(ids.to_set().subset_of(g.to_set())) by {
        assert forall|x: u64| ids.to_set().contains(x) implies g.to_set().contains(x) by {
            let k = choose|k: int| 0 <= k < ids.len() && ids[k] == x;
            assert(graph.has(ids[k]));
            let i = choose|i: int| 0 <= i < graph.view().len() && (#[trigger] graph.view()[i]).meta.id == x;
            assert(g[i] == x);
        }
    }
    vstd::set_lib::lemma_len_subset(ids.to_set(), g.to_set());
}

/// Registering a string keeps a registry that holds types of `graph` in that
/// state: the string table stays free of duplicates, and compacted entries
/// keep their meaning.
pub proof fn lemma_register_string_tracks(r0: &Registry, r1: &Registry, graph: &TypeGraph, v: Seq<char>, sym: Symbol)
    requires
        r0.tracks(graph),
        interned(r0.string_seq(), v, r1.string_seq(), r1.string_seq().len() > r0.string_seq().len(), sym),
        r1.ids() == r0.ids(),
        r1.entries() == r0.entries(),
    ensures
        r1.tracks(graph),
        r0.grows_to(r1),
        r1.tables() == with_string(r0.tables(), v),
        symbol_of(r1.string_seq(), sym, v),
{
    let s0 = r0.string_seq();
    let s1 = r1.string_seq();
    assert(extends(s0, s1));
    lemma_interned_no_duplicates(s0, v, s1, s1.len() > s0.len(), sym);
    assert forall|k: int, j: int|
        0 <= k < r1.entries().len() && 0 <= j < graph.view().len() && (#[trigger] r1.entries()[k]) is Some
            && (#[trigger] graph.view()[j]).meta.id == r1.ids()[k] implies compacts_entry(
        r1.entries()[k]->Some_0,
        graph.view()[j],
        s1,
        r1.ids(),
    ) by {
        let e = r1.entries()[k]->Some_0;
        lemma_compacts_type_id_extends(e.id, graph.view()[j].type_id, s0, r1.ids(), s1, r1.ids());
        lemma_compacts_type_def_extends(e.def, graph.view()[j].type_def, s0, r1.ids(), s1, r1.ids());
    }
}

/// Two symbols of one value in a table without duplicates are the same.
pub proof fn lemma_symbol_unique(ids: Seq<u64>, a: Symbol, b: Symbol, v: u64)
    requires
        ids.no_duplicates(),
        symbol_of(ids, a, v),
        symbol_of(ids, b, v),
    ensures
        a == b,
{
}

/// Registering the same type twice returns the same symbol both times; the
/// second registration changes nothing, and the registry then holds exactly
/// one identity for the type, whose slot is filled.
pub proof fn lemma_register_twice(
    r0: &Registry,
    r1: &Registry,
    r2: &Registry,
    graph: &TypeGraph,
    ty: MetaType,
    sym1: Symbol,
    sym2: Symbol,
)
    requires
        r0.tracks(graph),
        r0.complete(),
        r0.grows_to(r1),
        r1.tracks(graph),
        registered(r0, r1, ty, sym1),
        r1.grows_to(r2),
        r2.tracks(graph),
        registered(r1, r2, ty, sym2),
    ensures
        sym1 == sym2,
        r2.string_seq() == r1.string_seq(),
        r2.ids() == r1.ids(),
        r2.entries() == r1.entries(),
        r2.complete(),
        r2.entries()[sym2.id - 1] is Some,
        forall|k: int| 0 <= k < r2.ids().len() && r2.ids()[k] == ty.id ==> k == sym2.id - 1,
{
    assert(r1.ids().contains(ty.id)) by {
        assert(r1.ids()[sym1.id - 1] == ty.id);
    }
    lemma_symbol_unique(r1.ids(), sym1, sym2, ty.id);
    assert forall|k: int| 0 <= k < r2.entries().len() implies (#[trigger] r2.entries()[k]) is Some by {
        if k < r0.entries().len() {
            assert(r1.entries()[k] == r0.entries()[k]);
        }
    }
    assert forall|k: int| 0 <= k < r2.ids().len() && r2.ids()[k] == ty.id implies k == sym2.id - 1 by {
        lemma_symbol_unique(r2.ids(), Symbol { id: (k + 1) as usize }, sym2, ty.id);
    }
}

/// A type registered once keeps its symbol whatever was registered since:
/// registering it again returns that symbol and changes nothing.
pub proof fn lemma_register_again(
    r1: &Registry,
    sym1: Symbol,
    ty: MetaType,
    r2: &Registry,
    r3: &Registry,
    graph: &TypeGraph,
    sym2: Symbol,
)
    requires
        symbol_of(r1.ids(), sym1, ty.id),
        r1.grows_to(r2),
        r2.tracks(graph),
        registered(r2, r3, ty, sym2),
    ensures
        sym2 == sym1,
        r3.tables() == r2.tables(),
        r3.entries() == r2.entries(),
{
    assert(r2.ids()[sym1.id - 1] == ty.id);
    assert(r2.ids().contains(ty.id));
    lemma_symbol_unique(r2.ids(), sym1, sym2, ty.id);
}

/// A type that refers to itself through a field of its own structure is
/// compacted once: the registry holds its identity once, and the field refers
/// to the very symbol that registering the type returned.
pub proof fn lemma_self_reference(
    r0: &Registry,
    r1: &Registry,
    graph: &TypeGraph,
    ty: MetaType,
    sym: Symbol,
    j: int,
    f: int,
)
    requires
        r0.tracks(graph),
        graph.well_formed(),
        r0.grows_to(r1),
        r1.tracks(graph),
        registered(r0, r1, ty, sym),
        !r0.ids().contains(ty.id),
        0 <= j < graph.view().len(),
        graph.view()[j].meta == ty,
        graph.view()[j].type_def matches TypeDef::Struct(s) && 0 <= f < s.fields@.len()
            && s.fields@[f].ty == ty,
    ensures
        r1.entries()[sym.id - 1] matches Some(e) && e.def matches TypeDef::Struct(c) && c.fields@[f].ty
            == sym,
        forall|k: int| 0 <= k < r1.ids().len() && r1.ids()[k] == ty.id ==> k == sym.id - 1,
{
    let k = sym.id - 1;
    let e = r1.entries()[k]->Some_0;
    assert(compacts_entry(e, graph.view()[j], r1.string_seq(), r1.ids()));
    let c = e.def->Struct_0;
    let s = graph.view()[j].type_def->Struct_0;
    assert(compacts_named(c.fields@[f], s.fields@[f], r1.string_seq(), r1.ids()));
    lemma_symbol_unique(r1.ids(), c.fields@[f].ty, sym, ty.id);
    assert forall|k: int| 0 <= k < r1.ids().len() && r1.ids()[k] == ty.id implies k == sym.id - 1 by {
        lemma_symbol_unique(r1.ids(), Symbol { id: (k + 1) as usize }, sym, ty.id);
    }
}

/// Growth of a registry composes.
pub proof fn lemma_grows_trans(a: &Registry, b: &Registry, c: &Registry)
    requires
        a.grows_to(b),
        b.grows_to(c),
    ensures
        a.grows_to(c),
{
}

} // verus!
