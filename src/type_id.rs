//! Type identifiers: what a type is called and where it was defined.

use vstd::prelude::*;

use crate::interner::{extends, symbol_of, Symbol};
use crate::meta_type::{Descriptor, Metadata, MetaType, TypeGraph};
use crate::registry::{lemma_grows_trans, IntoCompact, Registry};
use crate::traversal::{intern_seq, metas_tables, type_id_tables, with_string, Tables};

verus! {

/// A character that may start an identifier.
pub open spec fn is_ident_start(c: char) -> bool {
    c == '_' || ('a' <= c && c <= 'z') || ('A' <= c && c <= 'Z')
}

/// A character that may follow the first one of an identifier.
pub open spec fn is_ident_continue(c: char) -> bool {
    is_ident_start(c) || ('0' <= c && c <= '9')
}

/// `s` is a non-empty identifier: a letter or underscore, then letters, digits
/// or underscores.
pub open spec fn is_identifier(s: Seq<char>) -> bool {
    &&& s.len() > 0
    &&& is_ident_start(s[0])
    &&& forall|i: int| 1 <= i < s.len() ==> is_ident_continue(#[trigger] s[i])
}

/// Tells whether `s` is an identifier.
pub fn check_identifier(s: &str) -> (r: bool)
    ensures
        r == is_identifier(s@),
{
    let n = s.unicode_len();
    if n == 0 {
        return false;
    }
    let c = s.get_char(0);
    if !(c == '_' || ('a' <= c && c <= 'z') || ('A' <= c && c <= 'Z')) {
        return false;
    }
    let mut i: usize = 1;
    while i < n
        invariant
            n == s@.len(),
            1 <= i <= n,
            forall|j: int| 1 <= j < i ==> is_ident_continue(#[trigger] s@[j]),
        decreases n - i,
    {
        let c = s.get_char(i);
        if !(c == '_' || ('a' <= c && c <= 'z') || ('A' <= c && c <= 'Z') || ('0' <= c && c <= '9')) {
            return false;
        }
        i = i + 1;
    }
    true
}

/// A path separator `::` starts at position `i` of `s`.
pub open spec fn separator_at(s: Seq<char>, i: int) -> bool {
    0 <= i && i + 1 < s.len() && s[i] == ':' && s[i + 1] == ':'
}

/// The pieces of `s[start..]` between separators, when the scan for the next
/// separator has reached position `i`.
pub open spec fn split_from(s: Seq<char>, start: int, i: int) -> Seq<Seq<char>>
    decreases s.len() - i,
{
    if i < start || i >= s.len() {
        seq![s.subrange(start, s.len() as int)]
    } else if separator_at(s, i) {
        seq![s.subrange(start, i)] + split_from(s, i + 2, i + 2)
    } else {
        split_from(s, start, i + 1)
    }
}

/// The segments of a module path: the pieces between its `::` separators, left
/// to right.
pub open spec fn split_path(s: Seq<char>) -> Seq<Seq<char>> {
    split_from(s, 0, 0)
}

/// Splits a module path on its `::` separators.
pub fn split_module_path(path: &'static str) -> (r: Vec<&'static str>)
    ensures
        r@.map_values(|p: &'static str| p@) == split_path(path@),
{
    let n = path.unicode_len();
    let mut parts: Vec<&'static str> = Vec::new();
    let mut start: usize = 0;
    let mut i: usize = 0;
    while i < n
        invariant
            n == path@.len(),
            start <= i <= n,
            parts@.map_values(|p: &'static str| p@) + split_from(path@, start as int, i as int)
                == split_path(path@),
        decreases n - i,
    {
        if i + 1 < n && path.get_char(i) == ':' && path.get_char(i + 1) == ':' {
            let part = path.substring_char(start, i);
            proof {
                assert(separator_at(path@, i as int));
                let rest = split_from(path@, i + 2, i + 2);
                assert(split_from(path@, start as int, i as int) == seq![part@] + rest);
                assert(parts@.push(part).map_values(|p: &'static str| p@) =~= parts@.map_values(
                    |p: &'static str| p@,
                ).push(part@));
                assert(parts@.map_values(|p: &'static str| p@).push(part@) + rest
                    =~= parts@.map_values(|p: &'static str| p@) + (seq![part@] + rest));
            }
            parts.push(part);
            start = i + 2;
            i = i + 2;
        } else {
            proof {
                assert(!separator_at(path@, i as int));
                assert(split_from(path@, start as int, i as int) == split_from(
                    path@,
                    start as int,
                    i + 1,
                ));
            }
            i = i + 1;
        }
    }
    let part = path.substring_char(start, n);
    proof {
        let pre = parts@.map_values(|p: &'static str| p@);
        assert(split_from(path@, start as int, i as int) == seq![part@]);
        assert(parts@.push(part).map_values(|p: &'static str| p@) =~= pre.push(part@));
        assert(pre + seq![part@] =~= pre.push(part@));
    }
    parts.push(part);
    parts
}

/// An error that may be encountered upon constructing namespaces.
#[derive(PartialEq, Eq, Structural, Clone, Copy, Debug)]
pub enum NamespaceError {
    /// The module path does not have a single segment.
    MissingSegments,
    /// A segment of the module path is not an identifier.
    InvalidIdentifier {
        /// The index of the first offending segment.
        segment: usize,
    },
}

/// The namespace of a type definition: an ordered path of identifiers.
///
/// The first segment is the crate in which the type was defined. Prelude types
/// live in the root namespace, which has no segments.
#[derive(PartialEq, Eq, PartialOrd, Ord, Debug)]
pub struct Namespace<S = &'static str> {
    segments: Vec<S>,
}

/// What constructing a namespace from `segs` yields: the root is refused, and
/// so is a path with a segment that is not an identifier, reported at the
/// first such segment.
pub open spec fn namespace_outcome(segs: Seq<Seq<char>>, r: Result<Namespace, NamespaceError>) -> bool {
    match r {
        Ok(ns) => {
            &&& segs.len() > 0
            &&& forall|i: int| 0 <= i < segs.len() ==> is_identifier(#[trigger] segs[i])
            &&& ns.segment_chars() == segs
        },
        Err(NamespaceError::MissingSegments) => segs.len() == 0,
        Err(NamespaceError::InvalidIdentifier { segment }) => {
            &&& segs.len() > 0
            &&& segment < segs.len()
            &&& !is_identifier(segs[segment as int])
            &&& forall|j: int| 0 <= j < segment ==> is_identifier(#[trigger] segs[j])
        },
    }
}

impl<S> Namespace<S> {
    /// The segments, in path order.
    pub closed spec fn view(&self) -> Seq<S> {
        self.segments@
    }

    /// Returns the segments, in path order.
    pub fn segments(&self) -> (r: &Vec<S>)
        ensures
            r@ == self.view(),
    {
        &self.segments
    }
}

impl Namespace<Symbol> {
    /// Creates a compacted namespace from the symbols of its segments.
    pub fn from_symbols(segments: Vec<Symbol>) -> (r: Self)
        ensures
            r.view() == segments@,
    {
        Namespace { segments }
    }
}

impl Namespace {
    /// The characters of each segment, in path order.
    pub open spec fn segment_chars(&self) -> Seq<Seq<char>> {
        self.view().map_values(|s: &'static str| s@)
    }

    /// Creates a namespace from the given segments.
    pub fn new(segments: Vec<&'static str>) -> (r: Result<Self, NamespaceError>)
        ensures
            namespace_outcome(segments@.map_values(|s: &'static str| s@), r),
            r is Ok ==> r->Ok_0.view() == segments@,
    {
        let ghost segs = segments@.map_values(|s: &'static str| s@);
        let n = segments.len();
        if n == 0 {
            return Err(NamespaceError::MissingSegments);
        }
        let mut i: usize = 0;
        while i < n
            invariant
                n == segments@.len(),
                segs == segments@.map_values(|s: &'static str| s@),
                i <= n,
                forall|j: int| 0 <= j < i ==> is_identifier(#[trigger] segs[j]),
            decreases n - i,
        {
            if !check_identifier(segments[i]) {
                return Err(NamespaceError::InvalidIdentifier { segment: i });
            }
            i = i + 1;
        }
        let ns = Namespace { segments };
        proof {
            assert(ns.segment_chars() =~= segs);
        }
        Ok(ns)
    }

    /// Creates a namespace from a module path such as `my_crate::module`.
    pub fn from_module_path(path: &'static str) -> (r: Result<Self, NamespaceError>)
        ensures
            namespace_outcome(split_path(path@), r),
    {
        Self::new(split_module_path(path))
    }

    /// Creates the root namespace of prelude types, which has no segments.
    pub fn prelude() -> (r: Self)
        ensures
            r.view().len() == 0,
    {
        Namespace { segments: Vec::new() }
    }
}


/// Identifies a primitive type.
#[derive(PartialEq, Eq, Structural, PartialOrd, Ord, Clone, Copy, Debug, Hash)]
pub enum TypeIdPrimitive {
    /// `bool`
    Bool,
    /// `char`
    Char,
    /// `str`
    Str,
    /// `u8`
    U8,
    /// `u16`
    U16,
    /// `u32`
    U32,
    /// `u64`
    U64,
    /// `u128`
    U128,
    /// `i8`
    I8,
    /// `i16`
    I16,
    /// `i32`
    I32,
    /// `i64`
    I64,
    /// `i128`
    I128,
}

/// The identifier of a type defined by the user.
#[derive(PartialEq, Eq, PartialOrd, Ord, Debug)]
pub struct TypeIdCustom<S = &'static str, T = MetaType> {
    /// The name of the type.
    pub name: S,
    /// The namespace in which the type is defined; the root one for prelude
    /// types.
    pub namespace: Namespace<S>,
    /// The generic type parameters in use.
    pub type_params: Vec<T>,
}

impl TypeIdCustom {
    /// Creates the identifier of a custom type.
    pub fn new(name: &'static str, namespace: Namespace, type_params: Vec<MetaType>) -> (r: Self)
        ensures
            r.name == name,
            r.namespace == namespace,
            r.type_params@ == type_params@,
    {
        TypeIdCustom { name, namespace, type_params }
    }
}

/// The identifier of an array type, whose length is known at compile time.
#[derive(PartialEq, Eq, PartialOrd, Ord, Clone, Copy, Debug)]
pub struct TypeIdArray<T = MetaType> {
    /// The length of the array.
    pub len: u16,
    /// The element type.
    pub type_param: T,
}

impl TypeIdArray {
    /// Creates the identifier of an array type.
    pub fn new(len: u16, type_param: MetaType) -> (r: Self)
        ensures
            r.len == len,
            r.type_param == type_param,
    {
        TypeIdArray { len, type_param }
    }
}

/// The identifier of a tuple type.
#[derive(PartialEq, Eq, PartialOrd, Ord, Debug)]
pub struct TypeIdTuple<T = MetaType> {
    /// The element types, in order.
    pub type_params: Vec<T>,
}

impl TypeIdTuple {
    /// Creates the identifier of a tuple type.
    pub fn new(type_params: Vec<MetaType>) -> (r: Self)
        ensures
            r.type_params@ == type_params@,
    {
        TypeIdTuple { type_params }
    }

    /// Creates the identifier of the unit type, `()`.
    pub fn unit() -> (r: Self)
        ensures
            r.type_params@.len() == 0,
    {
        Self::new(Vec::new())
    }
}

/// The identifier of a slice type, whose length is known at run time.
#[derive(PartialEq, Eq, PartialOrd, Ord, Clone, Copy, Debug)]
pub struct TypeIdSlice<T = MetaType> {
    /// The element type.
    pub type_param: T,
}

impl TypeIdSlice {
    /// Creates the identifier of a slice type.
    pub fn new(type_param: MetaType) -> (r: Self)
        ensures
            r.type_param == type_param,
    {
        TypeIdSlice { type_param }
    }

    /// Creates the identifier of the slice type whose elements are `T`.
    pub fn of<T: Metadata>() -> (r: Self) {
        Self::new(T::meta_type())
    }
}

/// What a type is called.
#[derive(PartialEq, Eq, PartialOrd, Ord, Debug)]
pub enum TypeId<S = &'static str, T = MetaType> {
    /// A custom type defined by the user.
    Custom(TypeIdCustom<S, T>),
    /// A slice type.
    Slice(TypeIdSlice<T>),
    /// An array type.
    Array(TypeIdArray<T>),
    /// A tuple type.
    Tuple(TypeIdTuple<T>),
    /// A primitive type.
    Primitive(TypeIdPrimitive),
}

/// Every type that `tys` refers to is in `known`.
pub open spec fn metas_in(tys: Seq<MetaType>, known: Set<u64>) -> bool {
    forall|i: int| 0 <= i < tys.len() ==> known.contains(#[trigger] tys[i].id)
}

/// Every type that the identifier `m` refers to is in `known`.
pub open spec fn type_id_refs_in(m: TypeId, known: Set<u64>) -> bool {
    match m {
        TypeId::Custom(c) => metas_in(c.type_params@, known),
        TypeId::Slice(s) => known.contains(s.type_param.id),
        TypeId::Array(a) => known.contains(a.type_param.id),
        TypeId::Tuple(t) => metas_in(t.type_params@, known),
        TypeId::Primitive(_) => true,
    }
}

/// `syms` are the symbols of the strings `segs` in `strings`, one for one.
pub open spec fn names_all(strings: Seq<Seq<char>>, syms: Seq<Symbol>, segs: Seq<&'static str>) -> bool {
    &&& syms.len() == segs.len()
    &&& forall|i: int| 0 <= i < syms.len() ==> symbol_of(strings, #[trigger] syms[i], segs[i]@)
}

/// `syms` are the symbols of the identities of `tys` in `ids`, one for one.
pub open spec fn refers_all(ids: Seq<u64>, syms: Seq<Symbol>, tys: Seq<MetaType>) -> bool {
    &&& syms.len() == tys.len()
    &&& forall|i: int| 0 <= i < syms.len() ==> symbol_of(ids, #[trigger] syms[i], tys[i].id)
}

/// The compacted identifier `c` is `m` with each string replaced by its symbol
/// in `strings` and each type by the symbol of its identity in `ids`.
pub open spec fn compacts_type_id(
    c: TypeId<Symbol, Symbol>,
    m: TypeId,
    strings: Seq<Seq<char>>,
    ids: Seq<u64>,
) -> bool {
    match (c, m) {
        (TypeId::Custom(c), TypeId::Custom(m)) => {
            &&& symbol_of(strings, c.name, m.name@)
            &&& names_all(strings, c.namespace.view(), m.namespace.view())
            &&& refers_all(ids, c.type_params@, m.type_params@)
        },
        (TypeId::Slice(c), TypeId::Slice(m)) => symbol_of(ids, c.type_param, m.type_param.id),
        (TypeId::Array(c), TypeId::Array(m)) => {
            &&& c.len == m.len
            &&& symbol_of(ids, c.type_param, m.type_param.id)
        },
        (TypeId::Tuple(c), TypeId::Tuple(m)) => refers_all(ids, c.type_params@, m.type_params@),
        (TypeId::Primitive(c), TypeId::Primitive(m)) => c == m,
        _ => false,
    }
}

/// Symbols of strings keep their meaning when the table grows.
pub proof fn lemma_names_all_extends(
    s1: Seq<Seq<char>>,
    s2: Seq<Seq<char>>,
    syms: Seq<Symbol>,
    segs: Seq<&'static str>,
)
    requires
        names_all(s1, syms, segs),
        extends(s1, s2),
    ensures
        names_all(s2, syms, segs),
{
    assert forall|i: int| 0 <= i < syms.len() implies symbol_of(s2, #[trigger] syms[i], segs[i]@) by {
        assert(s2[syms[i].id - 1] == s1[syms[i].id - 1]);
    }
}

/// Symbols of identities keep their meaning when the table grows.
pub proof fn lemma_refers_all_extends(i1: Seq<u64>, i2: Seq<u64>, syms: Seq<Symbol>, tys: Seq<MetaType>)
    requires
        refers_all(i1, syms, tys),
        extends(i1, i2),
    ensures
        refers_all(i2, syms, tys),
{
    assert forall|i: int| 0 <= i < syms.len() implies symbol_of(i2, #[trigger] syms[i], tys[i].id) by {
        assert(i2[syms[i].id - 1] == i1[syms[i].id - 1]);
    }
}

/// A compacted identifier keeps its meaning when the tables grow.
pub proof fn lemma_compacts_type_id_extends(
    c: TypeId<Symbol, Symbol>,
    m: TypeId,
    s1: Seq<Seq<char>>,
    i1: Seq<u64>,
    s2: Seq<Seq<char>>,
    i2: Seq<u64>,
)
    requires
        compacts_type_id(c, m, s1, i1),
        extends(s1, s2),
        extends(i1, i2),
    ensures
        compacts_type_id(c, m, s2, i2),
{
    match (c, m) {
        (TypeId::Custom(c), TypeId::Custom(m)) => {
            assert(s2[c.name.id - 1] == s1[c.name.id - 1]);
            lemma_names_all_extends(s1, s2, c.namespace.view(), m.namespace.view());
            lemma_refers_all_extends(i1, i2, c.type_params@, m.type_params@);
        },
        (TypeId::Slice(c), TypeId::Slice(m)) => {
            assert(i2[c.type_param.id - 1] == i1[c.type_param.id - 1]);
        },
        (TypeId::Array(c), TypeId::Array(m)) => {
            assert(i2[c.type_param.id - 1] == i1[c.type_param.id - 1]);
        },
        (TypeId::Tuple(c), TypeId::Tuple(m)) => {
            lemma_refers_all_extends(i1, i2, c.type_params@, m.type_params@);
        },
        _ => {},
    }
}

impl Namespace {
    /// Compacts the namespace, registering each segment as a string.
    pub fn into_compact(&self, registry: &mut Registry, graph: &TypeGraph) -> (r: Namespace<Symbol>)
        requires
            old(registry).tracks(graph),
        ensures
            final(registry).tracks(graph),
            old(registry).grows_to(final(registry)),
            names_all(final(registry).string_seq(), r.view(), self.view()),
            final(registry).tables() == intern_seq(old(registry).tables(), self.segment_chars()),
            final(registry).entries() == old(registry).entries(),
    {
        let n = self.segments.len();
        let mut segments: Vec<Symbol> = Vec::new();
        let mut i: usize = 0;
        while i < n
            invariant
                n == self.view().len(),
                i <= n,
                segments@.len() == i,
                registry.tracks(graph),
                old(registry).grows_to(registry),
                forall|j: int|
                    0 <= j < i ==> symbol_of(registry.string_seq(), #[trigger] segments@[j], self.view()[j]@),
                registry.tables() == intern_seq(old(registry).tables(), self.segment_chars().take(i as int)),
                registry.entries() == old(registry).entries(),
            decreases n - i,
        {
            let ghost r0 = *registry;
            let sym = registry.intern_string(graph, self.segments[i]);
            proof {
                assert(self.segment_chars().take(i + 1).drop_last() == self.segment_chars().take(i as int));
                assert(self.segment_chars()[i as int] == self.view()[i as int]@);
                lemma_grows_trans(old(registry), &r0, registry);
                assert forall|j: int| 0 <= j < i implies symbol_of(
                    registry.string_seq(),
                    #[trigger] segments@[j],
                    self.view()[j]@,
                ) by {
                    assert(registry.string_seq()[segments@[j].id - 1] == r0.string_seq()[segments@[j].id - 1]);
                }
            }
            segments.push(sym);
            i = i + 1;
        }
        proof {
            assert(self.segment_chars().take(n as int) == self.segment_chars());
        }
        Namespace { segments }
    }
}

/// Registers each of the types `tys` and returns their symbols, in order.
fn compact_metas(tys: &Vec<MetaType>, registry: &mut Registry, graph: &TypeGraph, fuel: Ghost<nat>) -> (r: Vec<Symbol>)
    requires
        old(registry).tracks(graph),
        graph.well_formed(),
        metas_in(tys@, graph.ids()),
        fuel@ >= graph.view().len() - old(registry).ids().len(),
    ensures
        final(registry).tracks(graph),
        old(registry).grows_to(final(registry)),
        refers_all(final(registry).ids(), r@, tys@),
        final(registry).tables() == metas_tables(graph.view(), old(registry).tables(), tys@, fuel@),
    decreases fuel@, 7int,
{
    let n = tys.len();
    let mut out: Vec<Symbol> = Vec::new();
    let mut i: usize = 0;
    while i < n
        invariant
            n == tys@.len(),
            i <= n,
            out@.len() == i,
            registry.tracks(graph),
            graph.well_formed(),
            metas_in(tys@, graph.ids()),
            old(registry).grows_to(registry),
            forall|j: int| 0 <= j < i ==> symbol_of(registry.ids(), #[trigger] out@[j], tys@[j].id),
            fuel@ >= graph.view().len() - registry.ids().len(),
            registry.tables() == metas_tables(graph.view(), old(registry).tables(), tys@.take(i as int), fuel@),
        decreases n - i,
    {
        let ghost r0 = *registry;
        assert(graph.ids().contains(tys@[i as int].id));
        let sym = registry.register_type_in(graph, &tys[i], fuel);
        proof {
            assert(tys@.take(i + 1).drop_last() == tys@.take(i as int));
            lemma_grows_trans(old(registry), &r0, registry);
            assert forall|j: int| 0 <= j < i implies symbol_of(registry.ids(), #[trigger] out@[j], tys@[j].id) by {
                assert(registry.ids()[out@[j].id - 1] == r0.ids()[out@[j].id - 1]);
            }
        }
        out.push(sym);
        i = i + 1;
    }
    proof {
        assert(tys@.take(n as int) == tys@);
    }
    out
}

impl TypeIdCustom {
    /// Compacts the identifier: its namespace, then its name, then its
    /// parameters.
    pub fn into_compact(&self, registry: &mut Registry, graph: &TypeGraph, fuel: Ghost<nat>) -> (r: TypeIdCustom<Symbol, Symbol>)
        requires
            old(registry).tracks(graph),
            graph.well_formed(),
            fuel@ >= graph.view().len() - old(registry).ids().len(),
            metas_in(self.type_params@, graph.ids()),
        ensures
            final(registry).tracks(graph),
            old(registry).grows_to(final(registry)),
            compacts_type_id(
                TypeId::Custom(r),
                TypeId::Custom(*self),
                final(registry).string_seq(),
                final(registry).ids(),
            ),
            final(registry).tables() == type_id_tables(graph.view(), old(registry).tables(), TypeId::Custom(*self), fuel@),
        decreases fuel@, 8int,
    {
        let namespace = self.namespace.into_compact(registry, graph);
        let ghost r1 = *registry;
        let name = registry.intern_string(graph, self.name);
        let ghost r2 = *registry;
        let type_params = compact_metas(&self.type_params, registry, graph, fuel);
        proof {
            lemma_grows_trans(old(registry), &r1, &r2);
            lemma_grows_trans(old(registry), &r2, registry);
            assert(registry.string_seq()[name.id - 1] == r2.string_seq()[name.id - 1]);
            lemma_names_all_extends(r1.string_seq(), registry.string_seq(), namespace.view(), self.namespace.view());
        }
        TypeIdCustom { name, namespace, type_params }
    }
}

impl TypeIdArray {
    /// Compacts the identifier: its element type; the length is kept.
    pub fn into_compact(&self, registry: &mut Registry, graph: &TypeGraph, fuel: Ghost<nat>) -> (r: TypeIdArray<Symbol>)
        requires
            old(registry).tracks(graph),
            graph.well_formed(),
            fuel@ >= graph.view().len() - old(registry).ids().len(),
            graph.has(self.type_param.id),
        ensures
            final(registry).tracks(graph),
            old(registry).grows_to(final(registry)),
            r.len == self.len,
            symbol_of(final(registry).ids(), r.type_param, self.type_param.id),
            final(registry).tables() == type_id_tables(graph.view(), old(registry).tables(), TypeId::Array(*self), fuel@),
        decreases fuel@, 8int,
    {
        let type_param = registry.register_type_in(graph, &self.type_param, fuel);
        TypeIdArray { len: self.len, type_param }
    }
}

impl TypeIdTuple {
    /// Compacts the identifier: its element types.
    pub fn into_compact(&self, registry: &mut Registry, graph: &TypeGraph, fuel: Ghost<nat>) -> (r: TypeIdTuple<Symbol>)
        requires
            old(registry).tracks(graph),
            graph.well_formed(),
            fuel@ >= graph.view().len() - old(registry).ids().len(),
            metas_in(self.type_params@, graph.ids()),
        ensures
            final(registry).tracks(graph),
            old(registry).grows_to(final(registry)),
            refers_all(final(registry).ids(), r.type_params@, self.type_params@),
            final(registry).tables() == type_id_tables(graph.view(), old(registry).tables(), TypeId::Tuple(*self), fuel@),
        decreases fuel@, 8int,
    {
        TypeIdTuple { type_params: compact_metas(&self.type_params, registry, graph, fuel) }
    }
}

impl TypeIdSlice {
    /// Compacts the identifier: its element type.
    pub fn into_compact(&self, registry: &mut Registry, graph: &TypeGraph, fuel: Ghost<nat>) -> (r: TypeIdSlice<Symbol>)
        requires
            old(registry).tracks(graph),
            graph.well_formed(),
            fuel@ >= graph.view().len() - old(registry).ids().len(),
            graph.has(self.type_param.id),
        ensures
            final(registry).tracks(graph),
            old(registry).grows_to(final(registry)),
            symbol_of(final(registry).ids(), r.type_param, self.type_param.id),
            final(registry).tables() == type_id_tables(graph.view(), old(registry).tables(), TypeId::Slice(*self), fuel@),
        decreases fuel@, 8int,
    {
        TypeIdSlice { type_param: registry.register_type_in(graph, &self.type_param, fuel) }
    }
}

impl TypeId {
    /// Compacts the identifier, registering every string and type it names.
    pub fn into_compact(&self, registry: &mut Registry, graph: &TypeGraph, fuel: Ghost<nat>) -> (r: TypeId<Symbol, Symbol>)
        requires
            old(registry).tracks(graph),
            graph.well_formed(),
            fuel@ >= graph.view().len() - old(registry).ids().len(),
            type_id_refs_in(*self, graph.ids()),
        ensures
            final(registry).tracks(graph),
            old(registry).grows_to(final(registry)),
            compacts_type_id(r, *self, final(registry).string_seq(), final(registry).ids()),
            final(registry).tables() == type_id_tables(graph.view(), old(registry).tables(), *self, fuel@),
            *self is Primitive ==> *final(registry) == *old(registry),
        decreases fuel@, 9int,
    {
        match self {
            TypeId::Custom(c) => TypeId::Custom(c.into_compact(registry, graph, fuel)),
            TypeId::Slice(s) => TypeId::Slice(s.into_compact(registry, graph, fuel)),
            TypeId::Array(a) => TypeId::Array(a.into_compact(registry, graph, fuel)),
            TypeId::Tuple(t) => TypeId::Tuple(t.into_compact(registry, graph, fuel)),
            TypeId::Primitive(p) => TypeId::Primitive(*p),
        }
    }
}


impl IntoCompact for Namespace {
    type Output = Namespace<Symbol>;

    open spec fn refs_within(&self, graph: &TypeGraph) -> bool {
        true
    }

    open spec fn visit(&self, g: Seq<Descriptor>, t: Tables, fuel: nat) -> Tables {
        intern_seq(t, self.segment_chars())
    }

    open spec fn compacts_to(&self, out: Namespace<Symbol>, strings: Seq<Seq<char>>, ids: Seq<u64>) -> bool {
        names_all(strings, out.view(), self.view())
    }

    fn into_compact(&self, registry: &mut Registry, graph: &TypeGraph, fuel: Ghost<nat>) -> (r: Namespace<Symbol>) {
        self.into_compact(registry, graph)
    }
}

impl IntoCompact for TypeIdCustom {
    type Output = TypeIdCustom<Symbol, Symbol>;

    open spec fn refs_within(&self, graph: &TypeGraph) -> bool {
        metas_in(self.type_params@, graph.ids())
    }

    open spec fn visit(&self, g: Seq<Descriptor>, t: Tables, fuel: nat) -> Tables {
        type_id_tables(g, t, TypeId::Custom(*self), fuel)
    }

    open spec fn compacts_to(&self, out: TypeIdCustom<Symbol, Symbol>, strings: Seq<Seq<char>>, ids: Seq<u64>) -> bool {
        compacts_type_id(TypeId::Custom(out), TypeId::Custom(*self), strings, ids)
    }

    fn into_compact(&self, registry: &mut Registry, graph: &TypeGraph, fuel: Ghost<nat>) -> (r: TypeIdCustom<Symbol, Symbol>) {
        self.into_compact(registry, graph, fuel)
    }
}

impl IntoCompact for TypeIdArray {
    type Output = TypeIdArray<Symbol>;

    open spec fn refs_within(&self, graph: &TypeGraph) -> bool {
        graph.has(self.type_param.id)
    }

    open spec fn visit(&self, g: Seq<Descriptor>, t: Tables, fuel: nat) -> Tables {
        type_id_tables(g, t, TypeId::Array(*self), fuel)
    }

    open spec fn compacts_to(&self, out: TypeIdArray<Symbol>, strings: Seq<Seq<char>>, ids: Seq<u64>) -> bool {
        out.len == self.len && symbol_of(ids, out.type_param, self.type_param.id)
    }

    fn into_compact(&self, registry: &mut Registry, graph: &TypeGraph, fuel: Ghost<nat>) -> (r: TypeIdArray<Symbol>) {
        self.into_compact(registry, graph, fuel)
    }
}

impl IntoCompact for TypeIdTuple {
    type Output = TypeIdTuple<Symbol>;

    open spec fn refs_within(&self, graph: &TypeGraph) -> bool {
        metas_in(self.type_params@, graph.ids())
    }

    open spec fn visit(&self, g: Seq<Descriptor>, t: Tables, fuel: nat) -> Tables {
        type_id_tables(g, t, TypeId::Tuple(*self), fuel)
    }

    open spec fn compacts_to(&self, out: TypeIdTuple<Symbol>, strings: Seq<Seq<char>>, ids: Seq<u64>) -> bool {
        refers_all(ids, out.type_params@, self.type_params@)
    }

    fn into_compact(&self, registry: &mut Registry, graph: &TypeGraph, fuel: Ghost<nat>) -> (r: TypeIdTuple<Symbol>) {
        self.into_compact(registry, graph, fuel)
    }
}

impl IntoCompact for TypeIdSlice {
    type Output = TypeIdSlice<Symbol>;

    open spec fn refs_within(&self, graph: &TypeGraph) -> bool {
        graph.has(self.type_param.id)
    }

    open spec fn visit(&self, g: Seq<Descriptor>, t: Tables, fuel: nat) -> Tables {
        type_id_tables(g, t, TypeId::Slice(*self), fuel)
    }

    open spec fn compacts_to(&self, out: TypeIdSlice<Symbol>, strings: Seq<Seq<char>>, ids: Seq<u64>) -> bool {
        symbol_of(ids, out.type_param, self.type_param.id)
    }

    fn into_compact(&self, registry: &mut Registry, graph: &TypeGraph, fuel: Ghost<nat>) -> (r: TypeIdSlice<Symbol>) {
        self.into_compact(registry, graph, fuel)
    }
}

impl IntoCompact for TypeId {
    type Output = TypeId<Symbol, Symbol>;

    open spec fn refs_within(&self, graph: &TypeGraph) -> bool {
        type_id_refs_in(*self, graph.ids())
    }

    open spec fn visit(&self, g: Seq<Descriptor>, t: Tables, fuel: nat) -> Tables {
        type_id_tables(g, t, *self, fuel)
    }

    open spec fn compacts_to(&self, out: TypeId<Symbol, Symbol>, strings: Seq<Seq<char>>, ids: Seq<u64>) -> bool {
        compacts_type_id(out, *self, strings, ids)
    }

    fn into_compact(&self, registry: &mut Registry, graph: &TypeGraph, fuel: Ghost<nat>) -> (r: TypeId<Symbol, Symbol>) {
        self.into_compact(registry, graph, fuel)
    }
}

} // verus!
