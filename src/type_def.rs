//! Type definitions: the internal structure of a type.

use vstd::prelude::*;

use crate::interner::{extends, symbol_of, Symbol};
use crate::meta_type::{Descriptor, Metadata, MetaType, TypeGraph};
use crate::registry::{lemma_grows_trans, IntoCompact, Registry};
use crate::traversal::{clike_tables, named_tables, reg_tables, type_def_tables, unnamed_tables, variant_tables, variants_tables, with_string, Tables};

verus! {

/// The marker of a builtin type.
#[derive(PartialEq, Eq, Structural, Clone, Copy, Debug)]
pub enum Builtin {
    /// A type whose structure is implied and known.
    Builtin,
}

/// A named field of a struct, a union or a struct variant.
#[derive(PartialEq, Eq, Clone, Copy, Debug)]
pub struct NamedField<S = &'static str, T = MetaType> {
    /// The name of the field.
    pub name: S,
    /// The type of the field.
    pub ty: T,
}

impl NamedField {
    /// Creates a named field of the given type.
    pub fn new(name: &'static str, ty: MetaType) -> (r: Self)
        ensures
            r.name == name,
            r.ty == ty,
    {
        NamedField { name, ty }
    }

    /// Creates a named field whose type is `T`.
    pub fn of<T: Metadata>(name: &'static str) -> (r: Self)
        ensures
            r.name == name,
    {
        Self::new(name, T::meta_type())
    }
}

/// An unnamed field of a tuple struct or a tuple struct variant.
#[derive(PartialEq, Eq, Clone, Copy, Debug)]
pub struct UnnamedField<T = MetaType> {
    /// The type of the field.
    pub ty: T,
}

impl UnnamedField {
    /// Creates an unnamed field of the given type.
    pub fn new(ty: MetaType) -> (r: Self)
        ensures
            r.ty == ty,
    {
        UnnamedField { ty }
    }

    /// Creates an unnamed field whose type is `T`.
    pub fn of<T: Metadata>() -> (r: Self) {
        Self::new(T::meta_type())
    }
}

/// A struct with named fields.
#[derive(PartialEq, Eq, Debug)]
pub struct TypeDefStruct<S = &'static str, T = MetaType> {
    /// The fields, in declaration order.
    pub fields: Vec<NamedField<S, T>>,
}

impl TypeDefStruct {
    /// Creates a struct definition with the given named fields.
    pub fn new(fields: Vec<NamedField>) -> (r: Self)
        ensures
            r.fields@ == fields@,
    {
        TypeDefStruct { fields }
    }
}

/// A tuple struct with unnamed fields; a unit struct has none.
#[derive(PartialEq, Eq, Debug)]
pub struct TypeDefTupleStruct<T = MetaType> {
    /// The fields, in declaration order.
    pub fields: Vec<UnnamedField<T>>,
}

impl TypeDefTupleStruct {
    /// Creates a tuple struct definition with the given unnamed fields.
    pub fn new(fields: Vec<UnnamedField>) -> (r: Self)
        ensures
            r.fields@ == fields@,
    {
        TypeDefTupleStruct { fields }
    }

    /// Creates the definition of a unit struct, which has no fields.
    pub fn unit() -> (r: Self)
        ensures
            r.fields@.len() == 0,
    {
        TypeDefTupleStruct { fields: Vec::new() }
    }
}

/// A variant of a C-like enum: a name and a discriminant.
#[derive(PartialEq, Eq, Clone, Copy, Debug)]
pub struct ClikeEnumVariant<S = &'static str> {
    /// The name of the variant.
    pub name: S,
    /// The discriminant of the variant.
    pub discriminant: u64,
}

impl ClikeEnumVariant {
    /// Creates a C-like enum variant.
    pub fn new(name: &'static str, discriminant: u64) -> (r: Self)
        ensures
            r.name == name,
            r.discriminant == discriminant,
    {
        ClikeEnumVariant { name, discriminant }
    }
}

/// A C-like enum, whose variants carry no data.
#[derive(PartialEq, Eq, Debug)]
pub struct TypeDefClikeEnum<S = &'static str> {
    /// The variants, in declaration order.
    pub variants: Vec<ClikeEnumVariant<S>>,
}

impl TypeDefClikeEnum {
    /// Creates a C-like enum definition with the given variants.
    pub fn new(variants: Vec<ClikeEnumVariant>) -> (r: Self)
        ensures
            r.variants@ == variants@,
    {
        TypeDefClikeEnum { variants }
    }
}

/// A unit variant of an enum.
#[derive(PartialEq, Eq, Clone, Copy, Debug)]
pub struct EnumVariantUnit<S = &'static str> {
    /// The name of the variant.
    pub name: S,
}

impl EnumVariantUnit {
    /// Creates a unit variant.
    pub fn new(name: &'static str) -> (r: Self)
        ensures
            r.name == name,
    {
        EnumVariantUnit { name }
    }
}

/// A variant of an enum with named fields.
#[derive(PartialEq, Eq, Debug)]
pub struct EnumVariantStruct<S = &'static str, T = MetaType> {
    /// The name of the variant.
    pub name: S,
    /// The fields, in declaration order.
    pub fields: Vec<NamedField<S, T>>,
}

impl EnumVariantStruct {
    /// Creates a struct variant with the given named fields.
    pub fn new(name: &'static str, fields: Vec<NamedField>) -> (r: Self)
        ensures
            r.name == name,
            r.fields@ == fields@,
    {
        EnumVariantStruct { name, fields }
    }
}

/// A variant of an enum with unnamed fields.
#[derive(PartialEq, Eq, Debug)]
pub struct EnumVariantTupleStruct<S = &'static str, T = MetaType> {
    /// The name of the variant.
    pub name: S,
    /// The fields, in declaration order.
    pub fields: Vec<UnnamedField<T>>,
}

impl EnumVariantTupleStruct {
    /// Creates a tuple struct variant with the given unnamed fields.
    pub fn new(name: &'static str, fields: Vec<UnnamedField>) -> (r: Self)
        ensures
            r.name == name,
            r.fields@ == fields@,
    {
        EnumVariantTupleStruct { name, fields }
    }
}

/// A variant of an enum.
#[derive(PartialEq, Eq, Debug)]
pub enum EnumVariant<S = &'static str, T = MetaType> {
    /// A unit variant.
    Unit(EnumVariantUnit<S>),
    /// A variant with named fields.
    Struct(EnumVariantStruct<S, T>),
    /// A variant with unnamed fields.
    TupleStruct(EnumVariantTupleStruct<S, T>),
}

/// An enum whose variants may carry data.
#[derive(PartialEq, Eq, Debug)]
pub struct TypeDefEnum<S = &'static str, T = MetaType> {
    /// The variants, in declaration order.
    pub variants: Vec<EnumVariant<S, T>>,
}

impl TypeDefEnum {
    /// Creates an enum definition with the given variants.
    pub fn new(variants: Vec<EnumVariant>) -> (r: Self)
        ensures
            r.variants@ == variants@,
    {
        TypeDefEnum { variants }
    }
}

/// A union: named fields that share their storage.
#[derive(PartialEq, Eq, Debug)]
pub struct TypeDefUnion<S = &'static str, T = MetaType> {
    /// The fields, in declaration order.
    pub fields: Vec<NamedField<S, T>>,
}

impl TypeDefUnion {
    /// Creates a union definition with the given named fields.
    pub fn new(fields: Vec<NamedField>) -> (r: Self)
        ensures
            r.fields@ == fields@,
    {
        TypeDefUnion { fields }
    }
}

/// The internal structure of a type.
#[derive(PartialEq, Eq, Debug)]
pub enum TypeDef<S = &'static str, T = MetaType> {
    /// A type with an implied structure.
    Builtin(Builtin),
    /// A struct with named fields.
    Struct(TypeDefStruct<S, T>),
    /// A tuple struct with unnamed fields.
    TupleStruct(TypeDefTupleStruct<T>),
    /// A C-like enum.
    ClikeEnum(TypeDefClikeEnum<S>),
    /// An enum whose variants may carry data.
    Enum(TypeDefEnum<S, T>),
    /// A union.
    Union(TypeDefUnion<S, T>),
}

impl TypeDef {
    /// Creates the definition of a builtin type.
    pub fn builtin() -> (r: Self)
        ensures
            r == TypeDef::<&'static str, MetaType>::Builtin(Builtin::Builtin),
    {
        TypeDef::Builtin(Builtin::Builtin)
    }
}

/// The name of the one field under which a definition of this kind is
/// serialized; a builtin definition is serialized as a bare marker, with none.
pub open spec fn def_key<S, T>(d: TypeDef<S, T>) -> Option<Seq<char>> {
    match d {
        TypeDef::Builtin(_) => None,
        TypeDef::Struct(_) => Some("struct.fields"@),
        TypeDef::TupleStruct(_) => Some("tuple_struct.types"@),
        TypeDef::ClikeEnum(_) => Some("clike_enum.variants"@),
        TypeDef::Enum(_) => Some("enum.variants"@),
        TypeDef::Union(_) => Some("union.fields"@),
    }
}

/// The name of the field that holds the name of a variant of this kind in the
/// serialized form.
pub open spec fn variant_key<S, T>(v: EnumVariant<S, T>) -> Seq<char> {
    match v {
        EnumVariant::Unit(_) => "unit_variant.name"@,
        EnumVariant::Struct(_) => "struct_variant.name"@,
        EnumVariant::TupleStruct(_) => "tuple_struct_variant.name"@,
    }
}

/// Two definitions of different kinds have different footprints in the
/// serialized form, whatever they hold, so the kind can be read back without a
/// tag; in particular a form without a field, such as that of a definition
/// without fields or variants, can only come from a builtin definition.
pub proof fn lemma_def_shapes_disjoint<S, T>(a: TypeDef<S, T>, b: TypeDef<S, T>)
    ensures
        def_key(a) == def_key(b) ==> ({
            ||| a is Builtin && b is Builtin
            ||| a is Struct && b is Struct
            ||| a is TupleStruct && b is TupleStruct
            ||| a is ClikeEnum && b is ClikeEnum
            ||| a is Enum && b is Enum
            ||| a is Union && b is Union
        }),
        def_key(a) is None <==> a is Builtin,
{
    reveal_strlit("struct.fields");
    reveal_strlit("tuple_struct.types");
    reveal_strlit("clike_enum.variants");
    reveal_strlit("enum.variants");
    reveal_strlit("union.fields");
    if def_key(a) == def_key(b) && def_key(a) is Some {
        assert(def_key(a)->Some_0[0] == def_key(b)->Some_0[0]);
    }
}

/// Variants of different kinds have different footprints in the serialized
/// form.
pub proof fn lemma_variant_shapes_disjoint<S, T>(a: EnumVariant<S, T>, b: EnumVariant<S, T>)
    ensures
        variant_key(a) == variant_key(b) ==> ({
            ||| a is Unit && b is Unit
            ||| a is Struct && b is Struct
            ||| a is TupleStruct && b is TupleStruct
        }),
{
    reveal_strlit("unit_variant.name");
    reveal_strlit("struct_variant.name");
    reveal_strlit("tuple_struct_variant.name");
    if variant_key(a) == variant_key(b) {
        assert(variant_key(a)[0] == variant_key(b)[0]);
    }
}

impl<S, T> TypeDef<S, T> {
    /// Returns the name of the field under which this definition is
    /// serialized, or `None` for a builtin definition.
    pub fn shape_key(&self) -> (r: Option<&'static str>)
        ensures
            match r {
                Some(k) => def_key(*self) == Some(k@),
                None => def_key(*self) is None,
            },
    {
        match self {
            TypeDef::Builtin(_) => None,
            TypeDef::Struct(_) => Some("struct.fields"),
            TypeDef::TupleStruct(_) => Some("tuple_struct.types"),
            TypeDef::ClikeEnum(_) => Some("clike_enum.variants"),
            TypeDef::Enum(_) => Some("enum.variants"),
            TypeDef::Union(_) => Some("union.fields"),
        }
    }
}

impl<S, T> EnumVariant<S, T> {
    /// Returns the name of the field that holds the name of this variant in
    /// the serialized form.
    pub fn shape_key(&self) -> (r: &'static str)
        ensures
            r@ == variant_key(*self),
    {
        match self {
            EnumVariant::Unit(_) => "unit_variant.name",
            EnumVariant::Struct(_) => "struct_variant.name",
            EnumVariant::TupleStruct(_) => "tuple_struct_variant.name",
        }
    }
}

/// Every type that the named fields `fs` have is in `known`.
pub open spec fn named_refs_in(fs: Seq<NamedField>, known: Set<u64>) -> bool {
    forall|i: int| 0 <= i < fs.len() ==> known.contains(#[trigger] fs[i].ty.id)
}

/// Every type that the unnamed fields `fs` have is in `known`.
pub open spec fn unnamed_refs_in(fs: Seq<UnnamedField>, known: Set<u64>) -> bool {
    forall|i: int| 0 <= i < fs.len() ==> known.contains(#[trigger] fs[i].ty.id)
}

/// Every type that the variant `v` refers to is in `known`.
pub open spec fn variant_refs_in(v: EnumVariant, known: Set<u64>) -> bool {
    match v {
        EnumVariant::Unit(_) => true,
        EnumVariant::Struct(s) => named_refs_in(s.fields@, known),
        EnumVariant::TupleStruct(t) => unnamed_refs_in(t.fields@, known),
    }
}

/// Every type that the definition `m` refers to is in `known`.
pub open spec fn type_def_refs_in(m: TypeDef, known: Set<u64>) -> bool {
    match m {
        TypeDef::Builtin(_) => true,
        TypeDef::Struct(s) => named_refs_in(s.fields@, known),
        TypeDef::TupleStruct(t) => unnamed_refs_in(t.fields@, known),
        TypeDef::ClikeEnum(_) => true,
        TypeDef::Enum(e) => forall|i: int|
            0 <= i < e.variants@.len() ==> variant_refs_in(#[trigger] e.variants@[i], known),
        TypeDef::Union(u) => named_refs_in(u.fields@, known),
    }
}

/// The compacted named field `c` is `m` with its name replaced by its symbol in
/// `strings` and its type by the symbol of its identity in `ids`.
pub open spec fn compacts_named(
    c: NamedField<Symbol, Symbol>,
    m: NamedField,
    strings: Seq<Seq<char>>,
    ids: Seq<u64>,
) -> bool {
    symbol_of(strings, c.name, m.name@) && symbol_of(ids, c.ty, m.ty.id)
}

/// `cs` compacts `ms`, one field for one.
pub open spec fn compacts_named_all(
    cs: Seq<NamedField<Symbol, Symbol>>,
    ms: Seq<NamedField>,
    strings: Seq<Seq<char>>,
    ids: Seq<u64>,
) -> bool {
    &&& cs.len() == ms.len()
    &&& forall|i: int| 0 <= i < cs.len() ==> compacts_named(#[trigger] cs[i], ms[i], strings, ids)
}

/// `cs` compacts the unnamed fields `ms`, one for one.
pub open spec fn compacts_unnamed_all(
    cs: Seq<UnnamedField<Symbol>>,
    ms: Seq<UnnamedField>,
    ids: Seq<u64>,
) -> bool {
    &&& cs.len() == ms.len()
    &&& forall|i: int| 0 <= i < cs.len() ==> symbol_of(ids, (#[trigger] cs[i]).ty, ms[i].ty.id)
}

/// `cs` compacts the C-like variants `ms`, one for one: names become symbols,
/// discriminants are kept.
pub open spec fn compacts_clike_all(
    cs: Seq<ClikeEnumVariant<Symbol>>,
    ms: Seq<ClikeEnumVariant>,
    strings: Seq<Seq<char>>,
) -> bool {
    &&& cs.len() == ms.len()
    &&& forall|i: int|
        0 <= i < cs.len() ==> {
            &&& symbol_of(strings, (#[trigger] cs[i]).name, ms[i].name@)
            &&& cs[i].discriminant == ms[i].discriminant
        }
}

/// The compacted variant `c` is `m` with strings and types replaced by symbols.
pub open spec fn compacts_variant(
    c: EnumVariant<Symbol, Symbol>,
    m: EnumVariant,
    strings: Seq<Seq<char>>,
    ids: Seq<u64>,
) -> bool {
    match (c, m) {
        (EnumVariant::Unit(c), EnumVariant::Unit(m)) => symbol_of(strings, c.name, m.name@),
        (EnumVariant::Struct(c), EnumVariant::Struct(m)) => {
            &&& symbol_of(strings, c.name, m.name@)
            &&& compacts_named_all(c.fields@, m.fields@, strings, ids)
        },
        (EnumVariant::TupleStruct(c), EnumVariant::TupleStruct(m)) => {
            &&& symbol_of(strings, c.name, m.name@)
            &&& compacts_unnamed_all(c.fields@, m.fields@, ids)
        },
        _ => false,
    }
}

/// `cs` compacts the variants `ms`, one for one.
pub open spec fn compacts_variants_all(
    cs: Seq<EnumVariant<Symbol, Symbol>>,
    ms: Seq<EnumVariant>,
    strings: Seq<Seq<char>>,
    ids: Seq<u64>,
) -> bool {
    &&& cs.len() == ms.len()
    &&& forall|i: int| 0 <= i < cs.len() ==> compacts_variant(#[trigger] cs[i], ms[i], strings, ids)
}

/// The compacted definition `c` is `m` with each string replaced by its symbol
/// in `strings` and each type by the symbol of its identity in `ids`; its shape,
/// the number and order of its parts, and its discriminants are kept.
pub open spec fn compacts_type_def(
    c: TypeDef<Symbol, Symbol>,
    m: TypeDef,
    strings: Seq<Seq<char>>,
    ids: Seq<u64>,
) -> bool {
    match (c, m) {
        (TypeDef::Builtin(_), TypeDef::Builtin(_)) => true,
        (TypeDef::Struct(c), TypeDef::Struct(m)) => compacts_named_all(c.fields@, m.fields@, strings, ids),
        (TypeDef::TupleStruct(c), TypeDef::TupleStruct(m)) => compacts_unnamed_all(c.fields@, m.fields@, ids),
        (TypeDef::ClikeEnum(c), TypeDef::ClikeEnum(m)) => compacts_clike_all(c.variants@, m.variants@, strings),
        (TypeDef::Enum(c), TypeDef::Enum(m)) => compacts_variants_all(c.variants@, m.variants@, strings, ids),
        (TypeDef::Union(c), TypeDef::Union(m)) => compacts_named_all(c.fields@, m.fields@, strings, ids),
        _ => false,
    }
}

/// Compacted named fields keep their meaning when the tables grow.
pub proof fn lemma_named_all_extends(
    cs: Seq<NamedField<Symbol, Symbol>>,
    ms: Seq<NamedField>,
    s1: Seq<Seq<char>>,
    i1: Seq<u64>,
    s2: Seq<Seq<char>>,
    i2: Seq<u64>,
)
    requires
        compacts_named_all(cs, ms, s1, i1),
        extends(s1, s2),
        extends(i1, i2),
    ensures
        compacts_named_all(cs, ms, s2, i2),
{
    assert forall|i: int| 0 <= i < cs.len() implies compacts_named(#[trigger] cs[i], ms[i], s2, i2) by {
        assert(s2[cs[i].name.id - 1] == s1[cs[i].name.id - 1]);
        assert(i2[cs[i].ty.id - 1] == i1[cs[i].ty.id - 1]);
    }
}

/// Compacted unnamed fields keep their meaning when the table grows.
pub proof fn lemma_unnamed_all_extends(
    cs: Seq<UnnamedField<Symbol>>,
    ms: Seq<UnnamedField>,
    i1: Seq<u64>,
    i2: Seq<u64>,
)
    requires
        compacts_unnamed_all(cs, ms, i1),
        extends(i1, i2),
    ensures
        compacts_unnamed_all(cs, ms, i2),
{
    assert forall|i: int| 0 <= i < cs.len() implies symbol_of(i2, (#[trigger] cs[i]).ty, ms[i].ty.id) by {
        assert(i2[cs[i].ty.id - 1] == i1[cs[i].ty.id - 1]);
    }
}

/// Compacted C-like variants keep their meaning when the table grows.
pub proof fn lemma_clike_all_extends(
    cs: Seq<ClikeEnumVariant<Symbol>>,
    ms: Seq<ClikeEnumVariant>,
    s1: Seq<Seq<char>>,
    s2: Seq<Seq<char>>,
)
    requires
        compacts_clike_all(cs, ms, s1),
        extends(s1, s2),
    ensures
        compacts_clike_all(cs, ms, s2),
{
    assert forall|i: int| 0 <= i < cs.len() implies {
        &&& symbol_of(s2, (#[trigger] cs[i]).name, ms[i].name@)
        &&& cs[i].discriminant == ms[i].discriminant
    } by {
        assert(s2[cs[i].name.id - 1] == s1[cs[i].name.id - 1]);
    }
}

/// A compacted variant keeps its meaning when the tables grow.
pub proof fn lemma_variant_extends(
    c: EnumVariant<Symbol, Symbol>,
    m: EnumVariant,
    s1: Seq<Seq<char>>,
    i1: Seq<u64>,
    s2: Seq<Seq<char>>,
    i2: Seq<u64>,
)
    requires
        compacts_variant(c, m, s1, i1),
        extends(s1, s2),
        extends(i1, i2),
    ensures
        compacts_variant(c, m, s2, i2),
{
    match (c, m) {
        (EnumVariant::Unit(c), EnumVariant::Unit(m)) => {
            assert(s2[c.name.id - 1] == s1[c.name.id - 1]);
        },
        (EnumVariant::Struct(c), EnumVariant::Struct(m)) => {
            assert(s2[c.name.id - 1] == s1[c.name.id - 1]);
            lemma_named_all_extends(c.fields@, m.fields@, s1, i1, s2, i2);
        },
        (EnumVariant::TupleStruct(c), EnumVariant::TupleStruct(m)) => {
            assert(s2[c.name.id - 1] == s1[c.name.id - 1]);
            lemma_unnamed_all_extends(c.fields@, m.fields@, i1, i2);
        },
        _ => {},
    }
}

/// Compacted variants keep their meaning when the tables grow.
pub proof fn lemma_variants_all_extends(
    cs: Seq<EnumVariant<Symbol, Symbol>>,
    ms: Seq<EnumVariant>,
    s1: Seq<Seq<char>>,
    i1: Seq<u64>,
    s2: Seq<Seq<char>>,
    i2: Seq<u64>,
)
    requires
        compacts_variants_all(cs, ms, s1, i1),
        extends(s1, s2),
        extends(i1, i2),
    ensures
        compacts_variants_all(cs, ms, s2, i2),
{
    assert forall|i: int| 0 <= i < cs.len() implies compacts_variant(#[trigger] cs[i], ms[i], s2, i2) by {
        lemma_variant_extends(cs[i], ms[i], s1, i1, s2, i2);
    }
}

/// A compacted definition keeps its meaning when the tables grow.
pub proof fn lemma_compacts_type_def_extends(
    c: TypeDef<Symbol, Symbol>,
    m: TypeDef,
    s1: Seq<Seq<char>>,
    i1: Seq<u64>,
    s2: Seq<Seq<char>>,
    i2: Seq<u64>,
)
    requires
        compacts_type_def(c, m, s1, i1),
        extends(s1, s2),
        extends(i1, i2),
    ensures
        compacts_type_def(c, m, s2, i2),
{
    match (c, m) {
        (TypeDef::Struct(c), TypeDef::Struct(m)) => {
            lemma_named_all_extends(c.fields@, m.fields@, s1, i1, s2, i2);
        },
        (TypeDef::TupleStruct(c), TypeDef::TupleStruct(m)) => {
            lemma_unnamed_all_extends(c.fields@, m.fields@, i1, i2);
        },
        (TypeDef::ClikeEnum(c), TypeDef::ClikeEnum(m)) => {
            lemma_clike_all_extends(c.variants@, m.variants@, s1, s2);
        },
        (TypeDef::Enum(c), TypeDef::Enum(m)) => {
            lemma_variants_all_extends(c.variants@, m.variants@, s1, i1, s2, i2);
        },
        (TypeDef::Union(c), TypeDef::Union(m)) => {
            lemma_named_all_extends(c.fields@, m.fields@, s1, i1, s2, i2);
        },
        _ => {},
    }
}

impl NamedField {
    /// Compacts the field: its name and its type.
    pub fn into_compact(&self, registry: &mut Registry, graph: &TypeGraph, fuel: Ghost<nat>) -> (r: NamedField<Symbol, Symbol>)
        requires
            old(registry).tracks(graph),
            graph.well_formed(),
            fuel@ >= graph.view().len() - old(registry).ids().len(),
            graph.has(self.ty.id),
        ensures
            final(registry).tracks(graph),
            old(registry).grows_to(final(registry)),
            compacts_named(r, *self, final(registry).string_seq(), final(registry).ids()),
            final(registry).tables() == reg_tables(graph.view(), with_string(old(registry).tables(), self.name@), self.ty.id, fuel@),
        decreases fuel@, 2int,
    {
        let name = registry.intern_string(graph, self.name);
        let ghost r1 = *registry;
        let ty = registry.register_type_in(graph, &self.ty, fuel);
        proof {
            lemma_grows_trans(old(registry), &r1, registry);
            assert(registry.string_seq()[name.id - 1] == r1.string_seq()[name.id - 1]);
        }
        NamedField { name, ty }
    }
}

impl UnnamedField {
    /// Compacts the field: its type.
    pub fn into_compact(&self, registry: &mut Registry, graph: &TypeGraph, fuel: Ghost<nat>) -> (r: UnnamedField<Symbol>)
        requires
            old(registry).tracks(graph),
            graph.well_formed(),
            fuel@ >= graph.view().len() - old(registry).ids().len(),
            graph.has(self.ty.id),
        ensures
            final(registry).tracks(graph),
            old(registry).grows_to(final(registry)),
            symbol_of(final(registry).ids(), r.ty, self.ty.id),
            final(registry).tables() == reg_tables(graph.view(), old(registry).tables(), self.ty.id, fuel@),
        decreases fuel@, 2int,
    {
        UnnamedField { ty: registry.register_type_in(graph, &self.ty, fuel) }
    }
}

/// Compacts named fields, one for one, in order.
fn compact_named_fields(fs: &Vec<NamedField>, registry: &mut Registry, graph: &TypeGraph, fuel: Ghost<nat>) -> (r: Vec<NamedField<Symbol, Symbol>>)
    requires
        old(registry).tracks(graph),
        graph.well_formed(),
        fuel@ >= graph.view().len() - old(registry).ids().len(),
        named_refs_in(fs@, graph.ids()),
    ensures
        final(registry).tracks(graph),
        old(registry).grows_to(final(registry)),
        compacts_named_all(r@, fs@, final(registry).string_seq(), final(registry).ids()),
        final(registry).tables() == named_tables(graph.view(), old(registry).tables(), fs@, fuel@),
    decreases fuel@, 3int,
{
    let n = fs.len();
    let mut out: Vec<NamedField<Symbol, Symbol>> = Vec::new();
    let mut i: usize = 0;
    while i < n
        invariant
            n == fs@.len(),
            i <= n,
            registry.tracks(graph),
            graph.well_formed(),
            named_refs_in(fs@, graph.ids()),
            old(registry).grows_to(registry),
            compacts_named_all(out@, fs@.take(i as int), registry.string_seq(), registry.ids()),
            fuel@ >= graph.view().len() - registry.ids().len(),
            registry.tables() == named_tables(graph.view(), old(registry).tables(), fs@.take(i as int), fuel@),
        decreases n - i,
    {
        let ghost r0 = *registry;
        assert(graph.ids().contains(fs@[i as int].ty.id));
        let f = fs[i].into_compact(registry, graph, fuel);
        proof {
            assert(fs@.take(i + 1).drop_last() == fs@.take(i as int));
            lemma_grows_trans(old(registry), &r0, registry);
            lemma_named_all_extends(out@, fs@.take(i as int), r0.string_seq(), r0.ids(), registry.string_seq(), registry.ids());
        }
        out.push(f);
        proof {
            assert(fs@.take(i + 1) == fs@.take(i as int).push(fs@[i as int]));
        }
        i = i + 1;
    }
    proof {
        assert(fs@.take(n as int) == fs@);
    }
    out
}

/// Compacts unnamed fields, one for one, in order.
fn compact_unnamed_fields(fs: &Vec<UnnamedField>, registry: &mut Registry, graph: &TypeGraph, fuel: Ghost<nat>) -> (r: Vec<UnnamedField<Symbol>>)
    requires
        old(registry).tracks(graph),
        graph.well_formed(),
        fuel@ >= graph.view().len() - old(registry).ids().len(),
        unnamed_refs_in(fs@, graph.ids()),
    ensures
        final(registry).tracks(graph),
        old(registry).grows_to(final(registry)),
        compacts_unnamed_all(r@, fs@, final(registry).ids()),
        final(registry).tables() == unnamed_tables(graph.view(), old(registry).tables(), fs@, fuel@),
    decreases fuel@, 3int,
{
    let n = fs.len();
    let mut out: Vec<UnnamedField<Symbol>> = Vec::new();
    let mut i: usize = 0;
    while i < n
        invariant
            n == fs@.len(),
            i <= n,
            registry.tracks(graph),
            graph.well_formed(),
            unnamed_refs_in(fs@, graph.ids()),
            old(registry).grows_to(registry),
            compacts_unnamed_all(out@, fs@.take(i as int), registry.ids()),
            fuel@ >= graph.view().len() - registry.ids().len(),
            registry.tables() == unnamed_tables(graph.view(), old(registry).tables(), fs@.take(i as int), fuel@),
        decreases n - i,
    {
        let ghost r0 = *registry;
        assert(graph.ids().contains(fs@[i as int].ty.id));
        let f = fs[i].into_compact(registry, graph, fuel);
        proof {
            assert(fs@.take(i + 1).drop_last() == fs@.take(i as int));
            lemma_grows_trans(old(registry), &r0, registry);
            lemma_unnamed_all_extends(out@, fs@.take(i as int), r0.ids(), registry.ids());
        }
        out.push(f);
        proof {
            assert(fs@.take(i + 1) == fs@.take(i as int).push(fs@[i as int]));
        }
        i = i + 1;
    }
    proof {
        assert(fs@.take(n as int) == fs@);
    }
    out
}

impl ClikeEnumVariant {
    /// Compacts the variant: its name; the discriminant is kept.
    pub fn into_compact(&self, registry: &mut Registry, graph: &TypeGraph) -> (r: ClikeEnumVariant<Symbol>)
        requires
            old(registry).tracks(graph),
        ensures
            final(registry).tracks(graph),
            old(registry).grows_to(final(registry)),
            symbol_of(final(registry).string_seq(), r.name, self.name@),
            r.discriminant == self.discriminant,
            final(registry).tables() == with_string(old(registry).tables(), self.name@),
            final(registry).entries() == old(registry).entries(),
    {
        ClikeEnumVariant { name: registry.intern_string(graph, self.name), discriminant: self.discriminant }
    }
}

impl TypeDefClikeEnum {
    /// Compacts the definition: the names of its variants.
    pub fn into_compact(&self, registry: &mut Registry, graph: &TypeGraph) -> (r: TypeDefClikeEnum<Symbol>)
        requires
            old(registry).tracks(graph),
        ensures
            final(registry).tracks(graph),
            old(registry).grows_to(final(registry)),
            compacts_clike_all(r.variants@, self.variants@, final(registry).string_seq()),
            final(registry).tables() == clike_tables(old(registry).tables(), self.variants@),
            final(registry).entries() == old(registry).entries(),
    {
        let n = self.variants.len();
        let mut out: Vec<ClikeEnumVariant<Symbol>> = Vec::new();
        let mut i: usize = 0;
        while i < n
            invariant
                n == self.variants@.len(),
                i <= n,
                registry.tracks(graph),
                old(registry).grows_to(registry),
                compacts_clike_all(out@, self.variants@.take(i as int), registry.string_seq()),
                registry.tables() == clike_tables(old(registry).tables(), self.variants@.take(i as int)),
                registry.entries() == old(registry).entries(),
            decreases n - i,
        {
            let ghost r0 = *registry;
            let v = self.variants[i].into_compact(registry, graph);
            proof {
                assert(self.variants@.take(i + 1).drop_last() == self.variants@.take(i as int));
                lemma_grows_trans(old(registry), &r0, registry);
                lemma_clike_all_extends(out@, self.variants@.take(i as int), r0.string_seq(), registry.string_seq());
            }
            out.push(v);
            proof {
                assert(self.variants@.take(i + 1) == self.variants@.take(i as int).push(self.variants@[i as int]));
            }
            i = i + 1;
        }
        proof {
            assert(self.variants@.take(n as int) == self.variants@);
        }
        TypeDefClikeEnum { variants: out }
    }
}

impl EnumVariantUnit {
    /// Compacts the variant: its name.
    pub fn into_compact(&self, registry: &mut Registry, graph: &TypeGraph) -> (r: EnumVariantUnit<Symbol>)
        requires
            old(registry).tracks(graph),
        ensures
            final(registry).tracks(graph),
            old(registry).grows_to(final(registry)),
            symbol_of(final(registry).string_seq(), r.name, self.name@),
            final(registry).tables() == with_string(old(registry).tables(), self.name@),
            final(registry).entries() == old(registry).entries(),
    {
        EnumVariantUnit { name: registry.intern_string(graph, self.name) }
    }
}

impl EnumVariantStruct {
    /// Compacts the variant: its name and its fields.
    pub fn into_compact(&self, registry: &mut Registry, graph: &TypeGraph, fuel: Ghost<nat>) -> (r: EnumVariantStruct<Symbol, Symbol>)
        requires
            old(registry).tracks(graph),
            graph.well_formed(),
            fuel@ >= graph.view().len() - old(registry).ids().len(),
            named_refs_in(self.fields@, graph.ids()),
        ensures
            final(registry).tracks(graph),
            old(registry).grows_to(final(registry)),
            symbol_of(final(registry).string_seq(), r.name, self.name@),
            compacts_named_all(r.fields@, self.fields@, final(registry).string_seq(), final(registry).ids()),
            final(registry).tables() == variant_tables(graph.view(), old(registry).tables(), EnumVariant::Struct(*self), fuel@),
        decreases fuel@, 4int,
    {
        let name = registry.intern_string(graph, self.name);
        let ghost r1 = *registry;
        let fields = compact_named_fields(&self.fields, registry, graph, fuel);
        proof {
            lemma_grows_trans(old(registry), &r1, registry);
            assert(registry.string_seq()[name.id - 1] == r1.string_seq()[name.id - 1]);
        }
        EnumVariantStruct { name, fields }
    }
}

impl EnumVariantTupleStruct {
    /// Compacts the variant: its name and its fields.
    pub fn into_compact(&self, registry: &mut Registry, graph: &TypeGraph, fuel: Ghost<nat>) -> (r: EnumVariantTupleStruct<Symbol, Symbol>)
        requires
            old(registry).tracks(graph),
            graph.well_formed(),
            fuel@ >= graph.view().len() - old(registry).ids().len(),
            unnamed_refs_in(self.fields@, graph.ids()),
        ensures
            final(registry).tracks(graph),
            old(registry).grows_to(final(registry)),
            symbol_of(final(registry).string_seq(), r.name, self.name@),
            compacts_unnamed_all(r.fields@, self.fields@, final(registry).ids()),
            final(registry).tables() == variant_tables(graph.view(), old(registry).tables(), EnumVariant::TupleStruct(*self), fuel@),
        decreases fuel@, 4int,
    {
        let name = registry.intern_string(graph, self.name);
        let ghost r1 = *registry;
        let fields = compact_unnamed_fields(&self.fields, registry, graph, fuel);
        proof {
            lemma_grows_trans(old(registry), &r1, registry);
            assert(registry.string_seq()[name.id - 1] == r1.string_seq()[name.id - 1]);
        }
        EnumVariantTupleStruct { name, fields }
    }
}

impl EnumVariant {
    /// Compacts the variant, whatever its kind.
    pub fn into_compact(&self, registry: &mut Registry, graph: &TypeGraph, fuel: Ghost<nat>) -> (r: EnumVariant<Symbol, Symbol>)
        requires
            old(registry).tracks(graph),
            graph.well_formed(),
            fuel@ >= graph.view().len() - old(registry).ids().len(),
            variant_refs_in(*self, graph.ids()),
        ensures
            final(registry).tracks(graph),
            old(registry).grows_to(final(registry)),
            compacts_variant(r, *self, final(registry).string_seq(), final(registry).ids()),
            final(registry).tables() == variant_tables(graph.view(), old(registry).tables(), *self, fuel@),
        decreases fuel@, 5int,
    {
        match self {
            EnumVariant::Unit(u) => EnumVariant::Unit(u.into_compact(registry, graph)),
            EnumVariant::Struct(s) => EnumVariant::Struct(s.into_compact(registry, graph, fuel)),
            EnumVariant::TupleStruct(t) => EnumVariant::TupleStruct(t.into_compact(registry, graph, fuel)),
        }
    }
}

impl TypeDefStruct {
    /// Compacts the definition: its fields.
    pub fn into_compact(&self, registry: &mut Registry, graph: &TypeGraph, fuel: Ghost<nat>) -> (r: TypeDefStruct<Symbol, Symbol>)
        requires
            old(registry).tracks(graph),
            graph.well_formed(),
            fuel@ >= graph.view().len() - old(registry).ids().len(),
            named_refs_in(self.fields@, graph.ids()),
        ensures
            final(registry).tracks(graph),
            old(registry).grows_to(final(registry)),
            compacts_named_all(r.fields@, self.fields@, final(registry).string_seq(), final(registry).ids()),
            final(registry).tables() == type_def_tables(graph.view(), old(registry).tables(), TypeDef::Struct(*self), fuel@),
        decreases fuel@, 6int,
    {
        TypeDefStruct { fields: compact_named_fields(&self.fields, registry, graph, fuel) }
    }
}

impl TypeDefTupleStruct {
    /// Compacts the definition: its fields.
    pub fn into_compact(&self, registry: &mut Registry, graph: &TypeGraph, fuel: Ghost<nat>) -> (r: TypeDefTupleStruct<Symbol>)
        requires
            old(registry).tracks(graph),
            graph.well_formed(),
            fuel@ >= graph.view().len() - old(registry).ids().len(),
            unnamed_refs_in(self.fields@, graph.ids()),
        ensures
            final(registry).tracks(graph),
            old(registry).grows_to(final(registry)),
            compacts_unnamed_all(r.fields@, self.fields@, final(registry).ids()),
            final(registry).tables() == type_def_tables(graph.view(), old(registry).tables(), TypeDef::TupleStruct(*self), fuel@),
        decreases fuel@, 6int,
    {
        TypeDefTupleStruct { fields: compact_unnamed_fields(&self.fields, registry, graph, fuel) }
    }
}

impl TypeDefUnion {
    /// Compacts the definition: its fields.
    pub fn into_compact(&self, registry: &mut Registry, graph: &TypeGraph, fuel: Ghost<nat>) -> (r: TypeDefUnion<Symbol, Symbol>)
        requires
            old(registry).tracks(graph),
            graph.well_formed(),
            fuel@ >= graph.view().len() - old(registry).ids().len(),
            named_refs_in(self.fields@, graph.ids()),
        ensures
            final(registry).tracks(graph),
            old(registry).grows_to(final(registry)),
            compacts_named_all(r.fields@, self.fields@, final(registry).string_seq(), final(registry).ids()),
            final(registry).tables() == type_def_tables(graph.view(), old(registry).tables(), TypeDef::Union(*self), fuel@),
        decreases fuel@, 6int,
    {
        TypeDefUnion { fields: compact_named_fields(&self.fields, registry, graph, fuel) }
    }
}

impl TypeDefEnum {
    /// Compacts the definition: its variants, in order.
    pub fn into_compact(&self, registry: &mut Registry, graph: &TypeGraph, fuel: Ghost<nat>) -> (r: TypeDefEnum<Symbol, Symbol>)
        requires
            old(registry).tracks(graph),
            graph.well_formed(),
            fuel@ >= graph.view().len() - old(registry).ids().len(),
            forall|i: int|
                0 <= i < self.variants@.len() ==> variant_refs_in(#[trigger] self.variants@[i], graph.ids()),
        ensures
            final(registry).tracks(graph),
            old(registry).grows_to(final(registry)),
            compacts_variants_all(r.variants@, self.variants@, final(registry).string_seq(), final(registry).ids()),
            final(registry).tables() == type_def_tables(graph.view(), old(registry).tables(), TypeDef::Enum(*self), fuel@),
        decreases fuel@, 6int,
    {
        let n = self.variants.len();
        let mut out: Vec<EnumVariant<Symbol, Symbol>> = Vec::new();
        let mut i: usize = 0;
        while i < n
            invariant
                n == self.variants@.len(),
                i <= n,
                registry.tracks(graph),
                graph.well_formed(),
                forall|i: int|
                    0 <= i < self.variants@.len() ==> variant_refs_in(#[trigger] self.variants@[i], graph.ids()),
                old(registry).grows_to(registry),
                compacts_variants_all(out@, self.variants@.take(i as int), registry.string_seq(), registry.ids()),
                fuel@ >= graph.view().len() - registry.ids().len(),
                registry.tables() == variants_tables(graph.view(), old(registry).tables(), self.variants@.take(i as int), fuel@),
            decreases n - i,
        {
            let ghost r0 = *registry;
            let v = self.variants[i].into_compact(registry, graph, fuel);
            proof {
                assert(self.variants@.take(i + 1).drop_last() == self.variants@.take(i as int));
                lemma_grows_trans(old(registry), &r0, registry);
                lemma_variants_all_extends(
                    out@,
                    self.variants@.take(i as int),
                    r0.string_seq(),
                    r0.ids(),
                    registry.string_seq(),
                    registry.ids(),
                );
            }
            out.push(v);
            proof {
                assert(self.variants@.take(i + 1) == self.variants@.take(i as int).push(self.variants@[i as int]));
            }
            i = i + 1;
        }
        proof {
            assert(self.variants@.take(n as int) == self.variants@);
        }
        TypeDefEnum { variants: out }
    }
}

impl TypeDef {
    /// Compacts the definition, registering every string and type it names.
    pub fn into_compact(&self, registry: &mut Registry, graph: &TypeGraph, fuel: Ghost<nat>) -> (r: TypeDef<Symbol, Symbol>)
        requires
            old(registry).tracks(graph),
            graph.well_formed(),
            fuel@ >= graph.view().len() - old(registry).ids().len(),
            type_def_refs_in(*self, graph.ids()),
        ensures
            final(registry).tracks(graph),
            old(registry).grows_to(final(registry)),
            compacts_type_def(r, *self, final(registry).string_seq(), final(registry).ids()),
            final(registry).tables() == type_def_tables(graph.view(), old(registry).tables(), *self, fuel@),
            *self is Builtin ==> *final(registry) == *old(registry),
        decreases fuel@, 9int,
    {
        match self {
            TypeDef::Builtin(b) => TypeDef::Builtin(*b),
            TypeDef::Struct(s) => TypeDef::Struct(s.into_compact(registry, graph, fuel)),
            TypeDef::TupleStruct(t) => TypeDef::TupleStruct(t.into_compact(registry, graph, fuel)),
            TypeDef::ClikeEnum(c) => TypeDef::ClikeEnum(c.into_compact(registry, graph)),
            TypeDef::Enum(e) => TypeDef::Enum(e.into_compact(registry, graph, fuel)),
            TypeDef::Union(u) => TypeDef::Union(u.into_compact(registry, graph, fuel)),
        }
    }
}


impl IntoCompact for NamedField {
    type Output = NamedField<Symbol, Symbol>;

    open spec fn refs_within(&self, graph: &TypeGraph) -> bool {
        graph.has(self.ty.id)
    }

    open spec fn visit(&self, g: Seq<Descriptor>, t: Tables, fuel: nat) -> Tables {
        reg_tables(g, with_string(t, self.name@), self.ty.id, fuel)
    }

    open spec fn compacts_to(&self, out: NamedField<Symbol, Symbol>, strings: Seq<Seq<char>>, ids: Seq<u64>) -> bool {
        compacts_named(out, *self, strings, ids)
    }

    fn into_compact(&self, registry: &mut Registry, graph: &TypeGraph, fuel: Ghost<nat>) -> (r: NamedField<Symbol, Symbol>) {
        self.into_compact(registry, graph, fuel)
    }
}

impl IntoCompact for UnnamedField {
    type Output = UnnamedField<Symbol>;

    open spec fn refs_within(&self, graph: &TypeGraph) -> bool {
        graph.has(self.ty.id)
    }

    open spec fn visit(&self, g: Seq<Descriptor>, t: Tables, fuel: nat) -> Tables {
        reg_tables(g, t, self.ty.id, fuel)
    }

    open spec fn compacts_to(&self, out: UnnamedField<Symbol>, strings: Seq<Seq<char>>, ids: Seq<u64>) -> bool {
        symbol_of(ids, out.ty, self.ty.id)
    }

    fn into_compact(&self, registry: &mut Registry, graph: &TypeGraph, fuel: Ghost<nat>) -> (r: UnnamedField<Symbol>) {
        self.into_compact(registry, graph, fuel)
    }
}

impl IntoCompact for ClikeEnumVariant {
    type Output = ClikeEnumVariant<Symbol>;

    open spec fn refs_within(&self, graph: &TypeGraph) -> bool {
        true
    }

    open spec fn visit(&self, g: Seq<Descriptor>, t: Tables, fuel: nat) -> Tables {
        with_string(t, self.name@)
    }

    open spec fn compacts_to(&self, out: ClikeEnumVariant<Symbol>, strings: Seq<Seq<char>>, ids: Seq<u64>) -> bool {
        symbol_of(strings, out.name, self.name@) && out.discriminant == self.discriminant
    }

    fn into_compact(&self, registry: &mut Registry, graph: &TypeGraph, fuel: Ghost<nat>) -> (r: ClikeEnumVariant<Symbol>) {
        self.into_compact(registry, graph)
    }
}

impl IntoCompact for TypeDefClikeEnum {
    type Output = TypeDefClikeEnum<Symbol>;

    open spec fn refs_within(&self, graph: &TypeGraph) -> bool {
        true
    }

    open spec fn visit(&self, g: Seq<Descriptor>, t: Tables, fuel: nat) -> Tables {
        clike_tables(t, self.variants@)
    }

    open spec fn compacts_to(&self, out: TypeDefClikeEnum<Symbol>, strings: Seq<Seq<char>>, ids: Seq<u64>) -> bool {
        compacts_clike_all(out.variants@, self.variants@, strings)
    }

    fn into_compact(&self, registry: &mut Registry, graph: &TypeGraph, fuel: Ghost<nat>) -> (r: TypeDefClikeEnum<Symbol>) {
        self.into_compact(registry, graph)
    }
}

impl IntoCompact for EnumVariantUnit {
    type Output = EnumVariantUnit<Symbol>;

    open spec fn refs_within(&self, graph: &TypeGraph) -> bool {
        true
    }

    open spec fn visit(&self, g: Seq<Descriptor>, t: Tables, fuel: nat) -> Tables {
        with_string(t, self.name@)
    }

    open spec fn compacts_to(&self, out: EnumVariantUnit<Symbol>, strings: Seq<Seq<char>>, ids: Seq<u64>) -> bool {
        symbol_of(strings, out.name, self.name@)
    }

    fn into_compact(&self, registry: &mut Registry, graph: &TypeGraph, fuel: Ghost<nat>) -> (r: EnumVariantUnit<Symbol>) {
        self.into_compact(registry, graph)
    }
}

impl IntoCompact for EnumVariantStruct {
    type Output = EnumVariantStruct<Symbol, Symbol>;

    open spec fn refs_within(&self, graph: &TypeGraph) -> bool {
        named_refs_in(self.fields@, graph.ids())
    }

    open spec fn visit(&self, g: Seq<Descriptor>, t: Tables, fuel: nat) -> Tables {
        variant_tables(g, t, EnumVariant::Struct(*self), fuel)
    }

    open spec fn compacts_to(&self, out: EnumVariantStruct<Symbol, Symbol>, strings: Seq<Seq<char>>, ids: Seq<u64>) -> bool {
        symbol_of(strings, out.name, self.name@) && compacts_named_all(out.fields@, self.fields@, strings, ids)
    }

    fn into_compact(&self, registry: &mut Registry, graph: &TypeGraph, fuel: Ghost<nat>) -> (r: EnumVariantStruct<Symbol, Symbol>) {
        self.into_compact(registry, graph, fuel)
    }
}

impl IntoCompact for EnumVariantTupleStruct {
    type Output = EnumVariantTupleStruct<Symbol, Symbol>;

    open spec fn refs_within(&self, graph: &TypeGraph) -> bool {
        unnamed_refs_in(self.fields@, graph.ids())
    }

    open spec fn visit(&self, g: Seq<Descriptor>, t: Tables, fuel: nat) -> Tables {
        variant_tables(g, t, EnumVariant::TupleStruct(*self), fuel)
    }

    open spec fn compacts_to(&self, out: EnumVariantTupleStruct<Symbol, Symbol>, strings: Seq<Seq<char>>, ids: Seq<u64>) -> bool {
        symbol_of(strings, out.name, self.name@) && compacts_unnamed_all(out.fields@, self.fields@, ids)
    }

    fn into_compact(&self, registry: &mut Registry, graph: &TypeGraph, fuel: Ghost<nat>) -> (r: EnumVariantTupleStruct<Symbol, Symbol>) {
        self.into_compact(registry, graph, fuel)
    }
}

impl IntoCompact for EnumVariant {
    type Output = EnumVariant<Symbol, Symbol>;

    open spec fn refs_within(&self, graph: &TypeGraph) -> bool {
        variant_refs_in(*self, graph.ids())
    }

    open spec fn visit(&self, g: Seq<Descriptor>, t: Tables, fuel: nat) -> Tables {
        variant_tables(g, t, *self, fuel)
    }

    open spec fn compacts_to(&self, out: EnumVariant<Symbol, Symbol>, strings: Seq<Seq<char>>, ids: Seq<u64>) -> bool {
        compacts_variant(out, *self, strings, ids)
    }

    fn into_compact(&self, registry: &mut Registry, graph: &TypeGraph, fuel: Ghost<nat>) -> (r: EnumVariant<Symbol, Symbol>) {
        self.into_compact(registry, graph, fuel)
    }
}

impl IntoCompact for TypeDefStruct {
    type Output = TypeDefStruct<Symbol, Symbol>;

    open spec fn refs_within(&self, graph: &TypeGraph) -> bool {
        named_refs_in(self.fields@, graph.ids())
    }

    open spec fn visit(&self, g: Seq<Descriptor>, t: Tables, fuel: nat) -> Tables {
        type_def_tables(g, t, TypeDef::Struct(*self), fuel)
    }

    open spec fn compacts_to(&self, out: TypeDefStruct<Symbol, Symbol>, strings: Seq<Seq<char>>, ids: Seq<u64>) -> bool {
        compacts_named_all(out.fields@, self.fields@, strings, ids)
    }

    fn into_compact(&self, registry: &mut Registry, graph: &TypeGraph, fuel: Ghost<nat>) -> (r: TypeDefStruct<Symbol, Symbol>) {
        self.into_compact(registry, graph, fuel)
    }
}

impl IntoCompact for TypeDefTupleStruct {
    type Output = TypeDefTupleStruct<Symbol>;

    open spec fn refs_within(&self, graph: &TypeGraph) -> bool {
        unnamed_refs_in(self.fields@, graph.ids())
    }

    open spec fn visit(&self, g: Seq<Descriptor>, t: Tables, fuel: nat) -> Tables {
        type_def_tables(g, t, TypeDef::TupleStruct(*self), fuel)
    }

    open spec fn compacts_to(&self, out: TypeDefTupleStruct<Symbol>, strings: Seq<Seq<char>>, ids: Seq<u64>) -> bool {
        compacts_unnamed_all(out.fields@, self.fields@, ids)
    }

    fn into_compact(&self, registry: &mut Registry, graph: &TypeGraph, fuel: Ghost<nat>) -> (r: TypeDefTupleStruct<Symbol>) {
        self.into_compact(registry, graph, fuel)
    }
}

impl IntoCompact for TypeDefEnum {
    type Output = TypeDefEnum<Symbol, Symbol>;

    open spec fn refs_within(&self, graph: &TypeGraph) -> bool {
        forall|i: int| 0 <= i < self.variants@.len() ==> variant_refs_in(#[trigger] self.variants@[i], graph.ids())
    }

    open spec fn visit(&self, g: Seq<Descriptor>, t: Tables, fuel: nat) -> Tables {
        type_def_tables(g, t, TypeDef::Enum(*self), fuel)
    }

    open spec fn compacts_to(&self, out: TypeDefEnum<Symbol, Symbol>, strings: Seq<Seq<char>>, ids: Seq<u64>) -> bool {
        compacts_variants_all(out.variants@, self.variants@, strings, ids)
    }

    fn into_compact(&self, registry: &mut Registry, graph: &TypeGraph, fuel: Ghost<nat>) -> (r: TypeDefEnum<Symbol, Symbol>) {
        self.into_compact(registry, graph, fuel)
    }
}

impl IntoCompact for TypeDefUnion {
    type Output = TypeDefUnion<Symbol, Symbol>;

    open spec fn refs_within(&self, graph: &TypeGraph) -> bool {
        named_refs_in(self.fields@, graph.ids())
    }

    open spec fn visit(&self, g: Seq<Descriptor>, t: Tables, fuel: nat) -> Tables {
        type_def_tables(g, t, TypeDef::Union(*self), fuel)
    }

    open spec fn compacts_to(&self, out: TypeDefUnion<Symbol, Symbol>, strings: Seq<Seq<char>>, ids: Seq<u64>) -> bool {
        compacts_named_all(out.fields@, self.fields@, strings, ids)
    }

    fn into_compact(&self, registry: &mut Registry, graph: &TypeGraph, fuel: Ghost<nat>) -> (r: TypeDefUnion<Symbol, Symbol>) {
        self.into_compact(registry, graph, fuel)
    }
}

impl IntoCompact for TypeDef {
    type Output = TypeDef<Symbol, Symbol>;

    open spec fn refs_within(&self, graph: &TypeGraph) -> bool {
        type_def_refs_in(*self, graph.ids())
    }

    open spec fn visit(&self, g: Seq<Descriptor>, t: Tables, fuel: nat) -> Tables {
        type_def_tables(g, t, *self, fuel)
    }

    open spec fn compacts_to(&self, out: TypeDef<Symbol, Symbol>, strings: Seq<Seq<char>>, ids: Seq<u64>) -> bool {
        compacts_type_def(out, *self, strings, ids)
    }

    fn into_compact(&self, registry: &mut Registry, graph: &TypeGraph, fuel: Ghost<nat>) -> (r: TypeDef<Symbol, Symbol>) {
        self.into_compact(registry, graph, fuel)
    }
}

} // verus!
