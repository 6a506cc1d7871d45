//! The order in which compaction visits the strings and types of a graph.
//!
//! The spec functions here give the string table and the identity table that
//! compaction leaves behind, from the tables it starts with. Strings are
//! interned and types registered in the order in which they occur: for a
//! custom identifier the namespace, then the name, then the parameters; for a
//! field its name, then its type; parts of a list from first to last. A type
//! whose identity is new is interned before its identifier and then its
//! definition are visited. The `fuel` bounds the depth of nested registrations;
//! compaction always gives enough of it.

use vstd::prelude::*;

use crate::meta_type::{Descriptor, MetaType};
use crate::type_def::{ClikeEnumVariant, EnumVariant, NamedField, TypeDef, UnnamedField};
use crate::type_id::TypeId;

verus! {

/// The string table and the identity table of a registry.
pub type Tables = (Seq<Seq<char>>, Seq<u64>);

/// Interns one string: a string already present leaves the table as it is.
pub open spec fn with_string(t: Tables, s: Seq<char>) -> Tables {
    if t.0.contains(s) {
        t
    } else {
        (t.0.push(s), t.1)
    }
}

/// Interns the strings `ss` into the string table, first to last.
pub open spec fn intern_seq(t: Tables, ss: Seq<Seq<char>>) -> Tables
    decreases ss.len(),
{
    if ss.len() == 0 {
        t
    } else {
        with_string(intern_seq(t, ss.drop_last()), ss.last())
    }
}

/// The descriptor of the identity `id` in `g`.
pub open spec fn lookup(g: Seq<Descriptor>, id: u64) -> Descriptor {
    g[choose|i: int| 0 <= i < g.len() && (#[trigger] g[i]).meta.id == id]
}

/// Registers the type `id`: a known identity changes nothing; a new one is
/// interned, then its identifier and its definition are visited.
pub open spec fn reg_tables(g: Seq<Descriptor>, t: Tables, id: u64, fuel: nat) -> Tables
    decreases fuel, 0nat, 0nat,
{
    if t.1.contains(id) || fuel == 0 {
        t
    } else {
        let d = lookup(g, id);
        let t1 = (t.0, t.1.push(id));
        type_def_tables(g, type_id_tables(g, t1, d.type_id, (fuel - 1) as nat), d.type_def, (fuel - 1) as nat)
    }
}

/// Registers the types `tys`, first to last.
pub open spec fn metas_tables(g: Seq<Descriptor>, t: Tables, tys: Seq<MetaType>, fuel: nat) -> Tables
    decreases fuel, 1nat, tys.len(),
{
    if tys.len() == 0 {
        t
    } else {
        reg_tables(g, metas_tables(g, t, tys.drop_last(), fuel), tys.last().id, fuel)
    }
}

/// Visits an identifier.
pub open spec fn type_id_tables(g: Seq<Descriptor>, t: Tables, m: TypeId, fuel: nat) -> Tables
    decreases fuel, 2nat, 0nat,
{
    match m {
        TypeId::Custom(c) => metas_tables(
            g,
            with_string(intern_seq(t, c.namespace.segment_chars()), c.name@),
            c.type_params@,
            fuel,
        ),
        TypeId::Slice(s) => reg_tables(g, t, s.type_param.id, fuel),
        TypeId::Array(a) => reg_tables(g, t, a.type_param.id, fuel),
        TypeId::Tuple(tu) => metas_tables(g, t, tu.type_params@, fuel),
        TypeId::Primitive(_) => t,
    }
}

/// Visits named fields, first to last: the name, then the type of each.
pub open spec fn named_tables(g: Seq<Descriptor>, t: Tables, fs: Seq<NamedField>, fuel: nat) -> Tables
    decreases fuel, 1nat, fs.len(),
{
    if fs.len() == 0 {
        t
    } else {
        reg_tables(g, with_string(named_tables(g, t, fs.drop_last(), fuel), fs.last().name@), fs.last().ty.id, fuel)
    }
}

/// Visits unnamed fields, first to last.
pub open spec fn unnamed_tables(g: Seq<Descriptor>, t: Tables, fs: Seq<UnnamedField>, fuel: nat) -> Tables
    decreases fuel, 1nat, fs.len(),
{
    if fs.len() == 0 {
        t
    } else {
        reg_tables(g, unnamed_tables(g, t, fs.drop_last(), fuel), fs.last().ty.id, fuel)
    }
}

/// Interns the names of C-like variants, first to last.
pub open spec fn clike_tables(t: Tables, vs: Seq<ClikeEnumVariant>) -> Tables
    decreases vs.len(),
{
    if vs.len() == 0 {
        t
    } else {
        with_string(clike_tables(t, vs.drop_last()), vs.last().name@)
    }
}

/// Visits a variant: its name, then its fields.
pub open spec fn variant_tables(g: Seq<Descriptor>, t: Tables, v: EnumVariant, fuel: nat) -> Tables
    decreases fuel, 2nat, 0nat,
{
    match v {
        EnumVariant::Unit(u) => with_string(t, u.name@),
        EnumVariant::Struct(s) => named_tables(g, with_string(t, s.name@), s.fields@, fuel),
        EnumVariant::TupleStruct(tu) => unnamed_tables(g, with_string(t, tu.name@), tu.fields@, fuel),
    }
}

/// Visits variants, first to last.
pub open spec fn variants_tables(g: Seq<Descriptor>, t: Tables, vs: Seq<EnumVariant>, fuel: nat) -> Tables
    decreases fuel, 3nat, vs.len(),
{
    if vs.len() == 0 {
        t
    } else {
        variant_tables(g, variants_tables(g, t, vs.drop_last(), fuel), vs.last(), fuel)
    }
}

/// Visits a definition.
pub open spec fn type_def_tables(g: Seq<Descriptor>, t: Tables, m: TypeDef, fuel: nat) -> Tables
    decreases fuel, 4nat, 0nat,
{
    match m {
        TypeDef::Builtin(_) => t,
        TypeDef::Struct(s) => named_tables(g, t, s.fields@, fuel),
        TypeDef::TupleStruct(tu) => unnamed_tables(g, t, tu.fields@, fuel),
        TypeDef::ClikeEnum(c) => clike_tables(t, c.variants@),
        TypeDef::Enum(e) => variants_tables(g, t, e.variants@, fuel),
        TypeDef::Union(u) => named_tables(g, t, u.fields@, fuel),
    }
}

} // verus!
