//! The serialized form of a registry and the passes between the two.
//!
//! The form holds the interned strings in symbol order and the compacted
//! entries in storage order; type identities are not part of it. Decoding gives
//! entry `i` the symbol `i + 1`, which is the symbol it had when it was
//! encoded, so the symbols inside the entries keep their meaning.

use vstd::prelude::*;

use crate::registry::{defined, Registry, TypeIdDef};

verus! {

/// A registry as it is serialized: strings in symbol order, entries in storage
/// order.
pub struct SerializedRegistry {
    pub strings: Vec<&'static str>,
    pub types: Vec<TypeIdDef>,
}

/// What encoding a registry with these strings and entry slots yields.
pub open spec fn encoding(strings: Seq<Seq<char>>, entries: Seq<Option<TypeIdDef>>) -> (
    Seq<Seq<char>>,
    Seq<TypeIdDef>,
) {
    (strings, defined(entries))
}

/// The strings and entry slots of the registry that decoding this form yields.
pub open spec fn decoding(strings: Seq<Seq<char>>, types: Seq<TypeIdDef>) -> (
    Seq<Seq<char>>,
    Seq<Option<TypeIdDef>>,
) {
    (strings, types.map_values(|t: TypeIdDef| Some(t)))
}

/// The top-level fields of the serialized form.
#[derive(PartialEq, Eq, Structural, Clone, Copy, Debug)]
pub enum FieldName {
    Strings,
    Types,
}

/// One top-level field of the serialized form, with its value.
pub enum RegistryField {
    Strings(Vec<&'static str>),
    Types(Vec<TypeIdDef>),
}

/// The name of a field.
pub open spec fn field_name(f: RegistryField) -> FieldName {
    match f {
        RegistryField::Strings(_) => FieldName::Strings,
        RegistryField::Types(_) => FieldName::Types,
    }
}

/// The names of the fields, in order.
pub open spec fn field_names(fields: Seq<RegistryField>) -> Seq<FieldName> {
    fields.map_values(|f: RegistryField| field_name(f))
}

/// An error in the structure of the serialized form.
#[derive(PartialEq, Eq, Structural, Clone, Copy, Debug)]
pub enum DecodeError {
    /// A top-level field is absent.
    MissingField(FieldName),
    /// A top-level field occurs twice.
    DuplicateField(FieldName),
}

/// The field at position `k` of `names` is the first one that repeats an
/// earlier field.
pub open spec fn first_repeat(names: Seq<FieldName>, k: int) -> bool {
    &&& 0 <= k < names.len()
    &&& names.take(k).contains(names[k])
    &&& forall|j: int| 0 <= j < k ==> !(#[trigger] names.take(j)).contains(names[j])
}

/// No field of `names` repeats an earlier one.
pub open spec fn no_repeat(names: Seq<FieldName>) -> bool {
    forall|j: int| 0 <= j < names.len() ==> !(#[trigger] names.take(j)).contains(names[j])
}

/// Moves the entries out of their slots, keeping those that are filled.
fn take_defined(slots: Vec<Option<TypeIdDef>>) -> (r: Vec<TypeIdDef>)
    ensures
        r@ == defined(slots@),
{
    let ghost all = slots@;
    let mut slots = slots;
    let mut out: Vec<TypeIdDef> = Vec::new();
    while slots.len() > 0
        invariant
            slots@ == all.take(slots@.len() as int),
            slots@.len() <= all.len(),
            defined(slots@) + out@ == defined(all),
        decreases slots@.len(),
    {
        let ghost before = slots@;
        let last = slots.pop();
        proof {
            assert(before.drop_last() == slots@);
            assert(slots@ == all.take(slots@.len() as int));
        }
        match last {
            Some(Some(e)) => {
                let ghost out0 = out@;
                out.insert(0, e);
                proof {
                    assert(defined(before) == defined(slots@).push(e));
                    assert(out@ =~= seq![e] + out0);
                    assert(defined(slots@) + out@ =~= defined(slots@).push(e) + out0);
                }
            },
            _ => {
                proof {
                    assert(defined(before) == defined(slots@));
                }
            },
        }
    }
    proof {
        assert(defined(slots@) == Seq::<TypeIdDef>::empty());
        assert(out@ == defined(all));
    }
    out
}

/// Puts each entry into a filled slot, keeping the order.
fn into_slots(types: Vec<TypeIdDef>) -> (r: Vec<Option<TypeIdDef>>)
    ensures
        r@ == types@.map_values(|t: TypeIdDef| Some(t)),
{
    let ghost all = types@;
    let mut types = types;
    let mut out: Vec<Option<TypeIdDef>> = Vec::new();
    while types.len() > 0
        invariant
            types@ == all.take(types@.len() as int),
            types@.len() <= all.len(),
            types@.map_values(|t: TypeIdDef| Some(t)) + out@ == all.map_values(|t: TypeIdDef| Some(t)),
        decreases types@.len(),
    {
        let ghost before = types@;
        let ghost out0 = out@;
        let last = types.pop();
        match last {
            Some(e) => {
                out.insert(0, Some(e));
                proof {
                    assert(before.drop_last() == types@);
                    assert(types@ == all.take(types@.len() as int));
                    assert(out@ =~= seq![Some(e)] + out0);
                    assert(before.map_values(|t: TypeIdDef| Some(t)) =~= types@.map_values(
                        |t: TypeIdDef| Some(t),
                    ).push(Some(e)));
                    assert(types@.map_values(|t: TypeIdDef| Some(t)) + out@ =~= before.map_values(
                        |t: TypeIdDef| Some(t),
                    ) + out0);
                }
            },
            None => {},
        }
    }
    proof {
        assert(types@.map_values(|t: TypeIdDef| Some(t)) =~= Seq::<Option<TypeIdDef>>::empty());
        assert(out@ =~= all.map_values(|t: TypeIdDef| Some(t)));
    }
    out
}

impl Registry {
    /// Encodes the registry: its strings in symbol order and its entries in
    /// storage order, without the type identities.
    pub fn encode(self) -> (r: SerializedRegistry)
        ensures
            (r.strings@.map_values(|s: &'static str| s@), r.types@) == encoding(
                self.string_seq(),
                self.entries(),
            ),
    {
        let (strings, slots) = self.into_parts();
        SerializedRegistry { strings, types: take_defined(slots) }
    }

    /// Decodes a registry: the string at position `i` and the entry at
    /// position `i` get the symbol `i + 1`; no type identity is interned.
    pub fn decode(form: SerializedRegistry) -> (r: Registry)
        ensures
            (r.string_seq(), r.entries()) == decoding(
                form.strings@.map_values(|s: &'static str| s@),
                form.types@,
            ),
            r.ids().len() == 0,
    {
        Registry::from_parts(form.strings, into_slots(form.types))
    }

    /// Decodes a registry from the top-level fields of its serialized form, in
    /// the order in which they were read.
    ///
    /// The first field that occurs a second time is reported as duplicate; else
    /// a missing `types`, then a missing `strings`, is reported.
    pub fn from_fields(fields: Vec<RegistryField>) -> (r: Result<Registry, DecodeError>)
        ensures
            ({
                let names = field_names(fields@);
                match r {
                    Err(DecodeError::DuplicateField(n)) => exists|k: int|
                        first_repeat(names, k) && names[k] == n,
                    Err(DecodeError::MissingField(n)) => {
                        &&& no_repeat(names)
                        &&& n == FieldName::Types ==> !names.contains(FieldName::Types)
                        &&& n == FieldName::Strings ==> names.contains(FieldName::Types)
                            && !names.contains(FieldName::Strings)
                    },
                    Ok(reg) => {
                        &&& no_repeat(names)
                        &&& reg.ids().len() == 0
                        &&& exists|i: int, j: int|
                            {
                                &&& 0 <= i < fields@.len()
                                &&& 0 <= j < fields@.len()
                                &&& (#[trigger] fields@[i]) is Strings
                                &&& (#[trigger] fields@[j]) is Types
                                &&& (reg.string_seq(), reg.entries()) == decoding(
                                    fields@[i]->Strings_0@.map_values(|s: &'static str| s@),
                                    fields@[j]->Types_0@,
                                )
                            }
                    },
                }
            }),
    {
        let ghost all = fields@;
        let ghost names = field_names(all);
        let n = fields.len();
        let mut rest = fields;
        let mut strings: Option<Vec<&'static str>> = None;
        let mut types: Option<Vec<TypeIdDef>> = None;
        let mut i: usize = 0;
        while i < n
            invariant
                n == all.len(),
                i <= n,
                names == field_names(all),
                all == fields@,
                rest@ == all.subrange(i as int, n as int),
                no_repeat(names.take(i as int)),
                strings is Some <==> names.take(i as int).contains(FieldName::Strings),
                types is Some <==> names.take(i as int).contains(FieldName::Types),
                strings matches Some(v) ==> exists|k: int|
                    0 <= k < i && (#[trigger] all[k]) == RegistryField::Strings(v),
                types matches Some(v) ==> exists|k: int|
                    0 <= k < i && (#[trigger] all[k]) == RegistryField::Types(v),
            decreases n - i,
        {
            let f = rest.remove(0);
            proof {
                assert(f == all[i as int]);
                assert(rest@ =~= all.subrange(i + 1, n as int));
                assert(names.take(i + 1) =~= names.take(i as int).push(field_name(f)));
                assert(names.take(i as int).take(i as int) =~= names.take(i as int));
                assert forall|j: int| 0 <= j < i + 1 implies !(#[trigger] names.take(i + 1).take(j)).contains(
                    names.take(i + 1)[j],
                ) || j == i by {
                    if j < i {
                        assert(names.take(i + 1).take(j) =~= names.take(i as int).take(j));
                    }
                }
            }
            match f {
                RegistryField::Strings(v) => {
                    if strings.is_some() {
                        proof {
                            assert(names.take(i as int).contains(names[i as int]));
                            assert forall|j: int| 0 <= j < i implies !(#[trigger] names.take(j)).contains(names[j]) by {
                                assert(names.take(i as int).take(j) =~= names.take(j));
                            }
                            assert(first_repeat(names, i as int));
                            assert(names[i as int] == FieldName::Strings);
                        }
                        return Err(DecodeError::DuplicateField(FieldName::Strings));
                    }
                    strings = Some(v);
                },
                RegistryField::Types(v) => {
                    if types.is_some() {
                        proof {
                            assert(names.take(i as int).contains(names[i as int]));
                            assert forall|j: int| 0 <= j < i implies !(#[trigger] names.take(j)).contains(names[j]) by {
                                assert(names.take(i as int).take(j) =~= names.take(j));
                            }
                            assert(first_repeat(names, i as int));
                            assert(names[i as int] == FieldName::Types);
                        }
                        return Err(DecodeError::DuplicateField(FieldName::Types));
                    }
                    types = Some(v);
                },
            }
            proof {
                lemma_take_push_contains(names, i as int, FieldName::Strings);
                lemma_take_push_contains(names, i as int, FieldName::Types);
                assert(!names.take(i as int).contains(names[i as int]));
                assert forall|j: int| 0 <= j < i + 1 implies !(#[trigger] names.take(i + 1).take(j)).contains(
                    names.take(i + 1)[j],
                ) by {
                    if j < i {
                        assert(names.take(i + 1).take(j) =~= names.take(i as int).take(j));
                    } else {
                        assert(names.take(i + 1).take(j) =~= names.take(i as int));
                    }
                }
            }
            i = i + 1;
        }
        proof {
            assert(names.take(n as int) =~= names);
            assert forall|j: int| 0 <= j < names.len() implies !(#[trigger] names.take(j)).contains(names[j]) by {
                assert(names.take(n as int).take(j) =~= names.take(j));
            }
        }
        match types {
            None => Err(DecodeError::MissingField(FieldName::Types)),
            Some(ts) => match strings {
                None => Err(DecodeError::MissingField(FieldName::Strings)),
                Some(ss) => Ok(Registry::decode(SerializedRegistry { strings: ss, types: ts })),
            },
        }
    }
}

/// A prefix one longer holds what the shorter one holds and the next item.
proof fn lemma_take_push_contains(s: Seq<FieldName>, i: int, x: FieldName)
    requires
        0 <= i < s.len(),
    ensures
        s.take(i + 1).contains(x) <==> (s.take(i).contains(x) || s[i] == x),
{
    if s.take(i).contains(x) {
        let k = choose|k: int| 0 <= k < i && #[trigger] s.take(i)[k] == x;
        assert(s.take(i + 1)[k] == x);
    }
    if s[i] == x {
        assert(s.take(i + 1)[i] == x);
    }
    if s.take(i + 1).contains(x) {
        let k = choose|k: int| 0 <= k < i + 1 && #[trigger] s.take(i + 1)[k] == x;
        if k < i {
            assert(s.take(i)[k] == x);
        }
    }
}

/// Encoding a decoded form gives that form back: the order of the strings and
/// of the entries survives a full round trip, so encoding, decoding and
/// encoding again gives what the first encoding gave.
pub proof fn lemma_round_trip(strings: Seq<Seq<char>>, entries: Seq<Option<TypeIdDef>>)
    ensures
        ({
            let e = encoding(strings, entries);
            let d = decoding(e.0, e.1);
            encoding(d.0, d.1) == e
        }),
{
    let e = encoding(strings, entries);
    lemma_defined_of_filled(e.1);
}

/// The entries of slots that are all filled are those of the slots, in order.
pub proof fn lemma_defined_of_filled(types: Seq<TypeIdDef>)
    ensures
        defined(types.map_values(|t: TypeIdDef| Some(t))) == types,
    decreases types.len(),
{
    if types.len() > 0 {
        let slots = types.map_values(|t: TypeIdDef| Some(t));
        assert(slots.drop_last() =~= types.drop_last().map_values(|t: TypeIdDef| Some(t)));
        lemma_defined_of_filled(types.drop_last());
        assert(types =~= types.drop_last().push(types.last()));
    }
}

} // verus!
