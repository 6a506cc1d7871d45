use scale_info::interner::Interner;
use scale_info::{
    Builtin, ClikeEnumVariant, DecodeError, Descriptor, HasTypeDef, HasTypeId, Metadata, EnumVariant, EnumVariantStruct,
    EnumVariantTupleStruct, EnumVariantUnit, FieldName, MetaType, NamedField, Namespace, Registry,
    RegistryField, Symbol, TypeDef, TypeDefClikeEnum, TypeDefEnum, TypeDefStruct,
    TypeDefTupleStruct, TypeDefUnion, TypeGraph, TypeId, TypeIdArray, TypeIdCustom,
    TypeIdPrimitive, TypeIdSlice, TypeIdTuple, UnnamedField,
};

const I32: u64 = 1;
const POINT: u64 = 2;
const NODE: u64 = 3;

fn sym(id: usize) -> Symbol {
    Symbol::new(id)
}

fn i32_type(graph: &mut TypeGraph) {
    assert!(graph.add(
        MetaType::new(I32),
        TypeId::Primitive(TypeIdPrimitive::I32),
        TypeDef::builtin()
    ));
}

fn point_graph() -> TypeGraph {
    let mut graph = TypeGraph::new();
    i32_type(&mut graph);
    let ns = Namespace::new(vec!["pkg", "Point"]).unwrap();
    graph.add(
        MetaType::new(POINT),
        TypeId::Custom(TypeIdCustom::new("Point", ns, vec![])),
        TypeDef::Struct(TypeDefStruct::new(vec![
            NamedField::new("x", MetaType::new(I32)),
            NamedField::new("y", MetaType::new(I32)),
        ])),
    );
    graph
}

/// A linked list node: `struct Node { value: i32, next: Option<Node> }`
/// written with a direct self-reference.
fn node_graph() -> TypeGraph {
    let mut graph = TypeGraph::new();
    i32_type(&mut graph);
    graph.add(
        MetaType::new(NODE),
        TypeId::Custom(TypeIdCustom::new("Node", Namespace::new(vec!["list"]).unwrap(), vec![])),
        TypeDef::Struct(TypeDefStruct::new(vec![
            NamedField::new("value", MetaType::new(I32)),
            NamedField::new("next", MetaType::new(NODE)),
        ])),
    );
    graph
}

#[test]
fn register_string_twice_gives_same_symbol() {
    let mut registry = Registry::new();
    let a = registry.register_string("alpha");
    let b = registry.register_string("beta");
    let a2 = registry.register_string("alpha");
    assert_eq!(a, sym(1));
    assert_eq!(b, sym(2));
    assert_eq!(a2, a);
    assert_eq!(registry.strings(), vec!["alpha", "beta"]);
}

#[test]
fn interner_counts_each_value_once() {
    let mut interner: Interner<u64> = Interner::new();
    assert_eq!(interner.intern_or_get(7), (true, sym(1)));
    assert_eq!(interner.len(), 1);
    assert_eq!(interner.intern_or_get(7), (false, sym(1)));
    assert_eq!(interner.len(), 1);
    assert_eq!(interner.intern_or_get(9), (true, sym(2)));
    assert_eq!(interner.len(), 2);
    assert_eq!(*interner.get(sym(2)), 9);
    assert_eq!(interner.symbols(), &vec![7, 9]);
}

#[test]
fn struct_scenario() {
    let graph = point_graph();
    let mut registry = Registry::new();
    let point = registry.register_type(&graph, &MetaType::new(POINT));
    assert_eq!(point, sym(1));
    assert_eq!(registry.strings(), vec!["pkg", "Point", "x", "y"]);
    let defs = registry.definitions();
    assert_eq!(defs.len(), 2);
    let structs: Vec<_> = defs
        .iter()
        .filter(|d| matches!(d.def, TypeDef::Struct(_)))
        .collect();
    assert_eq!(structs.len(), 1);
    match &structs[0].def {
        TypeDef::Struct(s) => {
            assert_eq!(
                s.fields,
                vec![
                    NamedField { name: sym(3), ty: sym(2) },
                    NamedField { name: sym(4), ty: sym(2) },
                ]
            );
        }
        _ => unreachable!(),
    }
    match &defs[0].id {
        TypeId::Custom(c) => {
            assert_eq!(c.name, sym(2));
            assert_eq!(c.namespace.segments(), &vec![sym(1), sym(2)]);
            assert!(c.type_params.is_empty());
        }
        _ => unreachable!(),
    }
    assert_eq!(defs[1].id, TypeId::Primitive(TypeIdPrimitive::I32));
    assert_eq!(defs[1].def, TypeDef::Builtin(Builtin::Builtin));
}

#[test]
fn registering_a_type_again_adds_nothing() {
    let graph = point_graph();
    let mut registry = Registry::new();
    let first = registry.register_type(&graph, &MetaType::new(POINT));
    for _ in 0..5 {
        assert_eq!(registry.register_type(&graph, &MetaType::new(POINT)), first);
    }
    assert_eq!(registry.definitions().len(), 2);
    assert_eq!(registry.strings().len(), 4);
    let i32_sym = registry.register_type(&graph, &MetaType::new(I32));
    assert_eq!(i32_sym, sym(2));
    assert_eq!(registry.definitions().len(), 2);
}

#[test]
fn self_referential_type_is_compacted_once() {
    let graph = node_graph();
    let mut registry = Registry::new();
    let node = registry.register_type(&graph, &MetaType::new(NODE));
    assert_eq!(node, sym(1));
    let defs = registry.definitions();
    assert_eq!(defs.len(), 2);
    match &defs[0].def {
        TypeDef::Struct(s) => {
            assert_eq!(s.fields[0].ty, sym(2));
            assert_eq!(s.fields[1].ty, node);
        }
        _ => unreachable!(),
    }
    assert_eq!(registry.register_type(&graph, &MetaType::new(NODE)), node);
    assert_eq!(registry.definitions().len(), 2);
}

#[test]
fn mutually_recursive_types_terminate() {
    let mut graph = TypeGraph::new();
    graph.add(
        MetaType::new(10),
        TypeId::Slice(TypeIdSlice::new(MetaType::new(11))),
        TypeDef::builtin(),
    );
    graph.add(
        MetaType::new(11),
        TypeId::Tuple(TypeIdTuple::new(vec![MetaType::new(10), MetaType::new(11)])),
        TypeDef::TupleStruct(TypeDefTupleStruct::new(vec![UnnamedField::new(MetaType::new(10))])),
    );
    let mut registry = Registry::new();
    assert_eq!(registry.register_type(&graph, &MetaType::new(10)), sym(1));
    let defs = registry.definitions();
    assert_eq!(defs.len(), 2);
    assert_eq!(defs[0].id, TypeId::Slice(TypeIdSlice { type_param: sym(2) }));
    assert_eq!(
        defs[1].id,
        TypeId::Tuple(TypeIdTuple { type_params: vec![sym(1), sym(2)] })
    );
    assert_eq!(
        defs[1].def,
        TypeDef::TupleStruct(TypeDefTupleStruct { fields: vec![UnnamedField { ty: sym(1) }] })
    );
    assert!(registry.strings().is_empty());
}

#[test]
fn enums_unions_and_arrays_are_compacted() {
    let mut graph = TypeGraph::new();
    i32_type(&mut graph);
    graph.add(
        MetaType::new(20),
        TypeId::Array(TypeIdArray::new(4, MetaType::new(I32))),
        TypeDef::builtin(),
    );
    graph.add(
        MetaType::new(21),
        TypeId::Custom(TypeIdCustom::new("Op", Namespace::prelude(), vec![MetaType::new(I32)])),
        TypeDef::Enum(TypeDefEnum::new(vec![
            EnumVariant::Unit(EnumVariantUnit::new("Zero")),
            EnumVariant::TupleStruct(EnumVariantTupleStruct::new(
                "Add",
                vec![UnnamedField::new(MetaType::new(I32)), UnnamedField::new(MetaType::new(20))],
            )),
            EnumVariant::Struct(EnumVariantStruct::new(
                "Minus",
                vec![NamedField::new("source", MetaType::new(I32))],
            )),
        ])),
    );
    graph.add(
        MetaType::new(22),
        TypeId::Custom(TypeIdCustom::new("Days", Namespace::prelude(), vec![])),
        TypeDef::ClikeEnum(TypeDefClikeEnum::new(vec![
            ClikeEnumVariant::new("Monday", 0),
            ClikeEnumVariant::new("Thursday", 42),
        ])),
    );
    graph.add(
        MetaType::new(23),
        TypeId::Custom(TypeIdCustom::new("U", Namespace::prelude(), vec![])),
        TypeDef::Union(TypeDefUnion::new(vec![NamedField::new("source", MetaType::new(21))])),
    );
    let mut registry = Registry::new();
    assert_eq!(registry.register_type(&graph, &MetaType::new(23)), sym(1));
    assert_eq!(registry.register_type(&graph, &MetaType::new(22)), sym(5));
    assert_eq!(
        registry.strings(),
        vec!["U", "source", "Op", "Zero", "Add", "Minus", "Days", "Monday", "Thursday"]
    );
    let defs = registry.definitions();
    assert_eq!(defs.len(), 5);
    assert_eq!(
        defs[0].def,
        TypeDef::Union(TypeDefUnion { fields: vec![NamedField { name: sym(2), ty: sym(2) }] })
    );
    assert_eq!(
        defs[1].def,
        TypeDef::Enum(TypeDefEnum {
            variants: vec![
                EnumVariant::Unit(EnumVariantUnit { name: sym(4) }),
                EnumVariant::TupleStruct(EnumVariantTupleStruct {
                    name: sym(5),
                    fields: vec![UnnamedField { ty: sym(3) }, UnnamedField { ty: sym(4) }],
                }),
                EnumVariant::Struct(EnumVariantStruct {
                    name: sym(6),
                    fields: vec![NamedField { name: sym(2), ty: sym(3) }],
                }),
            ]
        })
    );
    assert_eq!(defs[3].id, TypeId::Array(TypeIdArray { len: 4, type_param: sym(3) }));
    assert_eq!(
        defs[4].def,
        TypeDef::ClikeEnum(TypeDefClikeEnum {
            variants: vec![
                ClikeEnumVariant { name: sym(8), discriminant: 0 },
                ClikeEnumVariant { name: sym(9), discriminant: 42 },
            ]
        })
    );
    let pairs = registry.iter();
    assert_eq!(pairs.len(), 5);
    assert_eq!(pairs[4].0, sym(5));
}

#[test]
fn graph_refuses_a_second_descriptor_of_one_identity() {
    let mut graph = TypeGraph::new();
    i32_type(&mut graph);
    assert!(!graph.add(
        MetaType::new(I32),
        TypeId::Primitive(TypeIdPrimitive::U8),
        TypeDef::builtin()
    ));
    assert_eq!(graph.len(), 1);
    let d: Option<&Descriptor> = graph.get(&MetaType::new(I32));
    assert_eq!(d.unwrap().type_id, TypeId::Primitive(TypeIdPrimitive::I32));
    assert!(graph.get(&MetaType::new(99)).is_none());
}

fn encoded_point() -> scale_info::SerializedRegistry {
    let graph = point_graph();
    let mut registry = Registry::new();
    registry.register_type(&graph, &MetaType::new(POINT));
    registry.encode()
}

#[test]
fn encode_decode_round_trip() {
    let first = encoded_point();
    assert_eq!(first.strings, vec!["pkg", "Point", "x", "y"]);
    assert_eq!(first.types.len(), 2);
    let decoded = Registry::decode(encoded_point());
    assert_eq!(decoded.strings(), first.strings);
    assert_eq!(decoded.iter()[1].0, sym(2));
    let again = decoded.encode();
    assert_eq!(again.strings, first.strings);
    assert_eq!(again.types, first.types);
}

#[test]
fn decode_from_fields() {
    let form = encoded_point();
    let reg = Registry::from_fields(vec![
        RegistryField::Types(form.types),
        RegistryField::Strings(form.strings),
    ])
    .unwrap();
    assert_eq!(reg.strings(), vec!["pkg", "Point", "x", "y"]);
    assert_eq!(reg.definitions().len(), 2);
}

#[test]
fn decode_reports_missing_fields() {
    assert_eq!(
        Registry::from_fields(vec![RegistryField::Strings(vec!["a"])]).err(),
        Some(DecodeError::MissingField(FieldName::Types))
    );
    assert_eq!(
        Registry::from_fields(vec![RegistryField::Types(vec![])]).err(),
        Some(DecodeError::MissingField(FieldName::Strings))
    );
    assert_eq!(
        Registry::from_fields(vec![]).err(),
        Some(DecodeError::MissingField(FieldName::Types))
    );
}

#[test]
fn decode_reports_duplicate_fields() {
    assert_eq!(
        Registry::from_fields(vec![
            RegistryField::Strings(vec![]),
            RegistryField::Strings(vec![]),
            RegistryField::Types(vec![]),
            RegistryField::Types(vec![]),
        ])
        .err(),
        Some(DecodeError::DuplicateField(FieldName::Strings))
    );
    assert_eq!(
        Registry::from_fields(vec![
            RegistryField::Types(vec![]),
            RegistryField::Strings(vec![]),
            RegistryField::Types(vec![]),
        ])
        .err(),
        Some(DecodeError::DuplicateField(FieldName::Types))
    );
}

#[test]
fn empty_definitions_keep_their_kind() {
    let builtin: TypeDef<Symbol, Symbol> = TypeDef::Builtin(Builtin::Builtin);
    let empty_struct: TypeDef<Symbol, Symbol> = TypeDef::Struct(TypeDefStruct { fields: vec![] });
    let empty_tuple: TypeDef<Symbol, Symbol> =
        TypeDef::TupleStruct(TypeDefTupleStruct { fields: vec![] });
    let empty_enum: TypeDef<Symbol, Symbol> = TypeDef::Enum(TypeDefEnum { variants: vec![] });
    let empty_clike: TypeDef<Symbol, Symbol> =
        TypeDef::ClikeEnum(TypeDefClikeEnum { variants: vec![] });
    let empty_union: TypeDef<Symbol, Symbol> = TypeDef::Union(TypeDefUnion { fields: vec![] });
    assert_eq!(builtin.shape_key(), None);
    assert_eq!(empty_struct.shape_key(), Some("struct.fields"));
    assert_eq!(empty_tuple.shape_key(), Some("tuple_struct.types"));
    assert_eq!(empty_enum.shape_key(), Some("enum.variants"));
    assert_eq!(empty_clike.shape_key(), Some("clike_enum.variants"));
    assert_eq!(empty_union.shape_key(), Some("union.fields"));
    let unit: EnumVariant<Symbol, Symbol> = EnumVariant::Unit(EnumVariantUnit { name: sym(1) });
    assert_eq!(unit.shape_key(), "unit_variant.name");
}

struct Celsius;

impl Metadata for Celsius {
    fn meta_type() -> MetaType {
        MetaType::new(40)
    }
}

impl HasTypeId for Celsius {
    fn type_id() -> TypeId {
        TypeId::Custom(TypeIdCustom::new("Celsius", Namespace::new(vec!["units"]).unwrap(), vec![]))
    }
}

impl HasTypeDef for Celsius {
    fn type_def() -> TypeDef {
        TypeDef::TupleStruct(TypeDefTupleStruct::new(vec![UnnamedField::new(MetaType::new(I32))]))
    }
}

#[test]
fn types_describe_themselves() {
    let mut graph = TypeGraph::new();
    i32_type(&mut graph);
    assert!(graph.add_type::<Celsius>());
    assert!(!graph.add_type::<Celsius>());
    assert_eq!(graph.len(), 2);
    assert_eq!(NamedField::of::<Celsius>("t").ty, MetaType::new(40));
    assert_eq!(UnnamedField::of::<Celsius>().ty, MetaType::new(40));
    assert_eq!(TypeIdSlice::of::<Celsius>().type_param, MetaType::new(40));
    let mut registry = Registry::new();
    assert_eq!(registry.register_type(&graph, &Celsius::meta_type()), sym(1));
    assert_eq!(registry.strings(), vec!["units", "Celsius"]);
    assert_eq!(
        registry.definitions()[0].def,
        TypeDef::TupleStruct(TypeDefTupleStruct { fields: vec![UnnamedField { ty: sym(2) }] })
    );
}

#[test]
fn constructors_keep_their_arguments() {
    assert!(TypeIdTuple::unit().type_params.is_empty());
    assert!(TypeDefTupleStruct::unit().fields.is_empty());
    assert_eq!(TypeIdArray::new(3, MetaType::new(5)).len, 3);
    assert_eq!(ClikeEnumVariant::new("A", 7u64).discriminant, 7);
    assert_eq!(TypeDef::builtin(), TypeDef::Builtin(Builtin::Builtin));
}
