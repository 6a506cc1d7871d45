//! Interning and compaction of type descriptors.
//!
//! A [`Registry`] deduplicates the strings and the type references found in a
//! graph of type descriptors, replacing each by a small integer [`Symbol`], and
//! stores one compacted definition per type identity. Its serialized form,
//! [`SerializedRegistry`], holds the strings and the definitions in order.

pub mod codec;
pub mod interner;
pub mod meta_type;
pub mod registry;
pub mod traversal;
pub mod type_def;
pub mod type_id;

pub use codec::{DecodeError, FieldName, RegistryField, SerializedRegistry};
pub use interner::{InternKey, Interner, Symbol};
pub use meta_type::{Descriptor, HasTypeDef, HasTypeId, MetaType, Metadata, TypeGraph};
pub use registry::{IntoCompact, Registry, TypeIdDef};
pub use type_def::{
    Builtin, ClikeEnumVariant, EnumVariant, EnumVariantStruct, EnumVariantTupleStruct,
    EnumVariantUnit, NamedField, TypeDef, TypeDefClikeEnum, TypeDefEnum, TypeDefStruct,
    TypeDefTupleStruct, TypeDefUnion, UnnamedField,
};
pub use type_id::{
    Namespace, NamespaceError, TypeId, TypeIdArray, TypeIdCustom, TypeIdPrimitive, TypeIdSlice,
    TypeIdTuple,
};
