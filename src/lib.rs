//! Accessor synthesis for record-like aggregates: a constructor, and a setter
//! and a getter per field, whose signature types are derived from each field's
//! stored type by a verified mapping.
pub mod mapper;
pub mod synth;
pub mod types;

pub use types::{TypeExpr, TypeShape, Visibility};
pub use mapper::{
    map_fn_arg_type, map_fn_common_arg_return_type, map_fn_return_type, MappingStrategy,
};
pub use synth::{
    generate_impl_block, AccessorPair, AggregateDecl, Constructor, FieldDecl,
    GeneratedAccessorSet, Getter, InterfaceMarker, Param, Setter, SynthesisError,
};
