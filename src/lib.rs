//! Typed handles onto objects owned by the IL2CPP runtime, and the decisions
//! that sit between the runtime's raw tables and a safe caller.
//!
//! A handle is an address into memory the runtime owns. `Ref` may be null,
//! `NonNullRef` never is; both carry a zero-sized marker that records, at the
//! type level only, what the address points to. Reading through an address is
//! left to the embedding program: everything here works on plain values.

mod array;
mod assembly;
mod class;
mod exception;
mod flags;
mod image;
mod method;
mod property;
mod reference;

pub use array::{
    bound_addresses, bounded_class_rank, is_sz, md_request_valid, sz_class_valid, sz_index_valid, try_as_sz,
    Il2CppArray, Il2CppMdArray, Il2CppSzArray, Rank, TYPE_ARRAY, TYPE_SZARRAY,
};
pub use assembly::{bytes_equal, find_by_name};
pub use class::{full_name, qualified_name};
pub use exception::{c_string_end, until_nul};
pub use flags::{
    access_level, has_flag, FieldFlags, MethodFlags, FIELD_ATTRIBUTE_FIELD_ACCESS_MASK,
    FIELD_ATTRIBUTE_INIT_ONLY, FIELD_ATTRIBUTE_LITERAL, FIELD_ATTRIBUTE_STATIC,
    METHOD_ATTRIBUTE_ABSTRACT, METHOD_ATTRIBUTE_FINAL, METHOD_ATTRIBUTE_MEMBER_ACCESS_MASK,
    METHOD_ATTRIBUTE_STATIC, METHOD_ATTRIBUTE_VIRTUAL,
};
pub use image::AssemblyClassIter;
pub use method::{
    invoke_outcome, parameter_index_valid, parameter_list, parameter_text, signature, signature_text,
};
pub use property::{property_type, property_type_addr, property_type_known};
pub use reference::{lemma_spec_new_view, NonNullRef, Ref};
