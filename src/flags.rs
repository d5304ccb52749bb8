//! Attribute bits of fields and methods, as the runtime's metadata stores them.

use vstd::prelude::*;

verus! {

/// Mask of the bits that give a field's accessibility.
pub const FIELD_ATTRIBUTE_FIELD_ACCESS_MASK: u32 = 0x0007;

/// The field belongs to the type, not to an instance.
pub const FIELD_ATTRIBUTE_STATIC: u32 = 0x0010;

/// The field may be written only during initialization.
pub const FIELD_ATTRIBUTE_INIT_ONLY: u32 = 0x0020;

/// The field's value is a compile-time constant.
pub const FIELD_ATTRIBUTE_LITERAL: u32 = 0x0040;

/// Mask of the bits that give a method's accessibility.
pub const METHOD_ATTRIBUTE_MEMBER_ACCESS_MASK: u32 = 0x0007;

/// The method belongs to the type, not to an instance.
pub const METHOD_ATTRIBUTE_STATIC: u32 = 0x0010;

/// The method cannot be overridden.
pub const METHOD_ATTRIBUTE_FINAL: u32 = 0x0020;

/// The method is dispatched through the virtual table.
pub const METHOD_ATTRIBUTE_VIRTUAL: u32 = 0x0040;

/// The method has no body.
pub const METHOD_ATTRIBUTE_ABSTRACT: u32 = 0x0400;

/// Whether every bit of `flag` is set in `bits`; each flag here is one bit.
pub open spec fn has_flag(bits: u32, flag: u32) -> bool {
    bits & flag != 0
}

/// The accessibility level held in the low three bits.
pub open spec fn access_level(bits: u32) -> u32 {
    bits & 0x0007
}

/// The attribute bits of a field.
///
/// Accessibility levels: `0` compiler generated, `1` private,
/// `2` private protected, `3` internal, `4` protected,
/// `5` protected internal, `6` public.
pub struct FieldFlags {
    pub bits: u32,
}

impl FieldFlags {
    /// Wraps raw field attribute bits.
    pub fn new(bits: u32) -> (r: Self)
        ensures
            r.bits == bits,
    {
        FieldFlags { bits }
    }

    /// The field's accessibility level, from `0` to `7`.
    pub fn accessibility(&self) -> (r: u32)
        ensures
            r == access_level(self.bits),
            r <= 7,
    {
        let bits = self.bits;
        assert(bits & 0x0007u32 <= 7u32) by (bit_vector);
        bits & FIELD_ATTRIBUTE_FIELD_ACCESS_MASK
    }

    /// Whether the field is static.
    pub fn is_static(&self) -> (r: bool)
        ensures
            r == has_flag(self.bits, FIELD_ATTRIBUTE_STATIC),
    {
        self.bits & FIELD_ATTRIBUTE_STATIC != 0
    }

    /// Whether the field is read-only.
    pub fn is_readonly(&self) -> (r: bool)
        ensures
            r == has_flag(self.bits, FIELD_ATTRIBUTE_INIT_ONLY),
    {
        self.bits & FIELD_ATTRIBUTE_INIT_ONLY != 0
    }

    /// Whether the field is a compile-time constant.
    pub fn is_const(&self) -> (r: bool)
        ensures
            r == has_flag(self.bits, FIELD_ATTRIBUTE_LITERAL),
    {
        self.bits & FIELD_ATTRIBUTE_LITERAL != 0
    }
}

/// The attribute bits of a method, with the same accessibility levels as
/// [`FieldFlags`].
pub struct MethodFlags {
    pub bits: u32,
}

impl MethodFlags {
    /// Wraps raw method attribute bits.
    pub fn new(bits: u32) -> (r: Self)
        ensures
            r.bits == bits,
    {
        MethodFlags { bits }
    }

    /// The method's accessibility level, from `0` to `7`.
    pub fn accessibility(&self) -> (r: u32)
        ensures
            r == access_level(self.bits),
            r <= 7,
    {
        let bits = self.bits;
        assert(bits & 0x0007u32 <= 7u32) by (bit_vector);
        bits & METHOD_ATTRIBUTE_MEMBER_ACCESS_MASK
    }

    /// Whether the method is static.
    pub fn is_static(&self) -> (r: bool)
        ensures
            r == has_flag(self.bits, METHOD_ATTRIBUTE_STATIC),
    {
        self.bits & METHOD_ATTRIBUTE_STATIC != 0
    }

    /// Whether the method is final.
    pub fn is_final(&self) -> (r: bool)
        ensures
            r == has_flag(self.bits, METHOD_ATTRIBUTE_FINAL),
    {
        self.bits & METHOD_ATTRIBUTE_FINAL != 0
    }

    /// Whether the method is virtual.
    pub fn is_virtual(&self) -> (r: bool)
        ensures
            r == has_flag(self.bits, METHOD_ATTRIBUTE_VIRTUAL),
    {
        self.bits & METHOD_ATTRIBUTE_VIRTUAL != 0
    }

    /// Whether the method is abstract.
    pub fn is_abstract(&self) -> (r: bool)
        ensures
            r == has_flag(self.bits, METHOD_ATTRIBUTE_ABSTRACT),
    {
        self.bits & METHOD_ATTRIBUTE_ABSTRACT != 0
    }
}

} // verus!
