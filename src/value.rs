//! The tagged value: one tag byte and one payload, either an inline scalar or
//! a reference to a container.

use vstd::prelude::*;

use crate::data::{DynBase, GcInfo, Location, TypeIdent, ValueType};

verus! {

/// Tag bit: the payload is an inline scalar (set) or a container reference.
pub const VALUE_MASK: u8 = 0x80;

/// Tag bit: the value is logically null.
pub const NULL_MASK: u8 = 0x40;

/// Tag bits: the scalar subtype discriminant.
pub const VALUE_TYPE_MASK: u8 = 0x07;

/// The payload. A float is kept as its IEEE-754 bit pattern.
pub enum ValueData<'a, D> {
    Ptr(Option<&'a D>),
    Int(i64),
    Float(u64),
    Char(char),
    Byte(u8),
    Bool(bool),
}

/// A value as the interpreter passes it around. It never owns the container
/// it refers to.
pub struct Value<'a, D> {
    data: ValueData<'a, D>,
    tag: u8,
}

/// The tag of a non-null scalar of discriminant `c`.
proof fn lemma_scalar_tag(c: u8)
    requires
        1 <= c <= 6,
    ensures
        (0x80u8 | c) & 0x80u8 != 0,
        (0x80u8 | c) & 0x40u8 == 0,
        (0x80u8 | c) & 0x07u8 == c,
{
    assert((0x80u8 | c) & 0x80u8 != 0 && (0x80u8 | c) & 0x40u8 == 0 && (0x80u8 | c) & 0x07u8 == c)
        by (bit_vector)
        requires
            1 <= c <= 6,
    ;
}

/// The tag of a null scalar of discriminant `c`.
proof fn lemma_null_scalar_tag(c: u8)
    requires
        1 <= c <= 6,
    ensures
        (0x80u8 | 0x40u8 | c) & 0x80u8 != 0,
        (0x80u8 | 0x40u8 | c) & 0x40u8 != 0,
        (0x80u8 | 0x40u8 | c) & 0x07u8 == c,
{
    assert((0x80u8 | 0x40u8 | c) & 0x80u8 != 0 && (0x80u8 | 0x40u8 | c) & 0x40u8 != 0 && (0x80u8
        | 0x40u8 | c) & 0x07u8 == c) by (bit_vector)
        requires
            1 <= c <= 6,
    ;
}

/// The tags of pointer values.
proof fn lemma_ptr_tags()
    ensures
        0u8 & 0x80u8 == 0,
        0u8 & 0x40u8 == 0,
        0u8 & 0x07u8 == 0,
        0x40u8 & 0x80u8 == 0,
        0x40u8 & 0x40u8 != 0,
        0x40u8 & 0x07u8 == 0,
{
    assert(0u8 & 0x80u8 == 0 && 0u8 & 0x40u8 == 0 && 0u8 & 0x07u8 == 0) by (bit_vector);
    assert(0x40u8 & 0x80u8 == 0 && 0x40u8 & 0x40u8 != 0 && 0x40u8 & 0x07u8 == 0) by (bit_vector);
}

impl<'a, D> Value<'a, D> {
    pub closed spec fn spec_tag(&self) -> u8 {
        self.tag
    }

    pub open spec fn spec_is_value(&self) -> bool {
        self.spec_tag() & VALUE_MASK != 0
    }

    pub open spec fn spec_is_ptr(&self) -> bool {
        self.spec_tag() & VALUE_MASK == 0
    }

    pub open spec fn spec_is_null(&self) -> bool {
        self.spec_tag() & NULL_MASK != 0
    }

    pub open spec fn spec_type_code(&self) -> u8 {
        self.spec_tag() & VALUE_TYPE_MASK
    }

    /// The value holds an inline scalar of subtype `t` that is not null.
    pub open spec fn spec_holds(&self, t: ValueType) -> bool {
        self.spec_is_value() && !self.spec_is_null() && self.spec_type_code() == t.spec_code()
    }

    /// The scalar payloads; meaningful for the matching subtype only.
    pub closed spec fn spec_int(&self) -> i64 {
        self.data->Int_0
    }

    pub closed spec fn spec_float_bits(&self) -> u64 {
        self.data->Float_0
    }

    pub closed spec fn spec_char(&self) -> char {
        self.data->Char_0
    }

    pub closed spec fn spec_byte(&self) -> u8 {
        self.data->Byte_0
    }

    pub closed spec fn spec_bool(&self) -> bool {
        self.data->Bool_0
    }

    /// The container referred to, for a non-null pointer value.
    pub closed spec fn spec_object(&self) -> &'a D {
        self.data->Ptr_0->Some_0
    }

    #[verifier::type_invariant]
    closed spec fn inv(&self) -> bool {
        let t = self.tag;
        &&& t & VALUE_MASK == 0 ==> {
            &&& t & VALUE_TYPE_MASK == 0
            &&& self.data is Ptr
            &&& (t & NULL_MASK != 0) == (self.data->Ptr_0 is None)
        }
        &&& t & VALUE_MASK != 0 ==> {
            &&& 1 <= t & VALUE_TYPE_MASK <= 6
            &&& t & NULL_MASK == 0 ==> match self.data {
                ValueData::Int(_) => t & VALUE_TYPE_MASK == 1,
                ValueData::Float(_) => t & VALUE_TYPE_MASK == 2,
                ValueData::Char(_) => t & VALUE_TYPE_MASK == 3,
                ValueData::Byte(_) => t & VALUE_TYPE_MASK == 4,
                ValueData::Bool(_) => t & VALUE_TYPE_MASK == 5,
                ValueData::Ptr(_) => false,
            }
        }
    }

    /// The null pointer: no object at all.
    pub fn null_ptr() -> (r: Self)
        ensures
            r.spec_is_null(),
            r.spec_is_ptr(),
            !r.spec_is_value(),
    {
        proof {
            lemma_ptr_tags();
        }
        Value { data: ValueData::Ptr(None), tag: NULL_MASK }
    }

    /// A scalar of subtype `value_type` that is absent.
    pub fn null_value(value_type: ValueType) -> (r: Self)
        ensures
            r.spec_is_null(),
            r.spec_is_value(),
            !r.spec_is_ptr(),
            r.spec_type_code() == value_type.spec_code(),
    {
        let c = value_type.to_u8();
        proof {
            lemma_null_scalar_tag(c);
        }
        Value { data: ValueData::Int(0), tag: VALUE_MASK | NULL_MASK | c }
    }

    /// A reference to a container.
    pub fn from_ptr(obj: &'a D) -> (r: Self)
        ensures
            r.spec_is_ptr(),
            !r.spec_is_value(),
            !r.spec_is_null(),
            r.spec_object() == obj,
    {
        proof {
            lemma_ptr_tags();
        }
        Value { data: ValueData::Ptr(Some(obj)), tag: 0 }
    }

    pub fn from_int(v: i64) -> (r: Self)
        ensures
            r.spec_holds(ValueType::Int),
            !r.spec_is_ptr(),
            r.spec_int() == v,
    {
        proof {
            lemma_scalar_tag(1);
        }
        Value { data: ValueData::Int(v), tag: VALUE_MASK | 1 }
    }

    /// A float, given by its bit pattern.
    pub fn from_float_bits(bits: u64) -> (r: Self)
        ensures
            r.spec_holds(ValueType::Float),
            !r.spec_is_ptr(),
            r.spec_float_bits() == bits,
    {
        proof {
            lemma_scalar_tag(2);
        }
        Value { data: ValueData::Float(bits), tag: VALUE_MASK | 2 }
    }

    pub fn from_char(ch: char) -> (r: Self)
        ensures
            r.spec_holds(ValueType::Char),
            !r.spec_is_ptr(),
            r.spec_char() == ch,
    {
        proof {
            lemma_scalar_tag(3);
        }
        Value { data: ValueData::Char(ch), tag: VALUE_MASK | 3 }
    }

    pub fn from_byte(byte: u8) -> (r: Self)
        ensures
            r.spec_holds(ValueType::Byte),
            !r.spec_is_ptr(),
            r.spec_byte() == byte,
    {
        proof {
            lemma_scalar_tag(4);
        }
        Value { data: ValueData::Byte(byte), tag: VALUE_MASK | 4 }
    }

    pub fn from_bool(boolean: bool) -> (r: Self)
        ensures
            r.spec_holds(ValueType::Bool),
            !r.spec_is_ptr(),
            r.spec_bool() == boolean,
    {
        proof {
            lemma_scalar_tag(5);
        }
        Value { data: ValueData::Bool(boolean), tag: VALUE_MASK | 5 }
    }

    pub fn is_null(&self) -> (r: bool)
        ensures
            r == self.spec_is_null(),
    {
        (self.tag & NULL_MASK) != 0
    }

    pub fn is_value(&self) -> (r: bool)
        ensures
            r == self.spec_is_value(),
    {
        (self.tag & VALUE_MASK) != 0
    }

    pub fn is_ptr(&self) -> (r: bool)
        ensures
            r == self.spec_is_ptr(),
    {
        (self.tag & VALUE_MASK) == 0
    }

    /// The scalar subtype of an inline value, null or not.
    pub fn value_type(&self) -> (r: ValueType)
        requires
            self.spec_is_value(),
        ensures
            r.spec_code() == self.spec_type_code(),
    {
        proof {
            use_type_invariant(self);
        }
        ValueType::from_u8(self.tag & VALUE_TYPE_MASK)
    }

    pub fn as_int(&self) -> (r: i64)
        requires
            self.spec_holds(ValueType::Int),
        ensures
            r == self.spec_int(),
    {
        proof {
            use_type_invariant(self);
        }
        match self.data {
            ValueData::Int(v) => v,
            _ => unreached(),
        }
    }

    /// The bit pattern of a float.
    pub fn as_float_bits(&self) -> (r: u64)
        requires
            self.spec_holds(ValueType::Float),
        ensures
            r == self.spec_float_bits(),
    {
        proof {
            use_type_invariant(self);
        }
        match self.data {
            ValueData::Float(v) => v,
            _ => unreached(),
        }
    }

    pub fn as_char(&self) -> (r: char)
        requires
            self.spec_holds(ValueType::Char),
        ensures
            r == self.spec_char(),
    {
        proof {
            use_type_invariant(self);
        }
        match self.data {
            ValueData::Char(v) => v,
            _ => unreached(),
        }
    }

    pub fn as_byte(&self) -> (r: u8)
        requires
            self.spec_holds(ValueType::Byte),
        ensures
            r == self.spec_byte(),
    {
        proof {
            use_type_invariant(self);
        }
        match self.data {
            ValueData::Byte(v) => v,
            _ => unreached(),
        }
    }

    pub fn as_bool(&self) -> (r: bool)
        requires
            self.spec_holds(ValueType::Bool),
        ensures
            r == self.spec_bool(),
    {
        proof {
            use_type_invariant(self);
        }
        match self.data {
            ValueData::Bool(v) => v,
            _ => unreached(),
        }
    }

    /// The container that a non-null pointer value refers to.
    pub fn object(&self) -> (r: &'a D)
        requires
            self.spec_is_ptr(),
            !self.spec_is_null(),
        ensures
            r == self.spec_object(),
    {
        proof {
            use_type_invariant(self);
        }
        match self.data {
            ValueData::Ptr(Some(obj)) => obj,
            _ => unreached(),
        }
    }
}

/// The identity that a scalar of discriminant `code` reports.
pub open spec fn scalar_ident(code: u8) -> TypeIdent {
    if code == 1 {
        TypeIdent::Int
    } else if code == 2 {
        TypeIdent::Float
    } else if code == 3 {
        TypeIdent::Char
    } else if code == 4 {
        TypeIdent::Byte
    } else if code == 5 {
        TypeIdent::Bool
    } else {
        TypeIdent::DynAny
    }
}

/// The identity that a scalar reports is that of its subtype.
pub proof fn lemma_scalar_ident_of_code(t: ValueType)
    ensures
        scalar_ident(t.spec_code()) == t.spec_ident(),
{
}

/// A value built from a scalar of subtype `t` is an inline value, neither a
/// pointer nor null, and its identity is that of `t`.
pub proof fn lemma_scalar_round_trip<'a, D>(x: Value<'a, D>, t: ValueType)
    requires
        x.spec_holds(t),
    ensures
        x.spec_is_value(),
        !x.spec_is_ptr(),
        !x.spec_is_null(),
        scalar_ident(x.spec_type_code()) == t.spec_ident(),
{
}

/// A null scalar keeps the identity of its subtype.
pub proof fn lemma_null_scalar_identity<'a, D>(x: Value<'a, D>, t: ValueType)
    requires
        x.spec_is_value(),
        x.spec_is_null(),
        x.spec_type_code() == t.spec_code(),
    ensures
        !x.spec_is_ptr(),
        scalar_ident(x.spec_type_code()) == t.spec_ident(),
{
}

impl<'a, D: DynBase> Value<'a, D> {
    /// The identity of the value: fixed per subtype for a scalar (null or
    /// not), the container's declared identity for a pointer.
    pub fn type_id(&self) -> (r: TypeIdent)
        requires
            !(self.spec_is_ptr() && self.spec_is_null()),
        ensures
            self.spec_is_value() ==> r == scalar_ident(self.spec_type_code()),
            self.spec_is_ptr() ==> r == self.spec_object().dyn_spec_ident(),
    {
        if self.is_value() {
            self.value_type().ident()
        } else {
            self.object().dyn_type_id()
        }
    }

    /// `OnStack` for an inline scalar, `Null` for the null pointer, and the
    /// container's own state otherwise.
    pub fn gc_info(&self) -> (r: GcInfo)
        ensures
            self.spec_is_value() ==> r == GcInfo::OnStack,
            self.spec_is_ptr() && self.spec_is_null() ==> r == GcInfo::Null,
            self.spec_is_ptr() && !self.spec_is_null() ==> r
                == self.spec_object().dyn_spec_gc_info(),
    {
        if self.is_value() {
            GcInfo::OnStack
        } else if self.is_null() {
            GcInfo::Null
        } else {
            self.object().gc_info()
        }
    }

    /// The data that the referred container holds or refers to. No type
    /// check is made here: the caller has checked the identity beforehand.
    pub fn as_ref(&self) -> (r: &'a D::Target)
        requires
            self.spec_is_ptr(),
            !self.spec_is_null(),
            self.spec_object().dyn_spec_addressable(),
        ensures
            *r == self.spec_object().dyn_spec_target(),
    {
        let obj: &'a D = self.object();
        match obj.get_ptr() {
            Location::Inline(p) => p,
            Location::Host(p) => p,
        }
    }
}

} // verus!
