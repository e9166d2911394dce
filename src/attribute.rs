use vstd::prelude::*;

verus! {

/// Wire-level encoding of one vertex attribute: scalar kind, bit width and arity.
#[allow(missing_docs)]
#[derive(Clone, Copy, Debug, PartialEq, Eq, Structural)]
pub enum AttributeType {
    I8,
    I8I8,
    I8I8I8,
    I8I8I8I8,
    U8,
    U8U8,
    U8U8U8,
    U8U8U8U8,
    I16,
    I16I16,
    I16I16I16,
    I16I16I16I16,
    U16,
    U16U16,
    U16U16U16,
    U16U16U16U16,
    I32,
    I32I32,
    I32I32I32,
    I32I32I32I32,
    U32,
    U32U32,
    U32U32U32,
    U32U32U32U32,
    F32,
    F32F32,
    F32F32F32,
    F32F32F32F32,
}

/// Number of scalar components of an encoding (1 to 4).
pub open spec fn component_count(t: AttributeType) -> nat {
    match t {
        AttributeType::I8 => 1,
        AttributeType::I8I8 => 2,
        AttributeType::I8I8I8 => 3,
        AttributeType::I8I8I8I8 => 4,
        AttributeType::U8 => 1,
        AttributeType::U8U8 => 2,
        AttributeType::U8U8U8 => 3,
        AttributeType::U8U8U8U8 => 4,
        AttributeType::I16 => 1,
        AttributeType::I16I16 => 2,
        AttributeType::I16I16I16 => 3,
        AttributeType::I16I16I16I16 => 4,
        AttributeType::U16 => 1,
        AttributeType::U16U16 => 2,
        AttributeType::U16U16U16 => 3,
        AttributeType::U16U16U16U16 => 4,
        AttributeType::I32 => 1,
        AttributeType::I32I32 => 2,
        AttributeType::I32I32I32 => 3,
        AttributeType::I32I32I32I32 => 4,
        AttributeType::U32 => 1,
        AttributeType::U32U32 => 2,
        AttributeType::U32U32U32 => 3,
        AttributeType::U32U32U32U32 => 4,
        AttributeType::F32 => 1,
        AttributeType::F32F32 => 2,
        AttributeType::F32F32F32 => 3,
        AttributeType::F32F32F32F32 => 4,
    }
}

/// Byte width of one scalar component of an encoding.
pub open spec fn component_size(t: AttributeType) -> nat {
    match t {
        AttributeType::I8 => 1,
        AttributeType::I8I8 => 1,
        AttributeType::I8I8I8 => 1,
        AttributeType::I8I8I8I8 => 1,
        AttributeType::U8 => 1,
        AttributeType::U8U8 => 1,
        AttributeType::U8U8U8 => 1,
        AttributeType::U8U8U8U8 => 1,
        AttributeType::I16 => 2,
        AttributeType::I16I16 => 2,
        AttributeType::I16I16I16 => 2,
        AttributeType::I16I16I16I16 => 2,
        AttributeType::U16 => 2,
        AttributeType::U16U16 => 2,
        AttributeType::U16U16U16 => 2,
        AttributeType::U16U16U16U16 => 2,
        AttributeType::I32 => 4,
        AttributeType::I32I32 => 4,
        AttributeType::I32I32I32 => 4,
        AttributeType::I32I32I32I32 => 4,
        AttributeType::U32 => 4,
        AttributeType::U32U32 => 4,
        AttributeType::U32U32U32 => 4,
        AttributeType::U32U32U32U32 => 4,
        AttributeType::F32 => 4,
        AttributeType::F32F32 => 4,
        AttributeType::F32F32F32 => 4,
        AttributeType::F32F32F32F32 => 4,
    }
}

/// Number of bytes that one attribute of this encoding occupies in a vertex.
pub open spec fn attribute_size(t: AttributeType) -> nat {
    component_count(t) * component_size(t)
}

impl AttributeType {
    /// Returns the number of bytes that an attribute of this encoding occupies.
    pub fn size(&self) -> (r: usize)
        ensures
            r == attribute_size(*self),
    {
        match self {
            AttributeType::I8 => 1,
            AttributeType::I8I8 => 2,
            AttributeType::I8I8I8 => 3,
            AttributeType::I8I8I8I8 => 4,
            AttributeType::U8 => 1,
            AttributeType::U8U8 => 2,
            AttributeType::U8U8U8 => 3,
            AttributeType::U8U8U8U8 => 4,
            AttributeType::I16 => 2,
            AttributeType::I16I16 => 4,
            AttributeType::I16I16I16 => 6,
            AttributeType::I16I16I16I16 => 8,
            AttributeType::U16 => 2,
            AttributeType::U16U16 => 4,
            AttributeType::U16U16U16 => 6,
            AttributeType::U16U16U16U16 => 8,
            AttributeType::I32 => 4,
            AttributeType::I32I32 => 8,
            AttributeType::I32I32I32 => 12,
            AttributeType::I32I32I32I32 => 16,
            AttributeType::U32 => 4,
            AttributeType::U32U32 => 8,
            AttributeType::U32U32U32 => 12,
            AttributeType::U32U32U32U32 => 16,
            AttributeType::F32 => 4,
            AttributeType::F32F32 => 8,
            AttributeType::F32F32F32 => 12,
            AttributeType::F32F32F32F32 => 16,
        }
    }
}

/// Types that can be used as vertex attributes.
///
/// Each supported type resolves to exactly one encoding, fixed by the type alone.
pub trait Attribute: Sized {
    /// The encoding of this type.
    spec fn attribute_type() -> AttributeType;

    /// Returns the encoding of this type.
    fn get_type(_hint: Option<Self>) -> (r: AttributeType)
        ensures
            r == Self::attribute_type(),
    ;
}

impl Attribute for i8 {
    open spec fn attribute_type() -> AttributeType {
        AttributeType::I8
    }

    fn get_type(_hint: Option<i8>) -> (r: AttributeType) {
        AttributeType::I8
    }
}

impl Attribute for (i8, i8) {
    open spec fn attribute_type() -> AttributeType {
        AttributeType::I8I8
    }

    fn get_type(_hint: Option<(i8, i8)>) -> (r: AttributeType) {
        AttributeType::I8I8
    }
}

impl Attribute for [i8; 2] {
    open spec fn attribute_type() -> AttributeType {
        AttributeType::I8I8
    }

    fn get_type(_hint: Option<[i8; 2]>) -> (r: AttributeType) {
        AttributeType::I8I8
    }
}

impl Attribute for (i8, i8, i8) {
    open spec fn attribute_type() -> AttributeType {
        AttributeType::I8I8I8
    }

    fn get_type(_hint: Option<(i8, i8, i8)>) -> (r: AttributeType) {
        AttributeType::I8I8I8
    }
}

impl Attribute for [i8; 3] {
    open spec fn attribute_type() -> AttributeType {
        AttributeType::I8I8I8
    }

    fn get_type(_hint: Option<[i8; 3]>) -> (r: AttributeType) {
        AttributeType::I8I8I8
    }
}

impl Attribute for (i8, i8, i8, i8) {
    open spec fn attribute_type() -> AttributeType {
        AttributeType::I8I8I8I8
    }

    fn get_type(_hint: Option<(i8, i8, i8, i8)>) -> (r: AttributeType) {
        AttributeType::I8I8I8I8
    }
}

impl Attribute for [i8; 4] {
    open spec fn attribute_type() -> AttributeType {
        AttributeType::I8I8I8I8
    }

    fn get_type(_hint: Option<[i8; 4]>) -> (r: AttributeType) {
        AttributeType::I8I8I8I8
    }
}

impl Attribute for u8 {
    open spec fn attribute_type() -> AttributeType {
        AttributeType::U8
    }

    fn get_type(_hint: Option<u8>) -> (r: AttributeType) {
        AttributeType::U8
    }
}

impl Attribute for (u8, u8) {
    open spec fn attribute_type() -> AttributeType {
        AttributeType::U8U8
    }

    fn get_type(_hint: Option<(u8, u8)>) -> (r: AttributeType) {
        AttributeType::U8U8
    }
}

impl Attribute for [u8; 2] {
    open spec fn attribute_type() -> AttributeType {
        AttributeType::U8U8
    }

    fn get_type(_hint: Option<[u8; 2]>) -> (r: AttributeType) {
        AttributeType::U8U8
    }
}

impl Attribute for (u8, u8, u8) {
    open spec fn attribute_type() -> AttributeType {
        AttributeType::U8U8U8
    }

    fn get_type(_hint: Option<(u8, u8, u8)>) -> (r: AttributeType) {
        AttributeType::U8U8U8
    }
}

impl Attribute for [u8; 3] {
    open spec fn attribute_type() -> AttributeType {
        AttributeType::U8U8U8
    }

    fn get_type(_hint: Option<[u8; 3]>) -> (r: AttributeType) {
        AttributeType::U8U8U8
    }
}

impl Attribute for (u8, u8, u8, u8) {
    open spec fn attribute_type() -> AttributeType {
        AttributeType::U8U8U8U8
    }

    fn get_type(_hint: Option<(u8, u8, u8, u8)>) -> (r: AttributeType) {
        AttributeType::U8U8U8U8
    }
}

impl Attribute for [u8; 4] {
    open spec fn attribute_type() -> AttributeType {
        AttributeType::U8U8U8U8
    }

    fn get_type(_hint: Option<[u8; 4]>) -> (r: AttributeType) {
        AttributeType::U8U8U8U8
    }
}

impl Attribute for i16 {
    open spec fn attribute_type() -> AttributeType {
        AttributeType::I16
    }

    fn get_type(_hint: Option<i16>) -> (r: AttributeType) {
        AttributeType::I16
    }
}

impl Attribute for (i16, i16) {
    open spec fn attribute_type() -> AttributeType {
        AttributeType::I16I16
    }

    fn get_type(_hint: Option<(i16, i16)>) -> (r: AttributeType) {
        AttributeType::I16I16
    }
}

impl Attribute for [i16; 2] {
    open spec fn attribute_type() -> AttributeType {
        AttributeType::I16I16
    }

    fn get_type(_hint: Option<[i16; 2]>) -> (r: AttributeType) {
        AttributeType::I16I16
    }
}

impl Attribute for (i16, i16, i16) {
    open spec fn attribute_type() -> AttributeType {
        AttributeType::I16I16I16
    }

    fn get_type(_hint: Option<(i16, i16, i16)>) -> (r: AttributeType) {
        AttributeType::I16I16I16
    }
}

impl Attribute for [i16; 3] {
    open spec fn attribute_type() -> AttributeType {
        AttributeType::I16I16I16
    }

    fn get_type(_hint: Option<[i16; 3]>) -> (r: AttributeType) {
        AttributeType::I16I16I16
    }
}

impl Attribute for (i16, i16, i16, i16) {
    open spec fn attribute_type() -> AttributeType {
        AttributeType::I16I16I16I16
    }

    fn get_type(_hint: Option<(i16, i16, i16, i16)>) -> (r: AttributeType) {
        AttributeType::I16I16I16I16
    }
}

impl Attribute for [i16; 4] {
    open spec fn attribute_type() -> AttributeType {
        AttributeType::I16I16I16I16
    }

    fn get_type(_hint: Option<[i16; 4]>) -> (r: AttributeType) {
        AttributeType::I16I16I16I16
    }
}

impl Attribute for u16 {
    open spec fn attribute_type() -> AttributeType {
        AttributeType::U16
    }

    fn get_type(_hint: Option<u16>) -> (r: AttributeType) {
        AttributeType::U16
    }
}

impl Attribute for (u16, u16) {
    open spec fn attribute_type() -> AttributeType {
        AttributeType::U16U16
    }

    fn get_type(_hint: Option<(u16, u16)>) -> (r: AttributeType) {
        AttributeType::U16U16
    }
}

impl Attribute for [u16; 2] {
    open spec fn attribute_type() -> AttributeType {
        AttributeType::U16U16
    }

    fn get_type(_hint: Option<[u16; 2]>) -> (r: AttributeType) {
        AttributeType::U16U16
    }
}

impl Attribute for (u16, u16, u16) {
    open spec fn attribute_type() -> AttributeType {
        AttributeType::U16U16U16
    }

    fn get_type(_hint: Option<(u16, u16, u16)>) -> (r: AttributeType) {
        AttributeType::U16U16U16
    }
}

impl Attribute for [u16; 3] {
    open spec fn attribute_type() -> AttributeType {
        AttributeType::U16U16U16
    }

    fn get_type(_hint: Option<[u16; 3]>) -> (r: AttributeType) {
        AttributeType::U16U16U16
    }
}

impl Attribute for (u16, u16, u16, u16) {
    open spec fn attribute_type() -> AttributeType {
        AttributeType::U16U16U16U16
    }

    fn get_type(_hint: Option<(u16, u16, u16, u16)>) -> (r: AttributeType) {
        AttributeType::U16U16U16U16
    }
}

impl Attribute for [u16; 4] {
    open spec fn attribute_type() -> AttributeType {
        AttributeType::U16U16U16U16
    }

    fn get_type(_hint: Option<[u16; 4]>) -> (r: AttributeType) {
        AttributeType::U16U16U16U16
    }
}

impl Attribute for i32 {
    open spec fn attribute_type() -> AttributeType {
        AttributeType::I32
    }

    fn get_type(_hint: Option<i32>) -> (r: AttributeType) {
        AttributeType::I32
    }
}

impl Attribute for (i32, i32) {
    open spec fn attribute_type() -> AttributeType {
        AttributeType::I32I32
    }

    fn get_type(_hint: Option<(i32, i32)>) -> (r: AttributeType) {
        AttributeType::I32I32
    }
}

impl Attribute for [i32; 2] {
    open spec fn attribute_type() -> AttributeType {
        AttributeType::I32I32
    }

    fn get_type(_hint: Option<[i32; 2]>) -> (r: AttributeType) {
        AttributeType::I32I32
    }
}

impl Attribute for (i32, i32, i32) {
    open spec fn attribute_type() -> AttributeType {
        AttributeType::I32I32I32
    }

    fn get_type(_hint: Option<(i32, i32, i32)>) -> (r: AttributeType) {
        AttributeType::I32I32I32
    }
}

impl Attribute for [i32; 3] {
    open spec fn attribute_type() -> AttributeType {
        AttributeType::I32I32I32
    }

    fn get_type(_hint: Option<[i32; 3]>) -> (r: AttributeType) {
        AttributeType::I32I32I32
    }
}

impl Attribute for (i32, i32, i32, i32) {
    open spec fn attribute_type() -> AttributeType {
        AttributeType::I32I32I32I32
    }

    fn get_type(_hint: Option<(i32, i32, i32, i32)>) -> (r: AttributeType) {
        AttributeType::I32I32I32I32
    }
}

impl Attribute for [i32; 4] {
    open spec fn attribute_type() -> AttributeType {
        AttributeType::I32I32I32I32
    }

    fn get_type(_hint: Option<[i32; 4]>) -> (r: AttributeType) {
        AttributeType::I32I32I32I32
    }
}

impl Attribute for u32 {
    open spec fn attribute_type() -> AttributeType {
        AttributeType::U32
    }

    fn get_type(_hint: Option<u32>) -> (r: AttributeType) {
        AttributeType::U32
    }
}

impl Attribute for (u32, u32) {
    open spec fn attribute_type() -> AttributeType {
        AttributeType::U32U32
    }

    fn get_type(_hint: Option<(u32, u32)>) -> (r: AttributeType) {
        AttributeType::U32U32
    }
}

impl Attribute for [u32; 2] {
    open spec fn attribute_type() -> AttributeType {
        AttributeType::U32U32
    }

    fn get_type(_hint: Option<[u32; 2]>) -> (r: AttributeType) {
        AttributeType::U32U32
    }
}

impl Attribute for (u32, u32, u32) {
    open spec fn attribute_type() -> AttributeType {
        AttributeType::U32U32U32
    }

    fn get_type(_hint: Option<(u32, u32, u32)>) -> (r: AttributeType) {
        AttributeType::U32U32U32
    }
}

impl Attribute for [u32; 3] {
    open spec fn attribute_type() -> AttributeType {
        AttributeType::U32U32U32
    }

    fn get_type(_hint: Option<[u32; 3]>) -> (r: AttributeType) {
        AttributeType::U32U32U32
    }
}

impl Attribute for (u32, u32, u32, u32) {
    open spec fn attribute_type() -> AttributeType {
        AttributeType::U32U32U32U32
    }

    fn get_type(_hint: Option<(u32, u32, u32, u32)>) -> (r: AttributeType) {
        AttributeType::U32U32U32U32
    }
}

impl Attribute for [u32; 4] {
    open spec fn attribute_type() -> AttributeType {
        AttributeType::U32U32U32U32
    }

    fn get_type(_hint: Option<[u32; 4]>) -> (r: AttributeType) {
        AttributeType::U32U32U32U32
    }
}

} // verus!
