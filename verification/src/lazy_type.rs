//! The type tags that open every stored value.

use vstd::prelude::*;

verus! {

/// A user-defined type that can be created empty and filled in later.
pub trait CustomLazyType {
    fn hollow() -> Self where Self: Sized;
}

/// The fixed-width number types, each stored big-endian in as many bytes as
/// its width says.
#[derive(Clone, Copy, Debug, PartialEq, Eq, Structural)]
pub enum LazyNumType {
    I8,
    I16,
    I32,
    I64,
    I128,
    U8,
    U16,
    U32,
    U64,
    U128,
    F32,
    F64,
}

/// The type of a stored value, as its leading tag records it.
///
/// A boolean has no payload: `True` and `False` are two tags of one type.
/// An array's tag is followed by the tag of its element type.
#[derive(Clone, Copy, Debug, PartialEq, Eq, Structural)]
pub enum LazyType {
    Void,
    String,
    Binary,
    True,
    False,
    Link,
    Num(LazyNumType),
    Array(LazyNumType),
}

/// The tag byte of the value that holds nothing.
pub const TAG_VOID: u8 = 0;

/// The tag byte of a text.
pub const TAG_STRING: u8 = 1;

/// The tag byte of a signed 8-bit number.
pub const TAG_I8: u8 = 2;

/// The tag byte of a signed 16-bit number.
pub const TAG_I16: u8 = 3;

/// The tag byte of a signed 32-bit number.
pub const TAG_I32: u8 = 4;

/// The tag byte of a signed 64-bit number.
pub const TAG_I64: u8 = 5;

/// The tag byte of a signed 128-bit number.
pub const TAG_I128: u8 = 6;

/// The tag byte of an unsigned 8-bit number.
pub const TAG_U8: u8 = 7;

/// The tag byte of an unsigned 16-bit number.
pub const TAG_U16: u8 = 8;

/// The tag byte of an unsigned 32-bit number.
pub const TAG_U32: u8 = 9;

/// The tag byte of an unsigned 64-bit number.
pub const TAG_U64: u8 = 10;

/// The tag byte of an unsigned 128-bit number.
pub const TAG_U128: u8 = 11;

/// The tag byte of a 32-bit float.
pub const TAG_F32: u8 = 12;

/// The tag byte of a 64-bit float.
pub const TAG_F64: u8 = 13;

/// The tag byte of a byte string.
pub const TAG_BINARY: u8 = 14;

/// The tag byte of an array; the tag of the element type follows.
pub const TAG_ARRAY: u8 = 15;

/// The tag byte of the boolean true.
pub const TAG_TRUE: u8 = 16;

/// The tag byte of the boolean false.
pub const TAG_FALSE: u8 = 17;

/// The tag byte of a link.
pub const TAG_LINK: u8 = 18;

impl LazyNumType {
    /// The number of bytes that one value of this type takes.
    pub open spec fn spec_width(self) -> nat {
        match self {
            LazyNumType::I8 | LazyNumType::U8 => 1,
            LazyNumType::I16 | LazyNumType::U16 => 2,
            LazyNumType::I32 | LazyNumType::U32 | LazyNumType::F32 => 4,
            LazyNumType::I64 | LazyNumType::U64 | LazyNumType::F64 => 8,
            LazyNumType::I128 | LazyNumType::U128 => 16,
        }
    }

    /// The tag byte of this number type.
    pub open spec fn spec_tag(self) -> u8 {
        match self {
            LazyNumType::I8 => TAG_I8,
            LazyNumType::I16 => TAG_I16,
            LazyNumType::I32 => TAG_I32,
            LazyNumType::I64 => TAG_I64,
            LazyNumType::I128 => TAG_I128,
            LazyNumType::U8 => TAG_U8,
            LazyNumType::U16 => TAG_U16,
            LazyNumType::U32 => TAG_U32,
            LazyNumType::U64 => TAG_U64,
            LazyNumType::U128 => TAG_U128,
            LazyNumType::F32 => TAG_F32,
            LazyNumType::F64 => TAG_F64,
        }
    }

    /// The number type that a tag byte stands for, if it stands for one.
    pub open spec fn spec_from_tag(tag: u8) -> Option<LazyNumType> {
        if tag == TAG_I8 {
            Some(LazyNumType::I8)
        } else if tag == TAG_I16 {
            Some(LazyNumType::I16)
        } else if tag == TAG_I32 {
            Some(LazyNumType::I32)
        } else if tag == TAG_I64 {
            Some(LazyNumType::I64)
        } else if tag == TAG_I128 {
            Some(LazyNumType::I128)
        } else if tag == TAG_U8 {
            Some(LazyNumType::U8)
        } else if tag == TAG_U16 {
            Some(LazyNumType::U16)
        } else if tag == TAG_U32 {
            Some(LazyNumType::U32)
        } else if tag == TAG_U64 {
            Some(LazyNumType::U64)
        } else if tag == TAG_U128 {
            Some(LazyNumType::U128)
        } else if tag == TAG_F32 {
            Some(LazyNumType::F32)
        } else if tag == TAG_F64 {
            Some(LazyNumType::F64)
        } else {
            None
        }
    }

    /// The number of bytes that one value of this type takes.
    pub fn width(self) -> (width: usize)
        ensures
            width == self.spec_width(),
            1 <= width <= 16,
    {
        match self {
            LazyNumType::I8 | LazyNumType::U8 => 1,
            LazyNumType::I16 | LazyNumType::U16 => 2,
            LazyNumType::I32 | LazyNumType::U32 | LazyNumType::F32 => 4,
            LazyNumType::I64 | LazyNumType::U64 | LazyNumType::F64 => 8,
            LazyNumType::I128 | LazyNumType::U128 => 16,
        }
    }

    /// The tag byte of this number type.
    pub fn tag(self) -> (tag: u8)
        ensures
            tag == self.spec_tag(),
    {
        match self {
            LazyNumType::I8 => TAG_I8,
            LazyNumType::I16 => TAG_I16,
            LazyNumType::I32 => TAG_I32,
            LazyNumType::I64 => TAG_I64,
            LazyNumType::I128 => TAG_I128,
            LazyNumType::U8 => TAG_U8,
            LazyNumType::U16 => TAG_U16,
            LazyNumType::U32 => TAG_U32,
            LazyNumType::U64 => TAG_U64,
            LazyNumType::U128 => TAG_U128,
            LazyNumType::F32 => TAG_F32,
            LazyNumType::F64 => TAG_F64,
        }
    }

    /// The number type that a tag byte stands for, if it stands for one.
    pub fn from_tag(tag: u8) -> (num: Option<LazyNumType>)
        ensures
            num == LazyNumType::spec_from_tag(tag),
    {
        if tag == TAG_I8 {
            Some(LazyNumType::I8)
        } else if tag == TAG_I16 {
            Some(LazyNumType::I16)
        } else if tag == TAG_I32 {
            Some(LazyNumType::I32)
        } else if tag == TAG_I64 {
            Some(LazyNumType::I64)
        } else if tag == TAG_I128 {
            Some(LazyNumType::I128)
        } else if tag == TAG_U8 {
            Some(LazyNumType::U8)
        } else if tag == TAG_U16 {
            Some(LazyNumType::U16)
        } else if tag == TAG_U32 {
            Some(LazyNumType::U32)
        } else if tag == TAG_U64 {
            Some(LazyNumType::U64)
        } else if tag == TAG_U128 {
            Some(LazyNumType::U128)
        } else if tag == TAG_F32 {
            Some(LazyNumType::F32)
        } else if tag == TAG_F64 {
            Some(LazyNumType::F64)
        } else {
            None
        }
    }

    /// A tag byte names the number type that it was made from, and no other
    /// byte names a number type.
    pub proof fn tag_is_inverse_of_from_tag(self, tag: u8)
        ensures
            LazyNumType::spec_from_tag(self.spec_tag()) == Some(self),
            LazyNumType::spec_from_tag(tag) == Some(self) ==> tag == self.spec_tag(),
    {
    }
}

impl LazyType {
    /// The tag bytes that open a stored value of this type: one byte, or two
    /// for an array.
    pub open spec fn spec_tag_bytes(self) -> Seq<u8> {
        match self {
            LazyType::Void => seq![TAG_VOID],
            LazyType::String => seq![TAG_STRING],
            LazyType::Binary => seq![TAG_BINARY],
            LazyType::True => seq![TAG_TRUE],
            LazyType::False => seq![TAG_FALSE],
            LazyType::Link => seq![TAG_LINK],
            LazyType::Num(num) => seq![num.spec_tag()],
            LazyType::Array(num) => seq![TAG_ARRAY, num.spec_tag()],
        }
    }

    /// Whether two tags belong to one type. They do when they are equal, and
    /// the two boolean tags do.
    pub open spec fn spec_same_type(self, other: LazyType) -> bool {
        self == other || (self.spec_is_bool() && other.spec_is_bool())
    }

    /// Whether this is one of the two boolean tags.
    pub open spec fn spec_is_bool(self) -> bool {
        self == LazyType::True || self == LazyType::False
    }

    /// The tag bytes that open a stored value of this type.
    pub fn tag_bytes(self) -> (bytes: Vec<u8>)
        ensures
            bytes@ == self.spec_tag_bytes(),
    {
        match self {
            LazyType::Void => vec![TAG_VOID],
            LazyType::String => vec![TAG_STRING],
            LazyType::Binary => vec![TAG_BINARY],
            LazyType::True => vec![TAG_TRUE],
            LazyType::False => vec![TAG_FALSE],
            LazyType::Link => vec![TAG_LINK],
            LazyType::Num(num) => vec![num.tag()],
            LazyType::Array(num) => vec![TAG_ARRAY, num.tag()],
        }
    }

    /// The number of tag bytes: one, or two for an array.
    pub fn tag_len(self) -> (len: usize)
        ensures
            len == self.spec_tag_bytes().len(),
            1 <= len <= 2,
    {
        match self {
            LazyType::Array(_) => 2,
            _ => 1,
        }
    }

    /// Whether two tags belong to one type.
    pub fn same_type(self, other: LazyType) -> (same: bool)
        ensures
            same == self.spec_same_type(other),
    {
        let both_bool = self.is_bool() && other.is_bool();
        self == other || both_bool
    }

    /// Whether this is one of the two boolean tags.
    pub fn is_bool(self) -> (is_bool: bool)
        ensures
            is_bool == self.spec_is_bool(),
    {
        self == LazyType::True || self == LazyType::False
    }
}

} // verus!
