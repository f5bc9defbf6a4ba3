//! The value codec: how a typed value becomes bytes and comes back.
//!
//! A stored value is its type tag followed by its payload and nothing else.
//! There is no length field: a number's payload has the width of its type,
//! and every other payload runs to the end of the data.

use vstd::prelude::*;
use vstd::slice::*;
use vstd::utf8::*;
use vstd::arithmetic::div_mod::*;
use crate::error::{LDBError, LDBErrorView};
use crate::lazy_type::{
    LazyNumType, LazyType, TAG_ARRAY, TAG_BINARY, TAG_FALSE, TAG_LINK, TAG_STRING, TAG_TRUE,
    TAG_VOID,
};
use crate::number::{
    be_bytes, be_value, lemma_be_bytes_len, lemma_be_bytes_of_be_value, lemma_be_value_bound,
    lemma_be_value_of_be_bytes, push_be, read_be, F32Bits, F64Bits, LazyNumber,
};

verus! {

/// A typed value of the store.
#[derive(Clone, Debug, PartialEq, Eq)]
pub enum LazyValue {
    Void,
    String(String),
    Binary(Vec<u8>),
    Bool(bool),
    Link(String),
    I8(i8),
    I16(i16),
    I32(i32),
    I64(i64),
    I128(i128),
    U8(u8),
    U16(u16),
    U32(u32),
    U64(u64),
    U128(u128),
    F32(F32Bits),
    F64(F64Bits),
    I8Array(Vec<i8>),
    I16Array(Vec<i16>),
    I32Array(Vec<i32>),
    I64Array(Vec<i64>),
    I128Array(Vec<i128>),
    U8Array(Vec<u8>),
    U16Array(Vec<u16>),
    U32Array(Vec<u32>),
    U64Array(Vec<u64>),
    U128Array(Vec<u128>),
    F32Array(Vec<F32Bits>),
    F64Array(Vec<F64Bits>),
}

/// A value as contracts see it.
pub enum LazyValueView {
    Void,
    String(Seq<char>),
    Binary(Seq<u8>),
    Bool(bool),
    Link(Seq<char>),
    I8(i8),
    I16(i16),
    I32(i32),
    I64(i64),
    I128(i128),
    U8(u8),
    U16(u16),
    U32(u32),
    U64(u64),
    U128(u128),
    F32(F32Bits),
    F64(F64Bits),
    I8Array(Seq<i8>),
    I16Array(Seq<i16>),
    I32Array(Seq<i32>),
    I64Array(Seq<i64>),
    I128Array(Seq<i128>),
    U8Array(Seq<u8>),
    U16Array(Seq<u16>),
    U32Array(Seq<u32>),
    U64Array(Seq<u64>),
    U128Array(Seq<u128>),
    F32Array(Seq<F32Bits>),
    F64Array(Seq<F64Bits>),
}

impl View for LazyValue {
    type V = LazyValueView;

    open spec fn view(&self) -> LazyValueView {
        match *self {
            LazyValue::Void => LazyValueView::Void,
            LazyValue::String(text) => LazyValueView::String(text@),
            LazyValue::Binary(bytes) => LazyValueView::Binary(bytes@),
            LazyValue::Bool(flag) => LazyValueView::Bool(flag),
            LazyValue::Link(path) => LazyValueView::Link(path@),
            LazyValue::I8(number) => LazyValueView::I8(number),
            LazyValue::I16(number) => LazyValueView::I16(number),
            LazyValue::I32(number) => LazyValueView::I32(number),
            LazyValue::I64(number) => LazyValueView::I64(number),
            LazyValue::I128(number) => LazyValueView::I128(number),
            LazyValue::U8(number) => LazyValueView::U8(number),
            LazyValue::U16(number) => LazyValueView::U16(number),
            LazyValue::U32(number) => LazyValueView::U32(number),
            LazyValue::U64(number) => LazyValueView::U64(number),
            LazyValue::U128(number) => LazyValueView::U128(number),
            LazyValue::F32(number) => LazyValueView::F32(number),
            LazyValue::F64(number) => LazyValueView::F64(number),
            LazyValue::I8Array(items) => LazyValueView::I8Array(items@),
            LazyValue::I16Array(items) => LazyValueView::I16Array(items@),
            LazyValue::I32Array(items) => LazyValueView::I32Array(items@),
            LazyValue::I64Array(items) => LazyValueView::I64Array(items@),
            LazyValue::I128Array(items) => LazyValueView::I128Array(items@),
            LazyValue::U8Array(items) => LazyValueView::U8Array(items@),
            LazyValue::U16Array(items) => LazyValueView::U16Array(items@),
            LazyValue::U32Array(items) => LazyValueView::U32Array(items@),
            LazyValue::U64Array(items) => LazyValueView::U64Array(items@),
            LazyValue::U128Array(items) => LazyValueView::U128Array(items@),
            LazyValue::F32Array(items) => LazyValueView::F32Array(items@),
            LazyValue::F64Array(items) => LazyValueView::F64Array(items@),
        }
    }
}

/// The bytes of one number: its image, most significant byte first, in as
/// many bytes as its type is wide.
pub open spec fn number_bytes<T: LazyNumber>(number: T) -> Seq<u8> {
    be_bytes(number.image(), T::num_type().spec_width())
}

/// The number that the bytes spell.
pub open spec fn number_value<T: LazyNumber>(bytes: Seq<u8>) -> T {
    T::of_image(be_value(bytes))
}

/// The bytes of the numbers, one after the other.
pub open spec fn array_bytes<T: LazyNumber>(items: Seq<T>) -> Seq<u8>
    decreases items.len(),
{
    if items.len() == 0 {
        Seq::empty()
    } else {
        array_bytes(items.drop_last()) + number_bytes(items.last())
    }
}

/// The numbers that the bytes spell, each taking the width of its type. Bytes
/// left over at the front, fewer than one number takes, spell nothing.
pub open spec fn array_values<T: LazyNumber>(bytes: Seq<u8>) -> Seq<T>
    decreases bytes.len(),
{
    let width = T::num_type().spec_width() as int;
    if width <= 0 || bytes.len() < width {
        Seq::empty()
    } else {
        array_values::<T>(bytes.subrange(0, bytes.len() - width)).push(
            number_value::<T>(bytes.subrange(bytes.len() - width, bytes.len() as int)),
        )
    }
}

impl LazyValueView {
    /// The tag under which this value is stored.
    pub open spec fn lazy_type(self) -> LazyType {
        match self {
            LazyValueView::Void => LazyType::Void,
            LazyValueView::String(_) => LazyType::String,
            LazyValueView::Binary(_) => LazyType::Binary,
            LazyValueView::Bool(flag) => if flag {
                LazyType::True
            } else {
                LazyType::False
            },
            LazyValueView::Link(_) => LazyType::Link,
            LazyValueView::I8(_) => LazyType::Num(LazyNumType::I8),
            LazyValueView::I16(_) => LazyType::Num(LazyNumType::I16),
            LazyValueView::I32(_) => LazyType::Num(LazyNumType::I32),
            LazyValueView::I64(_) => LazyType::Num(LazyNumType::I64),
            LazyValueView::I128(_) => LazyType::Num(LazyNumType::I128),
            LazyValueView::U8(_) => LazyType::Num(LazyNumType::U8),
            LazyValueView::U16(_) => LazyType::Num(LazyNumType::U16),
            LazyValueView::U32(_) => LazyType::Num(LazyNumType::U32),
            LazyValueView::U64(_) => LazyType::Num(LazyNumType::U64),
            LazyValueView::U128(_) => LazyType::Num(LazyNumType::U128),
            LazyValueView::F32(_) => LazyType::Num(LazyNumType::F32),
            LazyValueView::F64(_) => LazyType::Num(LazyNumType::F64),
            LazyValueView::I8Array(_) => LazyType::Array(LazyNumType::I8),
            LazyValueView::I16Array(_) => LazyType::Array(LazyNumType::I16),
            LazyValueView::I32Array(_) => LazyType::Array(LazyNumType::I32),
            LazyValueView::I64Array(_) => LazyType::Array(LazyNumType::I64),
            LazyValueView::I128Array(_) => LazyType::Array(LazyNumType::I128),
            LazyValueView::U8Array(_) => LazyType::Array(LazyNumType::U8),
            LazyValueView::U16Array(_) => LazyType::Array(LazyNumType::U16),
            LazyValueView::U32Array(_) => LazyType::Array(LazyNumType::U32),
            LazyValueView::U64Array(_) => LazyType::Array(LazyNumType::U64),
            LazyValueView::U128Array(_) => LazyType::Array(LazyNumType::U128),
            LazyValueView::F32Array(_) => LazyType::Array(LazyNumType::F32),
            LazyValueView::F64Array(_) => LazyType::Array(LazyNumType::F64),
        }
    }

    /// The bytes that follow the tag.
    pub open spec fn payload(self) -> Seq<u8> {
        match self {
            LazyValueView::Void => Seq::empty(),
            LazyValueView::String(text) => encode_utf8(text),
            LazyValueView::Binary(bytes) => bytes,
            LazyValueView::Bool(_) => Seq::empty(),
            LazyValueView::Link(path) => encode_utf8(path),
            LazyValueView::I8(number) => number_bytes(number),
            LazyValueView::I16(number) => number_bytes(number),
            LazyValueView::I32(number) => number_bytes(number),
            LazyValueView::I64(number) => number_bytes(number),
            LazyValueView::I128(number) => number_bytes(number),
            LazyValueView::U8(number) => number_bytes(number),
            LazyValueView::U16(number) => number_bytes(number),
            LazyValueView::U32(number) => number_bytes(number),
            LazyValueView::U64(number) => number_bytes(number),
            LazyValueView::U128(number) => number_bytes(number),
            LazyValueView::F32(number) => number_bytes(number),
            LazyValueView::F64(number) => number_bytes(number),
            LazyValueView::I8Array(items) => array_bytes(items),
            LazyValueView::I16Array(items) => array_bytes(items),
            LazyValueView::I32Array(items) => array_bytes(items),
            LazyValueView::I64Array(items) => array_bytes(items),
            LazyValueView::I128Array(items) => array_bytes(items),
            LazyValueView::U8Array(items) => array_bytes(items),
            LazyValueView::U16Array(items) => array_bytes(items),
            LazyValueView::U32Array(items) => array_bytes(items),
            LazyValueView::U64Array(items) => array_bytes(items),
            LazyValueView::U128Array(items) => array_bytes(items),
            LazyValueView::F32Array(items) => array_bytes(items),
            LazyValueView::F64Array(items) => array_bytes(items),
        }
    }

    /// The stored form of this value: the tag, then the payload.
    pub open spec fn encoding(self) -> Seq<u8> {
        self.lazy_type().spec_tag_bytes() + self.payload()
    }

    /// The number of type `num` that a payload of exactly its width spells.
    pub open spec fn number_of(num: LazyNumType, payload: Seq<u8>) -> LazyValueView {
        match num {
            LazyNumType::I8 => LazyValueView::I8(number_value::<i8>(payload)),
            LazyNumType::I16 => LazyValueView::I16(number_value::<i16>(payload)),
            LazyNumType::I32 => LazyValueView::I32(number_value::<i32>(payload)),
            LazyNumType::I64 => LazyValueView::I64(number_value::<i64>(payload)),
            LazyNumType::I128 => LazyValueView::I128(number_value::<i128>(payload)),
            LazyNumType::U8 => LazyValueView::U8(number_value::<u8>(payload)),
            LazyNumType::U16 => LazyValueView::U16(number_value::<u16>(payload)),
            LazyNumType::U32 => LazyValueView::U32(number_value::<u32>(payload)),
            LazyNumType::U64 => LazyValueView::U64(number_value::<u64>(payload)),
            LazyNumType::U128 => LazyValueView::U128(number_value::<u128>(payload)),
            LazyNumType::F32 => LazyValueView::F32(number_value::<F32Bits>(payload)),
            LazyNumType::F64 => LazyValueView::F64(number_value::<F64Bits>(payload)),
        }
    }

    /// The array of numbers of type `num` that a payload spells.
    pub open spec fn array_of(num: LazyNumType, payload: Seq<u8>) -> LazyValueView {
        match num {
            LazyNumType::I8 => LazyValueView::I8Array(array_values::<i8>(payload)),
            LazyNumType::I16 => LazyValueView::I16Array(array_values::<i16>(payload)),
            LazyNumType::I32 => LazyValueView::I32Array(array_values::<i32>(payload)),
            LazyNumType::I64 => LazyValueView::I64Array(array_values::<i64>(payload)),
            LazyNumType::I128 => LazyValueView::I128Array(array_values::<i128>(payload)),
            LazyNumType::U8 => LazyValueView::U8Array(array_values::<u8>(payload)),
            LazyNumType::U16 => LazyValueView::U16Array(array_values::<u16>(payload)),
            LazyNumType::U32 => LazyValueView::U32Array(array_values::<u32>(payload)),
            LazyNumType::U64 => LazyValueView::U64Array(array_values::<u64>(payload)),
            LazyNumType::U128 => LazyValueView::U128Array(array_values::<u128>(payload)),
            LazyNumType::F32 => LazyValueView::F32Array(array_values::<F32Bits>(payload)),
            LazyNumType::F64 => LazyValueView::F64Array(array_values::<F64Bits>(payload)),
        }
    }
}

/// The tag that the data opens with.
///
/// Data that ends before its tag does has no type; neither has data whose
/// first byte is no tag, or whose first byte announces an array and whose
/// second is not the tag of a number type.
pub open spec fn spec_decode_tag(bytes: Seq<u8>) -> Result<LazyType, LDBErrorView> {
    if bytes.len() == 0 {
        Err(LDBErrorView::MissingLazyType)
    } else if bytes[0] == TAG_ARRAY {
        if bytes.len() < 2 {
            Err(LDBErrorView::MissingLazyType)
        } else {
            match LazyNumType::spec_from_tag(bytes[1]) {
                Some(num) => Ok(LazyType::Array(num)),
                None => Err(LDBErrorView::InvalidLazyType(bytes[1])),
            }
        }
    } else if bytes[0] == TAG_VOID {
        Ok(LazyType::Void)
    } else if bytes[0] == TAG_STRING {
        Ok(LazyType::String)
    } else if bytes[0] == TAG_BINARY {
        Ok(LazyType::Binary)
    } else if bytes[0] == TAG_TRUE {
        Ok(LazyType::True)
    } else if bytes[0] == TAG_FALSE {
        Ok(LazyType::False)
    } else if bytes[0] == TAG_LINK {
        Ok(LazyType::Link)
    } else {
        match LazyNumType::spec_from_tag(bytes[0]) {
            Some(num) => Ok(LazyType::Num(num)),
            None => Err(LDBErrorView::InvalidLazyType(bytes[0])),
        }
    }
}

/// The value that a payload spells when it is stored under the tag `found`.
///
/// The void value and a boolean have no payload, a text must be valid UTF-8,
/// a number must fill its width exactly, and an array must be made of whole
/// numbers.
pub open spec fn spec_decode_body(found: LazyType, payload: Seq<u8>) -> Result<
    LazyValueView,
    LDBErrorView,
> {
    match found {
        LazyType::Void => if payload.len() == 0 {
            Ok(LazyValueView::Void)
        } else {
            Err(LDBErrorView::InvalidPayloadLength { length: payload.len() as usize, width: 0 })
        },
        LazyType::True => if payload.len() == 0 {
            Ok(LazyValueView::Bool(true))
        } else {
            Err(LDBErrorView::InvalidPayloadLength { length: payload.len() as usize, width: 0 })
        },
        LazyType::False => if payload.len() == 0 {
            Ok(LazyValueView::Bool(false))
        } else {
            Err(LDBErrorView::InvalidPayloadLength { length: payload.len() as usize, width: 0 })
        },
        LazyType::Binary => Ok(LazyValueView::Binary(payload)),
        LazyType::String => if valid_utf8(payload) {
            Ok(LazyValueView::String(decode_utf8(payload)))
        } else {
            Err(LDBErrorView::InvalidUTF8String(payload))
        },
        LazyType::Link => if valid_utf8(payload) {
            Ok(LazyValueView::Link(decode_utf8(payload)))
        } else {
            Err(LDBErrorView::InvalidUTF8String(payload))
        },
        LazyType::Num(num) => if payload.len() == num.spec_width() {
            Ok(LazyValueView::number_of(num, payload))
        } else {
            Err(
                LDBErrorView::InvalidPayloadLength {
                    length: payload.len() as usize,
                    width: num.spec_width() as usize,
                },
            )
        },
        LazyType::Array(num) => if payload.len() % num.spec_width() == 0 {
            Ok(LazyValueView::array_of(num, payload))
        } else {
            Err(
                LDBErrorView::InvalidPayloadLength {
                    length: payload.len() as usize,
                    width: num.spec_width() as usize,
                },
            )
        },
    }
}

/// The value that the data holds when it is read as a value of the type
/// `expected`.
///
/// Reading fails when the data has no tag, when its tag belongs to another
/// type than the expected one, and when the payload is malformed for its
/// type. The two boolean tags belong to one type.
pub open spec fn spec_decode_payload(bytes: Seq<u8>, expected: LazyType) -> Result<
    LazyValueView,
    LDBErrorView,
> {
    match spec_decode_tag(bytes) {
        Err(error) => Err(error),
        Ok(found) => if !found.spec_same_type(expected) {
            Err(LDBErrorView::IncorrectType { expected, found })
        } else {
            spec_decode_body(
                found,
                bytes.subrange(found.spec_tag_bytes().len() as int, bytes.len() as int),
            )
        },
    }
}

/// The result of reading a value, as contracts see it.
pub open spec fn value_result_view(result: Result<LazyValue, LDBError>) -> Result<
    LazyValueView,
    LDBErrorView,
> {
    match result {
        Ok(value) => Ok(value@),
        Err(error) => Err(error@),
    }
}

/// The result of reading a tag, as contracts see it.
pub open spec fn tag_result_view(result: Result<LazyType, LDBError>) -> Result<
    LazyType,
    LDBErrorView,
> {
    match result {
        Ok(found) => Ok(found),
        Err(error) => Err(error@),
    }
}

/// A number's bytes have the width of its type and spell the number.
pub proof fn lemma_number_round_trip<T: LazyNumber>(number: T)
    ensures
        number_bytes(number).len() == T::num_type().spec_width(),
        number_value::<T>(number_bytes(number)) == number,
{
    number.lemma_image();
    lemma_be_bytes_len(number.image(), T::num_type().spec_width());
    lemma_be_value_of_be_bytes(number.image(), T::num_type().spec_width());
}

/// An array's bytes are as many as its numbers take together.
pub proof fn lemma_array_bytes_len<T: LazyNumber>(items: Seq<T>)
    ensures
        array_bytes(items).len() == items.len() * T::num_type().spec_width(),
        array_bytes(items).len() % T::num_type().spec_width() == 0,
    decreases items.len(),
{
    let width = T::num_type().spec_width() as int;
    if items.len() > 0 {
        lemma_array_bytes_len(items.drop_last());
        lemma_number_round_trip(items.last());
        assert(items.len() * width == (items.len() - 1) * width + width) by (nonlinear_arith);
    } else {
        assert(items.len() * width == 0) by (nonlinear_arith)
            requires
                items.len() == 0,
        ;
    }
    lemma_mod_multiples_basic(items.len() as int, width);
}

/// An array's bytes are made of whole numbers and spell the array.
pub proof fn lemma_array_round_trip<T: LazyNumber>(items: Seq<T>)
    ensures
        array_bytes(items).len() % T::num_type().spec_width() == 0,
        array_values::<T>(array_bytes(items)) == items,
    decreases items.len(),
{
    let width = T::num_type().spec_width() as int;
    let bytes = array_bytes(items);
    lemma_array_bytes_len(items);
    if items.len() > 0 {
        let front = array_bytes(items.drop_last());
        lemma_array_round_trip(items.drop_last());
        lemma_number_round_trip(items.last());
        assert(bytes.subrange(0, bytes.len() - width) =~= front);
        assert(bytes.subrange(bytes.len() - width, bytes.len() as int) =~= number_bytes(
            items.last(),
        ));
        assert(array_values::<T>(bytes) =~= items);
    } else {
        assert(array_values::<T>(bytes) =~= items);
    }
}

/// The stored form of a value opens with the tag of its type.
pub proof fn law_encoding_opens_with_tag(value: LazyValueView)
    ensures
        spec_decode_tag(value.encoding()) == Ok::<LazyType, LDBErrorView>(value.lazy_type()),
{
    let tag = value.lazy_type();
    match tag {
        LazyType::Num(num) => {
            num.tag_is_inverse_of_from_tag(0);
            assert(value.encoding()[0] == num.spec_tag());
        },
        LazyType::Array(num) => {
            num.tag_is_inverse_of_from_tag(0);
            assert(value.encoding()[0] == TAG_ARRAY);
            assert(value.encoding()[1] == num.spec_tag());
        },
        _ => {
            assert(value.encoding()[0] == tag.spec_tag_bytes()[0]);
        },
    }
}

/// The tag is decided by the first two bytes of the data: the data and
/// any opening part of it that holds two bytes or all of them open with the
/// same tag, or fail to in the same way.
pub proof fn law_tag_is_in_the_head(bytes: Seq<u8>, count: int)
    requires
        0 <= count <= bytes.len(),
        count >= 2 || count == bytes.len(),
    ensures
        spec_decode_tag(bytes.subrange(0, count)) == spec_decode_tag(bytes),
{
    let head = bytes.subrange(0, count);
    if count == bytes.len() {
        assert(head =~= bytes);
    } else {
        assert(head[0] == bytes[0]);
        assert(head[1] == bytes[1]);
    }
}

/// Reading gives back what was written: the stored form of a value, read as
/// a value of its own type, is that value. This holds of every number at the
/// ends of its range, of the empty text, the empty byte string and the empty
/// array, and of a float's every bit pattern.
pub proof fn law_decode_of_encode(value: LazyValueView, expected: LazyType)
    requires
        value.lazy_type().spec_same_type(expected),
    ensures
        spec_decode_payload(value.encoding(), expected) == Ok::<LazyValueView, LDBErrorView>(
            value,
        ),
{
    law_encoding_opens_with_tag(value);
    let found = value.lazy_type();
    let bytes = value.encoding();
    let payload = bytes.subrange(found.spec_tag_bytes().len() as int, bytes.len() as int);
    assert(payload =~= value.payload());
    match value {
        LazyValueView::String(text) | LazyValueView::Link(text) => {
            encode_utf8_valid_utf8(text);
            encode_utf8_decode_utf8(text);
        },
        LazyValueView::I8(number) => lemma_number_round_trip(number),
        LazyValueView::I16(number) => lemma_number_round_trip(number),
        LazyValueView::I32(number) => lemma_number_round_trip(number),
        LazyValueView::I64(number) => lemma_number_round_trip(number),
        LazyValueView::I128(number) => lemma_number_round_trip(number),
        LazyValueView::U8(number) => lemma_number_round_trip(number),
        LazyValueView::U16(number) => lemma_number_round_trip(number),
        LazyValueView::U32(number) => lemma_number_round_trip(number),
        LazyValueView::U64(number) => lemma_number_round_trip(number),
        LazyValueView::U128(number) => lemma_number_round_trip(number),
        LazyValueView::F32(number) => lemma_number_round_trip(number),
        LazyValueView::F64(number) => lemma_number_round_trip(number),
        LazyValueView::I8Array(items) => lemma_array_round_trip(items),
        LazyValueView::I16Array(items) => lemma_array_round_trip(items),
        LazyValueView::I32Array(items) => lemma_array_round_trip(items),
        LazyValueView::I64Array(items) => lemma_array_round_trip(items),
        LazyValueView::I128Array(items) => lemma_array_round_trip(items),
        LazyValueView::U8Array(items) => lemma_array_round_trip(items),
        LazyValueView::U16Array(items) => lemma_array_round_trip(items),
        LazyValueView::U32Array(items) => lemma_array_round_trip(items),
        LazyValueView::U64Array(items) => lemma_array_round_trip(items),
        LazyValueView::U128Array(items) => lemma_array_round_trip(items),
        LazyValueView::F32Array(items) => lemma_array_round_trip(items),
        LazyValueView::F64Array(items) => lemma_array_round_trip(items),
        _ => {},
    }
}

/// A value is never read as a value of another type: the stored form of a
/// value, read as a value of a type that is not its own, gives the error
/// that names both types.
pub proof fn law_decode_as_other_type(value: LazyValueView, expected: LazyType)
    requires
        !value.lazy_type().spec_same_type(expected),
    ensures
        spec_decode_payload(value.encoding(), expected) == Err::<LazyValueView, LDBErrorView>(
            LDBErrorView::IncorrectType { expected, found: value.lazy_type() },
        ),
{
    law_encoding_opens_with_tag(value);
}

/// The bytes that spell an array are the bytes of that array.
pub proof fn lemma_array_bytes_of_values<T: LazyNumber>(bytes: Seq<u8>)
    requires
        bytes.len() % T::num_type().spec_width() == 0,
    ensures
        array_bytes(array_values::<T>(bytes)) == bytes,
    decreases bytes.len(),
{
    let width = T::num_type().spec_width() as int;
    if bytes.len() < width {
        lemma_small_mod(bytes.len(), width as nat);
        assert(array_bytes(array_values::<T>(bytes)) =~= bytes);
    } else {
        let front = bytes.subrange(0, bytes.len() - width);
        let back = bytes.subrange(bytes.len() - width, bytes.len() as int);
        lemma_mod_sub_multiples_vanish(bytes.len() as int, width);
        lemma_array_bytes_of_values::<T>(front);
        lemma_be_value_bound(back);
        T::lemma_of_image(be_value(back));
        lemma_be_bytes_of_be_value(back);
        let items = array_values::<T>(bytes);
        assert(items.drop_last() =~= array_values::<T>(front));
        assert(items.last() == number_value::<T>(back));
        assert(array_bytes(items) =~= front + back);
        assert(front + back =~= bytes);
    }
}

/// The bytes that spell a number are the bytes of that number.
pub proof fn lemma_number_bytes_of_value<T: LazyNumber>(bytes: Seq<u8>)
    requires
        bytes.len() == T::num_type().spec_width(),
    ensures
        number_bytes(number_value::<T>(bytes)) == bytes,
{
    lemma_be_value_bound(bytes);
    T::lemma_of_image(be_value(bytes));
    lemma_be_bytes_of_be_value(bytes);
}

/// Writing gives back what was read: data that reads as a value is the
/// stored form of that value, byte for byte. With the law before the last,
/// the codec is a one-to-one mapping between the values and the data that
/// can be read.
pub proof fn law_encode_of_decode(bytes: Seq<u8>, expected: LazyType, value: LazyValueView)
    requires
        spec_decode_payload(bytes, expected) == Ok::<LazyValueView, LDBErrorView>(value),
    ensures
        value.encoding() == bytes,
{
    let found = spec_decode_tag(bytes)->Ok_0;
    let payload = bytes.subrange(found.spec_tag_bytes().len() as int, bytes.len() as int);
    match found {
        LazyType::Num(num) => {
            num.tag_is_inverse_of_from_tag(bytes[0]);
        },
        LazyType::Array(num) => {
            num.tag_is_inverse_of_from_tag(bytes[1]);
        },
        _ => {},
    }
    assert(found.spec_tag_bytes() =~= bytes.subrange(0, found.spec_tag_bytes().len() as int));
    assert(value.lazy_type() == found);
    match value {
        LazyValueView::String(_) | LazyValueView::Link(_) => decode_utf8_encode_utf8(payload),
        LazyValueView::I8(_) => lemma_number_bytes_of_value::<i8>(payload),
        LazyValueView::I16(_) => lemma_number_bytes_of_value::<i16>(payload),
        LazyValueView::I32(_) => lemma_number_bytes_of_value::<i32>(payload),
        LazyValueView::I64(_) => lemma_number_bytes_of_value::<i64>(payload),
        LazyValueView::I128(_) => lemma_number_bytes_of_value::<i128>(payload),
        LazyValueView::U8(_) => lemma_number_bytes_of_value::<u8>(payload),
        LazyValueView::U16(_) => lemma_number_bytes_of_value::<u16>(payload),
        LazyValueView::U32(_) => lemma_number_bytes_of_value::<u32>(payload),
        LazyValueView::U64(_) => lemma_number_bytes_of_value::<u64>(payload),
        LazyValueView::U128(_) => lemma_number_bytes_of_value::<u128>(payload),
        LazyValueView::F32(_) => lemma_number_bytes_of_value::<F32Bits>(payload),
        LazyValueView::F64(_) => lemma_number_bytes_of_value::<F64Bits>(payload),
        LazyValueView::I8Array(_) => lemma_array_bytes_of_values::<i8>(payload),
        LazyValueView::I16Array(_) => lemma_array_bytes_of_values::<i16>(payload),
        LazyValueView::I32Array(_) => lemma_array_bytes_of_values::<i32>(payload),
        LazyValueView::I64Array(_) => lemma_array_bytes_of_values::<i64>(payload),
        LazyValueView::I128Array(_) => lemma_array_bytes_of_values::<i128>(payload),
        LazyValueView::U8Array(_) => lemma_array_bytes_of_values::<u8>(payload),
        LazyValueView::U16Array(_) => lemma_array_bytes_of_values::<u16>(payload),
        LazyValueView::U32Array(_) => lemma_array_bytes_of_values::<u32>(payload),
        LazyValueView::U64Array(_) => lemma_array_bytes_of_values::<u64>(payload),
        LazyValueView::U128Array(_) => lemma_array_bytes_of_values::<u128>(payload),
        LazyValueView::F32Array(_) => lemma_array_bytes_of_values::<F32Bits>(payload),
        LazyValueView::F64Array(_) => lemma_array_bytes_of_values::<F64Bits>(payload),
        _ => {},
    }
    assert(value.payload() =~= payload);
    assert(found.spec_tag_bytes() + payload =~= bytes);
}

/// Two values with the same stored form are the same value.
pub proof fn law_encoding_is_injective(a: LazyValueView, b: LazyValueView)
    requires
        a.encoding() == b.encoding(),
    ensures
        a == b,
{
    law_decode_of_encode(a, a.lazy_type());
    law_encoding_opens_with_tag(a);
    law_encoding_opens_with_tag(b);
    law_decode_of_encode(b, b.lazy_type());
}

/// Appends `bytes` to `out`.
pub(crate) fn append_bytes(out: &mut Vec<u8>, bytes: &[u8])
    ensures
        final(out)@ == old(out)@ + bytes@,
{
    let total: usize = bytes.len();
    let mut i: usize = 0;
    while i < total
        invariant
            i <= total == bytes@.len(),
            out@ == old(out)@ + bytes@.subrange(0, i as int),
        decreases total - i,
    {
        out.push(bytes[i]);
        proof {
            let longer = bytes@.subrange(0, i + 1);
            assert(longer =~= bytes@.subrange(0, i as int).push(bytes@[i as int]));
        }
        i += 1;
    }
    proof {
        assert(bytes@.subrange(0, total as int) =~= bytes@);
    }
}

/// Appends the bytes of one number to `out`.
pub(crate) fn push_number<T: LazyNumber>(out: &mut Vec<u8>, number: T)
    ensures
        final(out)@ == old(out)@ + number_bytes(number),
{
    let width: usize = T::lazy_num_type().width();
    push_be(out, number.to_image(), width);
}

/// Appends the bytes of the numbers to `out`, one after the other.
pub(crate) fn push_array<T: LazyNumber>(out: &mut Vec<u8>, items: &[T])
    ensures
        final(out)@ == old(out)@ + array_bytes(items@),
{
    let total: usize = items.len();
    let mut i: usize = 0;
    proof {
        assert(array_bytes(items@.subrange(0, 0)) =~= Seq::<u8>::empty());
    }
    while i < total
        invariant
            i <= total == items@.len(),
            out@ == old(out)@ + array_bytes(items@.subrange(0, i as int)),
        decreases total - i,
    {
        push_number(out, items[i]);
        proof {
            let longer = items@.subrange(0, i + 1);
            assert(longer.drop_last() =~= items@.subrange(0, i as int));
            assert(longer.last() == items@[i as int]);
        }
        i += 1;
    }
    proof {
        assert(items@.subrange(0, total as int) =~= items@);
    }
}

/// The number that a payload of exactly its width spells.
pub(crate) fn read_number<T: LazyNumber>(payload: &[u8]) -> (number: T)
    requires
        payload@.len() == T::num_type().spec_width(),
    ensures
        number == number_value::<T>(payload@),
{
    let width: usize = T::lazy_num_type().width();
    let image = read_be(payload, 0, width);
    proof {
        assert(payload@.subrange(0, width as int) =~= payload@);
    }
    T::from_image(image)
}

/// The numbers that a payload made of whole numbers spells.
pub(crate) fn read_array<T: LazyNumber>(payload: &[u8]) -> (items: Vec<T>)
    requires
        payload@.len() % T::num_type().spec_width() == 0,
    ensures
        items@ == array_values::<T>(payload@),
{
    let width: usize = T::lazy_num_type().width();
    let total: usize = payload.len();
    let mut items: Vec<T> = Vec::new();
    let mut pos: usize = 0;
    while pos < total
        invariant
            pos <= total == payload@.len(),
            width == T::num_type().spec_width(),
            1 <= width <= 16,
            (total - pos) % (width as int) == 0,
            items@ == array_values::<T>(payload@.subrange(0, pos as int)),
        decreases total - pos,
    {
        proof {
            if total - pos < width {
                lemma_small_mod((total - pos) as nat, width as nat);
            }
            lemma_mod_sub_multiples_vanish((total - pos) as int, width as int);
        }
        let image = read_be(payload, pos, width);
        let number = T::from_image(image);
        items.push(number);
        proof {
            let longer = payload@.subrange(0, pos + width);
            assert(longer.subrange(0, longer.len() - width) =~= payload@.subrange(0, pos as int));
            assert(longer.subrange(longer.len() - width, longer.len() as int)
                =~= payload@.subrange(pos as int, pos + width));
        }
        pos += width;
    }
    proof {
        assert(payload@.subrange(0, total as int) =~= payload@);
    }
    items
}

/// The text that UTF-8 bytes spell, by `String::from_utf8`. The bytes become
/// a text exactly when they are valid UTF-8, and the text is the one that
/// they decode to; otherwise the bytes come back as they were.
#[verifier::external_body]
fn string_from_utf8(bytes: Vec<u8>) -> (result: Result<String, Vec<u8>>)
    ensures
        match result {
            Ok(text) => valid_utf8(bytes@) && text@ == decode_utf8(bytes@),
            Err(given) => !valid_utf8(bytes@) && given@ == bytes@,
        },
{
    match String::from_utf8(bytes) {
        Ok(text) => Ok(text),
        Err(error) => Err(error.into_bytes()),
    }
}

impl LazyValue {
    /// The tag under which this value is stored.
    pub fn lazy_type(&self) -> (lazy_type: LazyType)
        ensures
            lazy_type == self@.lazy_type(),
    {
        match self {
            LazyValue::Void => LazyType::Void,
            LazyValue::String(_) => LazyType::String,
            LazyValue::Binary(_) => LazyType::Binary,
            LazyValue::Bool(flag) => if *flag {
                LazyType::True
            } else {
                LazyType::False
            },
            LazyValue::Link(_) => LazyType::Link,
            LazyValue::I8(_) => LazyType::Num(LazyNumType::I8),
            LazyValue::I16(_) => LazyType::Num(LazyNumType::I16),
            LazyValue::I32(_) => LazyType::Num(LazyNumType::I32),
            LazyValue::I64(_) => LazyType::Num(LazyNumType::I64),
            LazyValue::I128(_) => LazyType::Num(LazyNumType::I128),
            LazyValue::U8(_) => LazyType::Num(LazyNumType::U8),
            LazyValue::U16(_) => LazyType::Num(LazyNumType::U16),
            LazyValue::U32(_) => LazyType::Num(LazyNumType::U32),
            LazyValue::U64(_) => LazyType::Num(LazyNumType::U64),
            LazyValue::U128(_) => LazyType::Num(LazyNumType::U128),
            LazyValue::F32(_) => LazyType::Num(LazyNumType::F32),
            LazyValue::F64(_) => LazyType::Num(LazyNumType::F64),
            LazyValue::I8Array(_) => LazyType::Array(LazyNumType::I8),
            LazyValue::I16Array(_) => LazyType::Array(LazyNumType::I16),
            LazyValue::I32Array(_) => LazyType::Array(LazyNumType::I32),
            LazyValue::I64Array(_) => LazyType::Array(LazyNumType::I64),
            LazyValue::I128Array(_) => LazyType::Array(LazyNumType::I128),
            LazyValue::U8Array(_) => LazyType::Array(LazyNumType::U8),
            LazyValue::U16Array(_) => LazyType::Array(LazyNumType::U16),
            LazyValue::U32Array(_) => LazyType::Array(LazyNumType::U32),
            LazyValue::U64Array(_) => LazyType::Array(LazyNumType::U64),
            LazyValue::U128Array(_) => LazyType::Array(LazyNumType::U128),
            LazyValue::F32Array(_) => LazyType::Array(LazyNumType::F32),
            LazyValue::F64Array(_) => LazyType::Array(LazyNumType::F64),
        }
    }
}

/// The stored form of a value: its tag, then its payload.
pub fn encode(value: &LazyValue) -> (bytes: Vec<u8>)
    ensures
        bytes@ == value@.encoding(),
{
    let mut out: Vec<u8> = value.lazy_type().tag_bytes();
    match value {
        LazyValue::Void | LazyValue::Bool(_) => {},
        LazyValue::String(text) | LazyValue::Link(text) => append_bytes(
            &mut out,
            text.as_str().as_bytes(),
        ),
        LazyValue::Binary(bytes) => append_bytes(&mut out, bytes.as_slice()),
        LazyValue::I8(number) => push_number(&mut out, *number),
        LazyValue::I16(number) => push_number(&mut out, *number),
        LazyValue::I32(number) => push_number(&mut out, *number),
        LazyValue::I64(number) => push_number(&mut out, *number),
        LazyValue::I128(number) => push_number(&mut out, *number),
        LazyValue::U8(number) => push_number(&mut out, *number),
        LazyValue::U16(number) => push_number(&mut out, *number),
        LazyValue::U32(number) => push_number(&mut out, *number),
        LazyValue::U64(number) => push_number(&mut out, *number),
        LazyValue::U128(number) => push_number(&mut out, *number),
        LazyValue::F32(number) => push_number(&mut out, *number),
        LazyValue::F64(number) => push_number(&mut out, *number),
        LazyValue::I8Array(items) => push_array(&mut out, items.as_slice()),
        LazyValue::I16Array(items) => push_array(&mut out, items.as_slice()),
        LazyValue::I32Array(items) => push_array(&mut out, items.as_slice()),
        LazyValue::I64Array(items) => push_array(&mut out, items.as_slice()),
        LazyValue::I128Array(items) => push_array(&mut out, items.as_slice()),
        LazyValue::U8Array(items) => push_array(&mut out, items.as_slice()),
        LazyValue::U16Array(items) => push_array(&mut out, items.as_slice()),
        LazyValue::U32Array(items) => push_array(&mut out, items.as_slice()),
        LazyValue::U64Array(items) => push_array(&mut out, items.as_slice()),
        LazyValue::U128Array(items) => push_array(&mut out, items.as_slice()),
        LazyValue::F32Array(items) => push_array(&mut out, items.as_slice()),
        LazyValue::F64Array(items) => push_array(&mut out, items.as_slice()),
    }
    proof {
        assert(out@ =~= value@.encoding());
    }
    out
}

/// The tag that the data opens with. Only the tag's one or two bytes are
/// looked at.
pub fn decode_tag(bytes: &[u8]) -> (result: Result<LazyType, LDBError>)
    ensures
        tag_result_view(result) == spec_decode_tag(bytes@),
{
    if bytes.len() == 0 {
        return Err(LDBError::MissingLazyType);
    }
    let first: u8 = bytes[0];
    if first == TAG_ARRAY {
        if bytes.len() < 2 {
            return Err(LDBError::MissingLazyType);
        }
        let second: u8 = bytes[1];
        match LazyNumType::from_tag(second) {
            Some(num) => Ok(LazyType::Array(num)),
            None => Err(LDBError::InvalidLazyType(second)),
        }
    } else if first == TAG_VOID {
        Ok(LazyType::Void)
    } else if first == TAG_STRING {
        Ok(LazyType::String)
    } else if first == TAG_BINARY {
        Ok(LazyType::Binary)
    } else if first == TAG_TRUE {
        Ok(LazyType::True)
    } else if first == TAG_FALSE {
        Ok(LazyType::False)
    } else if first == TAG_LINK {
        Ok(LazyType::Link)
    } else {
        match LazyNumType::from_tag(first) {
            Some(num) => Ok(LazyType::Num(num)),
            None => Err(LDBError::InvalidLazyType(first)),
        }
    }
}

/// The value that a payload spells when it is stored under the tag `found`.
pub fn decode_body(found: LazyType, payload: &[u8]) -> (result: Result<LazyValue, LDBError>)
    ensures
        value_result_view(result) == spec_decode_body(found, payload@),
{
    match found {
        LazyType::Void | LazyType::True | LazyType::False => {
            if payload.len() != 0 {
                return Err(LDBError::InvalidPayloadLength { length: payload.len(), width: 0 });
            }
            Ok(
                match found {
                    LazyType::Void => LazyValue::Void,
                    LazyType::True => LazyValue::Bool(true),
                    _ => LazyValue::Bool(false),
                },
            )
        },
        LazyType::Binary => Ok(LazyValue::Binary(slice_to_vec(payload))),
        LazyType::String => match string_from_utf8(slice_to_vec(payload)) {
            Ok(text) => Ok(LazyValue::String(text)),
            Err(given) => Err(LDBError::InvalidUTF8String(given)),
        },
        LazyType::Link => match string_from_utf8(slice_to_vec(payload)) {
            Ok(path) => Ok(LazyValue::Link(path)),
            Err(given) => Err(LDBError::InvalidUTF8String(given)),
        },
        LazyType::Num(num) => {
            let width: usize = num.width();
            if payload.len() != width {
                return Err(LDBError::InvalidPayloadLength { length: payload.len(), width });
            }
            Ok(
                match num {
                    LazyNumType::I8 => LazyValue::I8(read_number::<i8>(payload)),
                    LazyNumType::I16 => LazyValue::I16(read_number::<i16>(payload)),
                    LazyNumType::I32 => LazyValue::I32(read_number::<i32>(payload)),
                    LazyNumType::I64 => LazyValue::I64(read_number::<i64>(payload)),
                    LazyNumType::I128 => LazyValue::I128(read_number::<i128>(payload)),
                    LazyNumType::U8 => LazyValue::U8(read_number::<u8>(payload)),
                    LazyNumType::U16 => LazyValue::U16(read_number::<u16>(payload)),
                    LazyNumType::U32 => LazyValue::U32(read_number::<u32>(payload)),
                    LazyNumType::U64 => LazyValue::U64(read_number::<u64>(payload)),
                    LazyNumType::U128 => LazyValue::U128(read_number::<u128>(payload)),
                    LazyNumType::F32 => LazyValue::F32(read_number::<F32Bits>(payload)),
                    LazyNumType::F64 => LazyValue::F64(read_number::<F64Bits>(payload)),
                },
            )
        },
        LazyType::Array(num) => {
            let width: usize = num.width();
            if payload.len() % width != 0 {
                return Err(LDBError::InvalidPayloadLength { length: payload.len(), width });
            }
            Ok(
                match num {
                    LazyNumType::I8 => LazyValue::I8Array(read_array::<i8>(payload)),
                    LazyNumType::I16 => LazyValue::I16Array(read_array::<i16>(payload)),
                    LazyNumType::I32 => LazyValue::I32Array(read_array::<i32>(payload)),
                    LazyNumType::I64 => LazyValue::I64Array(read_array::<i64>(payload)),
                    LazyNumType::I128 => LazyValue::I128Array(read_array::<i128>(payload)),
                    LazyNumType::U8 => LazyValue::U8Array(read_array::<u8>(payload)),
                    LazyNumType::U16 => LazyValue::U16Array(read_array::<u16>(payload)),
                    LazyNumType::U32 => LazyValue::U32Array(read_array::<u32>(payload)),
                    LazyNumType::U64 => LazyValue::U64Array(read_array::<u64>(payload)),
                    LazyNumType::U128 => LazyValue::U128Array(read_array::<u128>(payload)),
                    LazyNumType::F32 => LazyValue::F32Array(read_array::<F32Bits>(payload)),
                    LazyNumType::F64 => LazyValue::F64Array(read_array::<F64Bits>(payload)),
                },
            )
        },
    }
}

/// The value that the data holds, read as a value of the type `expected`.
pub fn decode_payload(bytes: &[u8], expected: LazyType) -> (result: Result<LazyValue, LDBError>)
    ensures
        value_result_view(result) == spec_decode_payload(bytes@, expected),
{
    let found = match decode_tag(bytes) {
        Ok(found) => found,
        Err(error) => {
            return Err(error);
        },
    };
    if !found.same_type(expected) {
        return Err(LDBError::IncorrectType { expected, found });
    }
    let skip: usize = found.tag_len();
    decode_body(found, slice_subrange(bytes, skip, bytes.len()))
}

} // verus!
