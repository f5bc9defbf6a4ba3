//! Writing values: one function for each type that the store can hold.
//!
//! Each of them appends the stored form of one value to a file and leaves
//! the file at its path.

use vstd::prelude::*;
use vstd::slice::*;
use crate::codec::{encode, LazyValue, LazyValueView};
use crate::lazy_data::{FileWrapper, LazyData};
use crate::number::{F32Bits, F64Bits};

verus! {

impl LazyData {
    /// Writes the value that holds nothing.
    pub fn new_void(file: &mut FileWrapper, _value: ())
        ensures
            final(file)@ == old(file)@.written(LazyValueView::Void.encoding()),
    {
        let bytes = encode(&LazyValue::Void);
        file.write(bytes.as_slice());
    }

    /// Writes a text: its tag, then its UTF-8 bytes.
    pub fn new_string(file: &mut FileWrapper, value: &str)
        ensures
            final(file)@ == old(file)@.written(LazyValueView::String(value@).encoding()),
    {
        let bytes = encode(&LazyValue::String(value.to_owned()));
        file.write(bytes.as_slice());
    }

    /// Writes a byte string: its tag, then the bytes as they are.
    pub fn new_binary(file: &mut FileWrapper, value: &[u8])
        ensures
            final(file)@ == old(file)@.written(LazyValueView::Binary(value@).encoding()),
    {
        let bytes = encode(&LazyValue::Binary(slice_to_vec(value)));
        file.write(bytes.as_slice());
    }

    /// Writes a boolean: one of two tags, and no payload.
    pub fn new_bool(file: &mut FileWrapper, value: bool)
        ensures
            final(file)@ == old(file)@.written(LazyValueView::Bool(value).encoding()),
    {
        let bytes = encode(&LazyValue::Bool(value));
        file.write(bytes.as_slice());
    }

    /// Writes a link to another place in the store: its tag, then the UTF-8
    /// bytes of the path.
    pub fn new_link(file: &mut FileWrapper, data: &str)
        ensures
            final(file)@ == old(file)@.written(LazyValueView::Link(data@).encoding()),
    {
        let bytes = encode(&LazyValue::Link(data.to_owned()));
        file.write(bytes.as_slice());
    }

    /// Writes a signed 8-bit number: its tag, then its bytes, most significant first.
    pub fn new_i8(file: &mut FileWrapper, value: i8)
        ensures
            final(file)@ == old(file)@.written(LazyValueView::I8(value).encoding()),
    {
        let bytes = encode(&LazyValue::I8(value));
        file.write(bytes.as_slice());
    }

    /// Writes a signed 16-bit number: its tag, then its bytes, most significant first.
    pub fn new_i16(file: &mut FileWrapper, value: i16)
        ensures
            final(file)@ == old(file)@.written(LazyValueView::I16(value).encoding()),
    {
        let bytes = encode(&LazyValue::I16(value));
        file.write(bytes.as_slice());
    }

    /// Writes a signed 32-bit number: its tag, then its bytes, most significant first.
    pub fn new_i32(file: &mut FileWrapper, value: i32)
        ensures
            final(file)@ == old(file)@.written(LazyValueView::I32(value).encoding()),
    {
        let bytes = encode(&LazyValue::I32(value));
        file.write(bytes.as_slice());
    }

    /// Writes a signed 64-bit number: its tag, then its bytes, most significant first.
    pub fn new_i64(file: &mut FileWrapper, value: i64)
        ensures
            final(file)@ == old(file)@.written(LazyValueView::I64(value).encoding()),
    {
        let bytes = encode(&LazyValue::I64(value));
        file.write(bytes.as_slice());
    }

    /// Writes a signed 128-bit number: its tag, then its bytes, most significant first.
    pub fn new_i128(file: &mut FileWrapper, value: i128)
        ensures
            final(file)@ == old(file)@.written(LazyValueView::I128(value).encoding()),
    {
        let bytes = encode(&LazyValue::I128(value));
        file.write(bytes.as_slice());
    }

    /// Writes an unsigned 8-bit number: its tag, then its bytes, most significant first.
    pub fn new_u8(file: &mut FileWrapper, value: u8)
        ensures
            final(file)@ == old(file)@.written(LazyValueView::U8(value).encoding()),
    {
        let bytes = encode(&LazyValue::U8(value));
        file.write(bytes.as_slice());
    }

    /// Writes an unsigned 16-bit number: its tag, then its bytes, most significant first.
    pub fn new_u16(file: &mut FileWrapper, value: u16)
        ensures
            final(file)@ == old(file)@.written(LazyValueView::U16(value).encoding()),
    {
        let bytes = encode(&LazyValue::U16(value));
        file.write(bytes.as_slice());
    }

    /// Writes an unsigned 32-bit number: its tag, then its bytes, most significant first.
    pub fn new_u32(file: &mut FileWrapper, value: u32)
        ensures
            final(file)@ == old(file)@.written(LazyValueView::U32(value).encoding()),
    {
        let bytes = encode(&LazyValue::U32(value));
        file.write(bytes.as_slice());
    }

    /// Writes an unsigned 64-bit number: its tag, then its bytes, most significant first.
    pub fn new_u64(file: &mut FileWrapper, value: u64)
        ensures
            final(file)@ == old(file)@.written(LazyValueView::U64(value).encoding()),
    {
        let bytes = encode(&LazyValue::U64(value));
        file.write(bytes.as_slice());
    }

    /// Writes an unsigned 128-bit number: its tag, then its bytes, most significant first.
    pub fn new_u128(file: &mut FileWrapper, value: u128)
        ensures
            final(file)@ == old(file)@.written(LazyValueView::U128(value).encoding()),
    {
        let bytes = encode(&LazyValue::U128(value));
        file.write(bytes.as_slice());
    }

    /// Writes a 32-bit float, given by its bit pattern: its tag, then its
    /// bytes, most significant first.
    pub fn new_f32(file: &mut FileWrapper, value: F32Bits)
        ensures
            final(file)@ == old(file)@.written(LazyValueView::F32(value).encoding()),
    {
        let bytes = encode(&LazyValue::F32(value));
        file.write(bytes.as_slice());
    }

    /// Writes a 64-bit float, given by its bit pattern: its tag, then its
    /// bytes, most significant first.
    pub fn new_f64(file: &mut FileWrapper, value: F64Bits)
        ensures
            final(file)@ == old(file)@.written(LazyValueView::F64(value).encoding()),
    {
        let bytes = encode(&LazyValue::F64(value));
        file.write(bytes.as_slice());
    }

    /// Writes an array of signed 8-bit numbers: the array tag, the tag of the element type,
    /// then the elements one after the other.
    pub fn new_i8_array(file: &mut FileWrapper, value: &[i8])
        ensures
            final(file)@ == old(file)@.written(LazyValueView::I8Array(value@).encoding()),
    {
        let bytes = encode(&LazyValue::I8Array(slice_to_vec(value)));
        file.write(bytes.as_slice());
    }

    /// Writes an array of signed 16-bit numbers: the array tag, the tag of the element type,
    /// then the elements one after the other.
    pub fn new_i16_array(file: &mut FileWrapper, value: &[i16])
        ensures
            final(file)@ == old(file)@.written(LazyValueView::I16Array(value@).encoding()),
    {
        let bytes = encode(&LazyValue::I16Array(slice_to_vec(value)));
        file.write(bytes.as_slice());
    }

    /// Writes an array of signed 32-bit numbers: the array tag, the tag of the element type,
    /// then the elements one after the other.
    pub fn new_i32_array(file: &mut FileWrapper, value: &[i32])
        ensures
            final(file)@ == old(file)@.written(LazyValueView::I32Array(value@).encoding()),
    {
        let bytes = encode(&LazyValue::I32Array(slice_to_vec(value)));
        file.write(bytes.as_slice());
    }

    /// Writes an array of signed 64-bit numbers: the array tag, the tag of the element type,
    /// then the elements one after the other.
    pub fn new_i64_array(file: &mut FileWrapper, value: &[i64])
        ensures
            final(file)@ == old(file)@.written(LazyValueView::I64Array(value@).encoding()),
    {
        let bytes = encode(&LazyValue::I64Array(slice_to_vec(value)));
        file.write(bytes.as_slice());
    }

    /// Writes an array of signed 128-bit numbers: the array tag, the tag of the element type,
    /// then the elements one after the other.
    pub fn new_i128_array(file: &mut FileWrapper, value: &[i128])
        ensures
            final(file)@ == old(file)@.written(LazyValueView::I128Array(value@).encoding()),
    {
        let bytes = encode(&LazyValue::I128Array(slice_to_vec(value)));
        file.write(bytes.as_slice());
    }

    /// Writes an array of unsigned 8-bit numbers: the array tag, the tag of the element type,
    /// then the elements one after the other.
    pub fn new_u8_array(file: &mut FileWrapper, value: &[u8])
        ensures
            final(file)@ == old(file)@.written(LazyValueView::U8Array(value@).encoding()),
    {
        let bytes = encode(&LazyValue::U8Array(slice_to_vec(value)));
        file.write(bytes.as_slice());
    }

    /// Writes an array of unsigned 16-bit numbers: the array tag, the tag of the element type,
    /// then the elements one after the other.
    pub fn new_u16_array(file: &mut FileWrapper, value: &[u16])
        ensures
            final(file)@ == old(file)@.written(LazyValueView::U16Array(value@).encoding()),
    {
        let bytes = encode(&LazyValue::U16Array(slice_to_vec(value)));
        file.write(bytes.as_slice());
    }

    /// Writes an array of unsigned 32-bit numbers: the array tag, the tag of the element type,
    /// then the elements one after the other.
    pub fn new_u32_array(file: &mut FileWrapper, value: &[u32])
        ensures
            final(file)@ == old(file)@.written(LazyValueView::U32Array(value@).encoding()),
    {
        let bytes = encode(&LazyValue::U32Array(slice_to_vec(value)));
        file.write(bytes.as_slice());
    }

    /// Writes an array of unsigned 64-bit numbers: the array tag, the tag of the element type,
    /// then the elements one after the other.
    pub fn new_u64_array(file: &mut FileWrapper, value: &[u64])
        ensures
            final(file)@ == old(file)@.written(LazyValueView::U64Array(value@).encoding()),
    {
        let bytes = encode(&LazyValue::U64Array(slice_to_vec(value)));
        file.write(bytes.as_slice());
    }

    /// Writes an array of unsigned 128-bit numbers: the array tag, the tag of the element type,
    /// then the elements one after the other.
    pub fn new_u128_array(file: &mut FileWrapper, value: &[u128])
        ensures
            final(file)@ == old(file)@.written(LazyValueView::U128Array(value@).encoding()),
    {
        let bytes = encode(&LazyValue::U128Array(slice_to_vec(value)));
        file.write(bytes.as_slice());
    }

    /// Writes an array of 32-bit floats, given by their bit patterns: the
    /// array tag, the tag of the element type, then the elements one after
    /// the other.
    pub fn new_f32_array(file: &mut FileWrapper, value: &[F32Bits])
        ensures
            final(file)@ == old(file)@.written(LazyValueView::F32Array(value@).encoding()),
    {
        let bytes = encode(&LazyValue::F32Array(slice_to_vec(value)));
        file.write(bytes.as_slice());
    }

    /// Writes an array of 64-bit floats, given by their bit patterns: the
    /// array tag, the tag of the element type, then the elements one after
    /// the other.
    pub fn new_f64_array(file: &mut FileWrapper, value: &[F64Bits])
        ensures
            final(file)@ == old(file)@.written(LazyValueView::F64Array(value@).encoding()),
    {
        let bytes = encode(&LazyValue::F64Array(slice_to_vec(value)));
        file.write(bytes.as_slice());
    }
}

} // verus!
