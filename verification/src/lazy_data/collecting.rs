//! Collecting values: one function for each type that the store can hold.
//!
//! Each of them decodes the payload as a value of its own type and fails
//! with the error that names both types when the stored tag belongs to
//! another type.

use vstd::prelude::*;
use vstd::pervasive::unreached;
use crate::codec::{LazyValue, LazyValueView};
use crate::error::LDBError;
use crate::lazy_data::LazyData;
use crate::lazy_type::{LazyNumType, LazyType};
use crate::number::{F32Bits, F64Bits};

verus! {

impl LazyData {
    /// Collects the value that holds nothing.
    pub fn collect_void(self) -> (result: Result<(), LDBError>)
        ensures
            self.value_as(LazyType::Void) == match result {
                Ok(_) => Ok(LazyValueView::Void),
                Err(error) => Err(error@),
            },
    {
        match self.collect_as(LazyType::Void) {
            Ok(LazyValue::Void) => Ok(()),
            Ok(_) => unreached(),
            Err(error) => Err(error),
        }
    }

    /// Collects a boolean.
    pub fn collect_bool(self) -> (result: Result<bool, LDBError>)
        ensures
            self.value_as(LazyType::True) == match result {
                Ok(flag) => Ok(LazyValueView::Bool(flag)),
                Err(error) => Err(error@),
            },
    {
        match self.collect_as(LazyType::True) {
            Ok(LazyValue::Bool(flag)) => Ok(flag),
            Ok(_) => unreached(),
            Err(error) => Err(error),
        }
    }

    /// Collects a text.
    pub fn collect_string(self) -> (result: Result<String, LDBError>)
        ensures
            self.value_as(LazyType::String) == match result {
                Ok(text) => Ok(LazyValueView::String(text@)),
                Err(error) => Err(error@),
            },
    {
        match self.collect_as(LazyType::String) {
            Ok(LazyValue::String(text)) => Ok(text),
            Ok(_) => unreached(),
            Err(error) => Err(error),
        }
    }

    /// Collects a byte string.
    pub fn collect_binary(self) -> (result: Result<Vec<u8>, LDBError>)
        ensures
            self.value_as(LazyType::Binary) == match result {
                Ok(bytes) => Ok(LazyValueView::Binary(bytes@)),
                Err(error) => Err(error@),
            },
    {
        match self.collect_as(LazyType::Binary) {
            Ok(LazyValue::Binary(bytes)) => Ok(bytes),
            Ok(_) => unreached(),
            Err(error) => Err(error),
        }
    }

    /// Collects a link: the path that it holds.
    pub fn collect_link(self) -> (result: Result<String, LDBError>)
        ensures
            self.value_as(LazyType::Link) == match result {
                Ok(path) => Ok(LazyValueView::Link(path@)),
                Err(error) => Err(error@),
            },
    {
        match self.collect_as(LazyType::Link) {
            Ok(LazyValue::Link(path)) => Ok(path),
            Ok(_) => unreached(),
            Err(error) => Err(error),
        }
    }

    /// Collects a signed 8-bit number.
    pub fn collect_i8(self) -> (result: Result<i8, LDBError>)
        ensures
            self.value_as(LazyType::Num(LazyNumType::I8)) == match result {
                Ok(number) => Ok(LazyValueView::I8(number)),
                Err(error) => Err(error@),
            },
    {
        match self.collect_as(LazyType::Num(LazyNumType::I8)) {
            Ok(LazyValue::I8(number)) => Ok(number),
            Ok(_) => unreached(),
            Err(error) => Err(error),
        }
    }

    /// Collects a signed 16-bit number.
    pub fn collect_i16(self) -> (result: Result<i16, LDBError>)
        ensures
            self.value_as(LazyType::Num(LazyNumType::I16)) == match result {
                Ok(number) => Ok(LazyValueView::I16(number)),
                Err(error) => Err(error@),
            },
    {
        match self.collect_as(LazyType::Num(LazyNumType::I16)) {
            Ok(LazyValue::I16(number)) => Ok(number),
            Ok(_) => unreached(),
            Err(error) => Err(error),
        }
    }

    /// Collects a signed 32-bit number.
    pub fn collect_i32(self) -> (result: Result<i32, LDBError>)
        ensures
            self.value_as(LazyType::Num(LazyNumType::I32)) == match result {
                Ok(number) => Ok(LazyValueView::I32(number)),
                Err(error) => Err(error@),
            },
    {
        match self.collect_as(LazyType::Num(LazyNumType::I32)) {
            Ok(LazyValue::I32(number)) => Ok(number),
            Ok(_) => unreached(),
            Err(error) => Err(error),
        }
    }

    /// Collects a signed 64-bit number.
    pub fn collect_i64(self) -> (result: Result<i64, LDBError>)
        ensures
            self.value_as(LazyType::Num(LazyNumType::I64)) == match result {
                Ok(number) => Ok(LazyValueView::I64(number)),
                Err(error) => Err(error@),
            },
    {
        match self.collect_as(LazyType::Num(LazyNumType::I64)) {
            Ok(LazyValue::I64(number)) => Ok(number),
            Ok(_) => unreached(),
            Err(error) => Err(error),
        }
    }

    /// Collects a signed 128-bit number.
    pub fn collect_i128(self) -> (result: Result<i128, LDBError>)
        ensures
            self.value_as(LazyType::Num(LazyNumType::I128)) == match result {
                Ok(number) => Ok(LazyValueView::I128(number)),
                Err(error) => Err(error@),
            },
    {
        match self.collect_as(LazyType::Num(LazyNumType::I128)) {
            Ok(LazyValue::I128(number)) => Ok(number),
            Ok(_) => unreached(),
            Err(error) => Err(error),
        }
    }

    /// Collects an unsigned 8-bit number.
    pub fn collect_u8(self) -> (result: Result<u8, LDBError>)
        ensures
            self.value_as(LazyType::Num(LazyNumType::U8)) == match result {
                Ok(number) => Ok(LazyValueView::U8(number)),
                Err(error) => Err(error@),
            },
    {
        match self.collect_as(LazyType::Num(LazyNumType::U8)) {
            Ok(LazyValue::U8(number)) => Ok(number),
            Ok(_) => unreached(),
            Err(error) => Err(error),
        }
    }

    /// Collects an unsigned 16-bit number.
    pub fn collect_u16(self) -> (result: Result<u16, LDBError>)
        ensures
            self.value_as(LazyType::Num(LazyNumType::U16)) == match result {
                Ok(number) => Ok(LazyValueView::U16(number)),
                Err(error) => Err(error@),
            },
    {
        match self.collect_as(LazyType::Num(LazyNumType::U16)) {
            Ok(LazyValue::U16(number)) => Ok(number),
            Ok(_) => unreached(),
            Err(error) => Err(error),
        }
    }

    /// Collects an unsigned 32-bit number.
    pub fn collect_u32(self) -> (result: Result<u32, LDBError>)
        ensures
            self.value_as(LazyType::Num(LazyNumType::U32)) == match result {
                Ok(number) => Ok(LazyValueView::U32(number)),
                Err(error) => Err(error@),
            },
    {
        match self.collect_as(LazyType::Num(LazyNumType::U32)) {
            Ok(LazyValue::U32(number)) => Ok(number),
            Ok(_) => unreached(),
            Err(error) => Err(error),
        }
    }

    /// Collects an unsigned 64-bit number.
    pub fn collect_u64(self) -> (result: Result<u64, LDBError>)
        ensures
            self.value_as(LazyType::Num(LazyNumType::U64)) == match result {
                Ok(number) => Ok(LazyValueView::U64(number)),
                Err(error) => Err(error@),
            },
    {
        match self.collect_as(LazyType::Num(LazyNumType::U64)) {
            Ok(LazyValue::U64(number)) => Ok(number),
            Ok(_) => unreached(),
            Err(error) => Err(error),
        }
    }

    /// Collects an unsigned 128-bit number.
    pub fn collect_u128(self) -> (result: Result<u128, LDBError>)
        ensures
            self.value_as(LazyType::Num(LazyNumType::U128)) == match result {
                Ok(number) => Ok(LazyValueView::U128(number)),
                Err(error) => Err(error@),
            },
    {
        match self.collect_as(LazyType::Num(LazyNumType::U128)) {
            Ok(LazyValue::U128(number)) => Ok(number),
            Ok(_) => unreached(),
            Err(error) => Err(error),
        }
    }

    /// Collects a 32-bit float, as its bit pattern.
    pub fn collect_f32(self) -> (result: Result<F32Bits, LDBError>)
        ensures
            self.value_as(LazyType::Num(LazyNumType::F32)) == match result {
                Ok(number) => Ok(LazyValueView::F32(number)),
                Err(error) => Err(error@),
            },
    {
        match self.collect_as(LazyType::Num(LazyNumType::F32)) {
            Ok(LazyValue::F32(number)) => Ok(number),
            Ok(_) => unreached(),
            Err(error) => Err(error),
        }
    }

    /// Collects a 64-bit float, as its bit pattern.
    pub fn collect_f64(self) -> (result: Result<F64Bits, LDBError>)
        ensures
            self.value_as(LazyType::Num(LazyNumType::F64)) == match result {
                Ok(number) => Ok(LazyValueView::F64(number)),
                Err(error) => Err(error@),
            },
    {
        match self.collect_as(LazyType::Num(LazyNumType::F64)) {
            Ok(LazyValue::F64(number)) => Ok(number),
            Ok(_) => unreached(),
            Err(error) => Err(error),
        }
    }

    /// Collects an array of signed 8-bit numbers.
    pub fn collect_i8_array(self) -> (result: Result<Vec<i8>, LDBError>)
        ensures
            self.value_as(LazyType::Array(LazyNumType::I8)) == match result {
                Ok(items) => Ok(LazyValueView::I8Array(items@)),
                Err(error) => Err(error@),
            },
    {
        match self.collect_as(LazyType::Array(LazyNumType::I8)) {
            Ok(LazyValue::I8Array(items)) => Ok(items),
            Ok(_) => unreached(),
            Err(error) => Err(error),
        }
    }

    /// Collects an array of signed 16-bit numbers.
    pub fn collect_i16_array(self) -> (result: Result<Vec<i16>, LDBError>)
        ensures
            self.value_as(LazyType::Array(LazyNumType::I16)) == match result {
                Ok(items) => Ok(LazyValueView::I16Array(items@)),
                Err(error) => Err(error@),
            },
    {
        match self.collect_as(LazyType::Array(LazyNumType::I16)) {
            Ok(LazyValue::I16Array(items)) => Ok(items),
            Ok(_) => unreached(),
            Err(error) => Err(error),
        }
    }

    /// Collects an array of signed 32-bit numbers.
    pub fn collect_i32_array(self) -> (result: Result<Vec<i32>, LDBError>)
        ensures
            self.value_as(LazyType::Array(LazyNumType::I32)) == match result {
                Ok(items) => Ok(LazyValueView::I32Array(items@)),
                Err(error) => Err(error@),
            },
    {
        match self.collect_as(LazyType::Array(LazyNumType::I32)) {
            Ok(LazyValue::I32Array(items)) => Ok(items),
            Ok(_) => unreached(),
            Err(error) => Err(error),
        }
    }

    /// Collects an array of signed 64-bit numbers.
    pub fn collect_i64_array(self) -> (result: Result<Vec<i64>, LDBError>)
        ensures
            self.value_as(LazyType::Array(LazyNumType::I64)) == match result {
                Ok(items) => Ok(LazyValueView::I64Array(items@)),
                Err(error) => Err(error@),
            },
    {
        match self.collect_as(LazyType::Array(LazyNumType::I64)) {
            Ok(LazyValue::I64Array(items)) => Ok(items),
            Ok(_) => unreached(),
            Err(error) => Err(error),
        }
    }

    /// Collects an array of signed 128-bit numbers.
    pub fn collect_i128_array(self) -> (result: Result<Vec<i128>, LDBError>)
        ensures
            self.value_as(LazyType::Array(LazyNumType::I128)) == match result {
                Ok(items) => Ok(LazyValueView::I128Array(items@)),
                Err(error) => Err(error@),
            },
    {
        match self.collect_as(LazyType::Array(LazyNumType::I128)) {
            Ok(LazyValue::I128Array(items)) => Ok(items),
            Ok(_) => unreached(),
            Err(error) => Err(error),
        }
    }

    /// Collects an array of unsigned 8-bit numbers.
    pub fn collect_u8_array(self) -> (result: Result<Vec<u8>, LDBError>)
        ensures
            self.value_as(LazyType::Array(LazyNumType::U8)) == match result {
                Ok(items) => Ok(LazyValueView::U8Array(items@)),
                Err(error) => Err(error@),
            },
    {
        match self.collect_as(LazyType::Array(LazyNumType::U8)) {
            Ok(LazyValue::U8Array(items)) => Ok(items),
            Ok(_) => unreached(),
            Err(error) => Err(error),
        }
    }

    /// Collects an array of unsigned 16-bit numbers.
    pub fn collect_u16_array(self) -> (result: Result<Vec<u16>, LDBError>)
        ensures
            self.value_as(LazyType::Array(LazyNumType::U16)) == match result {
                Ok(items) => Ok(LazyValueView::U16Array(items@)),
                Err(error) => Err(error@),
            },
    {
        match self.collect_as(LazyType::Array(LazyNumType::U16)) {
            Ok(LazyValue::U16Array(items)) => Ok(items),
            Ok(_) => unreached(),
            Err(error) => Err(error),
        }
    }

    /// Collects an array of unsigned 32-bit numbers.
    pub fn collect_u32_array(self) -> (result: Result<Vec<u32>, LDBError>)
        ensures
            self.value_as(LazyType::Array(LazyNumType::U32)) == match result {
                Ok(items) => Ok(LazyValueView::U32Array(items@)),
                Err(error) => Err(error@),
            },
    {
        match self.collect_as(LazyType::Array(LazyNumType::U32)) {
            Ok(LazyValue::U32Array(items)) => Ok(items),
            Ok(_) => unreached(),
            Err(error) => Err(error),
        }
    }

    /// Collects an array of unsigned 64-bit numbers.
    pub fn collect_u64_array(self) -> (result: Result<Vec<u64>, LDBError>)
        ensures
            self.value_as(LazyType::Array(LazyNumType::U64)) == match result {
                Ok(items) => Ok(LazyValueView::U64Array(items@)),
                Err(error) => Err(error@),
            },
    {
        match self.collect_as(LazyType::Array(LazyNumType::U64)) {
            Ok(LazyValue::U64Array(items)) => Ok(items),
            Ok(_) => unreached(),
            Err(error) => Err(error),
        }
    }

    /// Collects an array of unsigned 128-bit numbers.
    pub fn collect_u128_array(self) -> (result: Result<Vec<u128>, LDBError>)
        ensures
            self.value_as(LazyType::Array(LazyNumType::U128)) == match result {
                Ok(items) => Ok(LazyValueView::U128Array(items@)),
                Err(error) => Err(error@),
            },
    {
        match self.collect_as(LazyType::Array(LazyNumType::U128)) {
            Ok(LazyValue::U128Array(items)) => Ok(items),
            Ok(_) => unreached(),
            Err(error) => Err(error),
        }
    }

    /// Collects an array of 32-bit floats, as their bit patterns.
    pub fn collect_f32_array(self) -> (result: Result<Vec<F32Bits>, LDBError>)
        ensures
            self.value_as(LazyType::Array(LazyNumType::F32)) == match result {
                Ok(items) => Ok(LazyValueView::F32Array(items@)),
                Err(error) => Err(error@),
            },
    {
        match self.collect_as(LazyType::Array(LazyNumType::F32)) {
            Ok(LazyValue::F32Array(items)) => Ok(items),
            Ok(_) => unreached(),
            Err(error) => Err(error),
        }
    }

    /// Collects an array of 64-bit floats, as their bit patterns.
    pub fn collect_f64_array(self) -> (result: Result<Vec<F64Bits>, LDBError>)
        ensures
            self.value_as(LazyType::Array(LazyNumType::F64)) == match result {
                Ok(items) => Ok(LazyValueView::F64Array(items@)),
                Err(error) => Err(error@),
            },
    {
        match self.collect_as(LazyType::Array(LazyNumType::F64)) {
            Ok(LazyValue::F64Array(items)) => Ok(items),
            Ok(_) => unreached(),
            Err(error) => Err(error),
        }
    }
}

} // verus!
