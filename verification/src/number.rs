//! Fixed-width numbers and their big-endian bytes.
//!
//! Every number type is mapped one to one onto the natural numbers below
//! `256^width`: an unsigned number onto itself, a signed number onto its
//! two's complement, a float onto its bit pattern. That image is what is
//! stored, most significant byte first.

use vstd::prelude::*;
use crate::lazy_type::LazyNumType;

verus! {

/// 256 to the power of `n`: the number of values that `n` bytes can hold.
pub open spec fn pow256(n: nat) -> nat
    decreases n,
{
    if n == 0 {
        1
    } else {
        256 * pow256((n - 1) as nat)
    }
}

/// The `width` low bytes of `x`, most significant first.
pub open spec fn be_bytes(x: nat, width: nat) -> Seq<u8>
    decreases width,
{
    if width == 0 {
        Seq::empty()
    } else {
        be_bytes(x / 256, (width - 1) as nat).push((x % 256) as u8)
    }
}

/// The number that `bytes` spell, most significant byte first.
pub open spec fn be_value(bytes: Seq<u8>) -> nat
    decreases bytes.len(),
{
    if bytes.len() == 0 {
        0
    } else {
        be_value(bytes.drop_last()) * 256 + bytes.last() as nat
    }
}

/// The powers of 256 for the widths in use.
pub proof fn lemma_pow256_values()
    ensures
        pow256(0) == 1,
        pow256(1) == 0x100,
        pow256(2) == 0x1_0000,
        pow256(4) == 0x1_0000_0000,
        pow256(8) == 0x1_0000_0000_0000_0000,
        pow256(16) == 0x1_0000_0000_0000_0000_0000_0000_0000_0000,
{
    reveal_with_fuel(pow256, 3);
    assert(pow256(2) == 0x1_0000);
    assert(pow256(4) == 0x1_0000_0000);
    assert(pow256(6) == 0x1_0000_0000_0000);
    assert(pow256(8) == 0x1_0000_0000_0000_0000);
    assert(pow256(10) == 0x1_0000_0000_0000_0000_0000);
    assert(pow256(12) == 0x1_0000_0000_0000_0000_0000_0000);
    assert(pow256(14) == 0x1_0000_0000_0000_0000_0000_0000_0000);
    assert(pow256(16) == 0x1_0000_0000_0000_0000_0000_0000_0000_0000);
}

/// The powers of 256 grow with the exponent.
pub proof fn lemma_pow256_monotonic(a: nat, b: nat)
    requires
        a <= b,
    ensures
        1 <= pow256(a) <= pow256(b),
    decreases b,
{
    if b == 0 {
    } else if a == b {
        lemma_pow256_monotonic(0, (b - 1) as nat);
    } else {
        lemma_pow256_monotonic(a, (b - 1) as nat);
    }
}

/// A number is written in as many bytes as the width says.
pub proof fn lemma_be_bytes_len(x: nat, width: nat)
    ensures
        be_bytes(x, width).len() == width,
    decreases width,
{
    if width > 0 {
        lemma_be_bytes_len(x / 256, (width - 1) as nat);
    }
}

/// What bytes spell is below 256 to the power of their count.
pub proof fn lemma_be_value_bound(bytes: Seq<u8>)
    ensures
        be_value(bytes) < pow256(bytes.len()),
    decreases bytes.len(),
{
    if bytes.len() > 0 {
        lemma_be_value_bound(bytes.drop_last());
    }
}

/// Reading back what was written gives the number, when the number fits the
/// width.
pub proof fn lemma_be_value_of_be_bytes(x: nat, width: nat)
    requires
        x < pow256(width),
    ensures
        be_value(be_bytes(x, width)) == x,
    decreases width,
{
    if width > 0 {
        let rest = be_bytes(x / 256, (width - 1) as nat);
        lemma_be_value_of_be_bytes(x / 256, (width - 1) as nat);
        assert(be_bytes(x, width).drop_last() =~= rest);
        assert(be_bytes(x, width).last() == (x % 256) as u8);
    }
}

/// Writing what was read gives the bytes again.
pub proof fn lemma_be_bytes_of_be_value(bytes: Seq<u8>)
    ensures
        be_bytes(be_value(bytes), bytes.len()) == bytes,
    decreases bytes.len(),
{
    if bytes.len() > 0 {
        let x = be_value(bytes);
        let front = bytes.drop_last();
        lemma_be_bytes_of_be_value(front);
        assert(x / 256 == be_value(front));
        assert(x % 256 == bytes.last() as nat);
        assert(be_bytes(x, bytes.len()) =~= bytes);
    } else {
        assert(be_bytes(be_value(bytes), 0) =~= bytes);
    }
}

/// Appends the `width` low bytes of `x` to `out`, most significant first.
pub(crate) fn push_be(out: &mut Vec<u8>, x: u128, width: usize)
    requires
        width <= 16,
    ensures
        final(out)@ == old(out)@ + be_bytes(x as nat, width as nat),
{
    let mut low_first: Vec<u8> = Vec::new();
    let mut rest: u128 = x;
    let mut i: usize = 0;
    while i < width
        invariant
            i <= width,
            low_first@.len() == i,
            be_bytes(x as nat, width as nat) == be_bytes(rest as nat, (width - i) as nat)
                + low_first@.reverse(),
        decreases width - i,
    {
        let ghost before = low_first@;
        low_first.push((rest % 256) as u8);
        proof {
            assert(low_first@.reverse() =~= seq![(rest % 256) as u8] + before.reverse());
            assert(be_bytes(rest as nat, (width - i) as nat) =~= be_bytes(
                (rest / 256) as nat,
                (width - i - 1) as nat,
            ) + seq![(rest % 256) as u8]);
        }
        rest = rest / 256;
        i += 1;
    }
    let mut j: usize = width;
    while j > 0
        invariant
            j <= width,
            low_first@.len() == width,
            out@ == old(out)@ + low_first@.reverse().subrange(0, width - j),
        decreases j,
    {
        j -= 1;
        out.push(low_first[j]);
        proof {
            let turned = low_first@.reverse();
            assert(turned[width - j - 1] == low_first@[j as int]);
            assert(turned.subrange(0, width - j) =~= turned.subrange(0, width - j - 1).push(
                turned[width - j - 1],
            ));
        }
    }
    proof {
        assert(low_first@.reverse().subrange(0, width as int) =~= low_first@.reverse());
        assert(be_bytes(rest as nat, 0) =~= Seq::<u8>::empty());
        assert(be_bytes(x as nat, width as nat) =~= low_first@.reverse());
    }
}

/// The number that the `width` bytes of `bytes` from `start` on spell, most
/// significant byte first.
pub(crate) fn read_be(bytes: &[u8], start: usize, width: usize) -> (x: u128)
    requires
        width <= 16,
        start + width <= bytes@.len(),
    ensures
        x as nat == be_value(bytes@.subrange(start as int, start + width)),
        (x as nat) < pow256(width as nat),
{
    let total: usize = bytes.len();
    let mut x: u128 = 0;
    let mut i: usize = 0;
    while i < width
        invariant
            i <= width <= 16,
            start + width <= bytes@.len() == total,
            x as nat == be_value(bytes@.subrange(start as int, start + i)),
            (x as nat) < pow256(i as nat),
        decreases width - i,
    {
        proof {
            lemma_pow256_monotonic((i + 1) as nat, 16);
            lemma_pow256_values();
            let longer = bytes@.subrange(start as int, start + i + 1);
            assert(longer.drop_last() =~= bytes@.subrange(start as int, start + i));
            assert(longer.last() == bytes@[start + i]);
        }
        x = x * 256 + bytes[start + i] as u128;
        i += 1;
    }
    x
}

/// A number type of fixed width that the store can hold.
///
/// `image` maps the type one to one onto the natural numbers below
/// `256^width`, and `of_image` maps them back.
pub trait LazyNumber: Copy + Sized {
    /// The tag of this number type.
    spec fn num_type() -> LazyNumType;

    /// The natural number that stands for this value in storage.
    spec fn image(self) -> nat;

    /// The value that a natural number stands for.
    spec fn of_image(image: nat) -> Self;

    /// An image fits the type's width and leads back to its value.
    proof fn lemma_image(self)
        ensures
            self.image() < pow256(Self::num_type().spec_width()),
            Self::of_image(self.image()) == self,
    ;

    /// Every number that fits the type's width is the image of a value.
    proof fn lemma_of_image(image: nat)
        requires
            image < pow256(Self::num_type().spec_width()),
        ensures
            Self::of_image(image).image() == image,
    ;

    /// The tag of this number type.
    fn lazy_num_type() -> (num: LazyNumType)
        ensures
            num == Self::num_type(),
    ;

    /// The natural number that stands for this value in storage.
    fn to_image(self) -> (image: u128)
        ensures
            image as nat == self.image(),
    ;

    /// The value that a natural number stands for.
    fn from_image(image: u128) -> (value: Self)
        requires
            (image as nat) < pow256(Self::num_type().spec_width()),
        ensures
            value == Self::of_image(image as nat),
    ;
}

/// The bit pattern of a 32-bit IEEE-754 number.
#[derive(Clone, Copy, Debug, PartialEq, Eq, Structural)]
pub struct F32Bits(pub u32);

/// The bit pattern of a 64-bit IEEE-754 number.
#[derive(Clone, Copy, Debug, PartialEq, Eq, Structural)]
pub struct F64Bits(pub u64);

impl LazyNumber for u8 {
    open spec fn num_type() -> LazyNumType {
        LazyNumType::U8
    }

    open spec fn image(self) -> nat {
        self as nat
    }

    open spec fn of_image(image: nat) -> Self {
        image as u8
    }

    proof fn lemma_image(self) {
        lemma_pow256_values();
    }

    proof fn lemma_of_image(image: nat) {
        lemma_pow256_values();
    }

    fn lazy_num_type() -> (num: LazyNumType) {
        LazyNumType::U8
    }

    fn to_image(self) -> (image: u128) {
        self as u128
    }

    fn from_image(image: u128) -> (value: Self) {
        proof {
            lemma_pow256_values();
        }
        image as u8
    }
}

impl LazyNumber for u16 {
    open spec fn num_type() -> LazyNumType {
        LazyNumType::U16
    }

    open spec fn image(self) -> nat {
        self as nat
    }

    open spec fn of_image(image: nat) -> Self {
        image as u16
    }

    proof fn lemma_image(self) {
        lemma_pow256_values();
    }

    proof fn lemma_of_image(image: nat) {
        lemma_pow256_values();
    }

    fn lazy_num_type() -> (num: LazyNumType) {
        LazyNumType::U16
    }

    fn to_image(self) -> (image: u128) {
        self as u128
    }

    fn from_image(image: u128) -> (value: Self) {
        proof {
            lemma_pow256_values();
        }
        image as u16
    }
}

impl LazyNumber for u32 {
    open spec fn num_type() -> LazyNumType {
        LazyNumType::U32
    }

    open spec fn image(self) -> nat {
        self as nat
    }

    open spec fn of_image(image: nat) -> Self {
        image as u32
    }

    proof fn lemma_image(self) {
        lemma_pow256_values();
    }

    proof fn lemma_of_image(image: nat) {
        lemma_pow256_values();
    }

    fn lazy_num_type() -> (num: LazyNumType) {
        LazyNumType::U32
    }

    fn to_image(self) -> (image: u128) {
        self as u128
    }

    fn from_image(image: u128) -> (value: Self) {
        proof {
            lemma_pow256_values();
        }
        image as u32
    }
}

impl LazyNumber for u64 {
    open spec fn num_type() -> LazyNumType {
        LazyNumType::U64
    }

    open spec fn image(self) -> nat {
        self as nat
    }

    open spec fn of_image(image: nat) -> Self {
        image as u64
    }

    proof fn lemma_image(self) {
        lemma_pow256_values();
    }

    proof fn lemma_of_image(image: nat) {
        lemma_pow256_values();
    }

    fn lazy_num_type() -> (num: LazyNumType) {
        LazyNumType::U64
    }

    fn to_image(self) -> (image: u128) {
        self as u128
    }

    fn from_image(image: u128) -> (value: Self) {
        proof {
            lemma_pow256_values();
        }
        image as u64
    }
}

impl LazyNumber for u128 {
    open spec fn num_type() -> LazyNumType {
        LazyNumType::U128
    }

    open spec fn image(self) -> nat {
        self as nat
    }

    open spec fn of_image(image: nat) -> Self {
        image as u128
    }

    proof fn lemma_image(self) {
        lemma_pow256_values();
    }

    proof fn lemma_of_image(image: nat) {
        lemma_pow256_values();
    }

    fn lazy_num_type() -> (num: LazyNumType) {
        LazyNumType::U128
    }

    fn to_image(self) -> (image: u128) {
        self
    }

    fn from_image(image: u128) -> (value: Self) {
        proof {
            lemma_pow256_values();
        }
        image
    }
}

impl LazyNumber for i8 {
    open spec fn num_type() -> LazyNumType {
        LazyNumType::I8
    }

    open spec fn image(self) -> nat {
        if self >= 0 {
            self as nat
        } else {
            (self + 0x100) as nat
        }
    }

    open spec fn of_image(image: nat) -> Self {
        if image < 0x80 {
            image as i8
        } else {
            (image - 0x100) as i8
        }
    }

    proof fn lemma_image(self) {
        lemma_pow256_values();
    }

    proof fn lemma_of_image(image: nat) {
        lemma_pow256_values();
    }

    fn lazy_num_type() -> (num: LazyNumType) {
        LazyNumType::I8
    }

    fn to_image(self) -> (image: u128) {
        if self >= 0 {
            self as u128
        } else {
            (self as i128 + 0x100) as u128
        }
    }

    fn from_image(image: u128) -> (value: Self) {
        proof {
            lemma_pow256_values();
        }
        if image < 0x80 {
            image as i8
        } else {
            (image as i128 - 0x100) as i8
        }
    }
}

impl LazyNumber for i16 {
    open spec fn num_type() -> LazyNumType {
        LazyNumType::I16
    }

    open spec fn image(self) -> nat {
        if self >= 0 {
            self as nat
        } else {
            (self + 0x1_0000) as nat
        }
    }

    open spec fn of_image(image: nat) -> Self {
        if image < 0x8000 {
            image as i16
        } else {
            (image - 0x1_0000) as i16
        }
    }

    proof fn lemma_image(self) {
        lemma_pow256_values();
    }

    proof fn lemma_of_image(image: nat) {
        lemma_pow256_values();
    }

    fn lazy_num_type() -> (num: LazyNumType) {
        LazyNumType::I16
    }

    fn to_image(self) -> (image: u128) {
        if self >= 0 {
            self as u128
        } else {
            (self as i128 + 0x1_0000) as u128
        }
    }

    fn from_image(image: u128) -> (value: Self) {
        proof {
            lemma_pow256_values();
        }
        if image < 0x8000 {
            image as i16
        } else {
            (image as i128 - 0x1_0000) as i16
        }
    }
}

impl LazyNumber for i32 {
    open spec fn num_type() -> LazyNumType {
        LazyNumType::I32
    }

    open spec fn image(self) -> nat {
        if self >= 0 {
            self as nat
        } else {
            (self + 0x1_0000_0000) as nat
        }
    }

    open spec fn of_image(image: nat) -> Self {
        if image < 0x8000_0000 {
            image as i32
        } else {
            (image - 0x1_0000_0000) as i32
        }
    }

    proof fn lemma_image(self) {
        lemma_pow256_values();
    }

    proof fn lemma_of_image(image: nat) {
        lemma_pow256_values();
    }

    fn lazy_num_type() -> (num: LazyNumType) {
        LazyNumType::I32
    }

    fn to_image(self) -> (image: u128) {
        if self >= 0 {
            self as u128
        } else {
            (self as i128 + 0x1_0000_0000) as u128
        }
    }

    fn from_image(image: u128) -> (value: Self) {
        proof {
            lemma_pow256_values();
        }
        if image < 0x8000_0000 {
            image as i32
        } else {
            (image as i128 - 0x1_0000_0000) as i32
        }
    }
}

impl LazyNumber for i64 {
    open spec fn num_type() -> LazyNumType {
        LazyNumType::I64
    }

    open spec fn image(self) -> nat {
        if self >= 0 {
            self as nat
        } else {
            (self + 0x1_0000_0000_0000_0000) as nat
        }
    }

    open spec fn of_image(image: nat) -> Self {
        if image < 0x8000_0000_0000_0000 {
            image as i64
        } else {
            (image - 0x1_0000_0000_0000_0000) as i64
        }
    }

    proof fn lemma_image(self) {
        lemma_pow256_values();
    }

    proof fn lemma_of_image(image: nat) {
        lemma_pow256_values();
    }

    fn lazy_num_type() -> (num: LazyNumType) {
        LazyNumType::I64
    }

    fn to_image(self) -> (image: u128) {
        if self >= 0 {
            self as u128
        } else {
            (self as i128 + 0x1_0000_0000_0000_0000) as u128
        }
    }

    fn from_image(image: u128) -> (value: Self) {
        proof {
            lemma_pow256_values();
        }
        if image < 0x8000_0000_0000_0000 {
            image as i64
        } else {
            (image as i128 - 0x1_0000_0000_0000_0000) as i64
        }
    }
}

impl LazyNumber for i128 {
    open spec fn num_type() -> LazyNumType {
        LazyNumType::I128
    }

    open spec fn image(self) -> nat {
        if self >= 0 {
            self as nat
        } else {
            (self + 0x1_0000_0000_0000_0000_0000_0000_0000_0000) as nat
        }
    }

    open spec fn of_image(image: nat) -> Self {
        if image < 0x8000_0000_0000_0000_0000_0000_0000_0000 {
            image as i128
        } else {
            (image - 0x1_0000_0000_0000_0000_0000_0000_0000_0000) as i128
        }
    }

    proof fn lemma_image(self) {
        lemma_pow256_values();
    }

    proof fn lemma_of_image(image: nat) {
        lemma_pow256_values();
    }

    fn lazy_num_type() -> (num: LazyNumType) {
        LazyNumType::I128
    }

    fn to_image(self) -> (image: u128) {
        if self >= 0 {
            self as u128
        } else {
            (self - i128::MIN) as u128 + 0x8000_0000_0000_0000_0000_0000_0000_0000
        }
    }

    fn from_image(image: u128) -> (value: Self) {
        proof {
            lemma_pow256_values();
        }
        if image < 0x8000_0000_0000_0000_0000_0000_0000_0000 {
            image as i128
        } else {
            (image - 0x8000_0000_0000_0000_0000_0000_0000_0000) as i128 + i128::MIN
        }
    }
}

impl LazyNumber for F32Bits {
    open spec fn num_type() -> LazyNumType {
        LazyNumType::F32
    }

    open spec fn image(self) -> nat {
        self.0 as nat
    }

    open spec fn of_image(image: nat) -> Self {
        F32Bits(image as u32)
    }

    proof fn lemma_image(self) {
        lemma_pow256_values();
    }

    proof fn lemma_of_image(image: nat) {
        lemma_pow256_values();
    }

    fn lazy_num_type() -> (num: LazyNumType) {
        LazyNumType::F32
    }

    fn to_image(self) -> (image: u128) {
        self.0 as u128
    }

    fn from_image(image: u128) -> (value: Self) {
        proof {
            lemma_pow256_values();
        }
        F32Bits(image as u32)
    }
}

impl LazyNumber for F64Bits {
    open spec fn num_type() -> LazyNumType {
        LazyNumType::F64
    }

    open spec fn image(self) -> nat {
        self.0 as nat
    }

    open spec fn of_image(image: nat) -> Self {
        F64Bits(image as u64)
    }

    proof fn lemma_image(self) {
        lemma_pow256_values();
    }

    proof fn lemma_of_image(image: nat) {
        lemma_pow256_values();
    }

    fn lazy_num_type() -> (num: LazyNumType) {
        LazyNumType::F64
    }

    fn to_image(self) -> (image: u128) {
        self.0 as u128
    }

    fn from_image(image: u128) -> (value: Self) {
        proof {
            lemma_pow256_values();
        }
        F64Bits(image as u64)
    }
}

} // verus!
