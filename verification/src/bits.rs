use bitvec::array::BitArray;
use bitvec::order::Lsb0;
use vstd::prelude::*;

verus! {

/// The monochrome frame buffer: one bit per pixel, row by row, 64 pixels a row.
/// It holds a `bitvec` bit array, whose declaration Verus refuses, so the array stays
/// behind this opaque struct and its contents are named by `screen_pixels`.
#[verifier::external_body]
#[derive(Debug)]
pub struct Screen {
    bits: BitArray<[u8; 256], Lsb0>,
}

/// The 16-key keypad: one bit per key, set while the key is held down.
/// It holds a `bitvec` bit array behind this opaque struct; `keypad_keys` names its contents.
#[verifier::external_body]
#[derive(Debug)]
pub struct Keypad {
    bits: BitArray<[u8; 2], Lsb0>,
}

impl Clone for Screen {
    /// `BitArray::clone`: a copy of the same bits.
    #[verifier::external_body]
    fn clone(&self) -> (c: Self)
        ensures
            screen_pixels(c) == screen_pixels(*self),
    {
        Screen { bits: self.bits.clone() }
    }
}

impl Clone for Keypad {
    /// `BitArray::clone`: a copy of the same bits.
    #[verifier::external_body]
    fn clone(&self) -> (c: Self)
        ensures
            keypad_keys(c) == keypad_keys(*self),
    {
        Keypad { bits: self.bits.clone() }
    }
}

/// The pixels of a screen, in index order.
pub uninterp spec fn screen_pixels(s: Screen) -> Seq<bool>;

/// The key states of a keypad, indexed by key number.
pub uninterp spec fn keypad_keys(k: Keypad) -> Seq<bool>;

/// `BitArray::ZERO` for 256 bytes of `u8` storage: 2048 bits, all clear.
#[verifier::external_body]
pub(crate) fn screen_zero() -> (s: Screen)
    ensures
        screen_pixels(s) == Seq::new(2048, |i: int| false),
{
    Screen { bits: BitArray::ZERO }
}

/// `BitSlice` indexing (`bits[index]`) on the screen: reads one bit; panics out of bounds,
/// which `requires` rules out.
#[verifier::external_body]
pub(crate) fn screen_get(s: &Screen, index: usize) -> (b: bool)
    requires
        index < 2048,
        screen_pixels(*s).len() == 2048,
    ensures
        b == screen_pixels(*s)[index as int],
{
    s.bits[index]
}

/// `BitSlice::set` on the screen: writes one bit and leaves the others; panics out of
/// bounds, which `requires` rules out.
#[verifier::external_body]
pub(crate) fn screen_set(s: &mut Screen, index: usize, value: bool)
    requires
        index < 2048,
        screen_pixels(*old(s)).len() == 2048,
    ensures
        screen_pixels(*final(s)) == screen_pixels(*old(s)).update(index as int, value),
{
    s.bits.set(index, value)
}

/// `BitSlice::fill` on the screen: every bit takes the given value.
#[verifier::external_body]
pub(crate) fn screen_fill(s: &mut Screen, value: bool)
    ensures
        screen_pixels(*final(s)) == Seq::new(2048, |i: int| value),
{
    s.bits.fill(value)
}

/// Whether bit `k` of a byte is set, bit 0 being the least significant.
pub open spec fn lsb0_bit(byte: u8, k: int) -> bool {
    (byte >> (k as u8)) & 1 == 1
}

/// `BitArray::as_raw_slice` on the screen, copied into a vector: the 256 storage bytes. In
/// `Lsb0` order pixel `k` is bit `k % 8` (counting from the least significant) of byte `k / 8`.
#[verifier::external_body]
pub(crate) fn screen_bytes(s: &Screen) -> (bytes: Vec<u8>)
    requires
        screen_pixels(*s).len() == 2048,
    ensures
        bytes@.len() == 256,
        forall|k: int|
            0 <= k < 2048 ==> lsb0_bit(#[trigger] bytes@[k / 8], k % 8) == screen_pixels(*s)[k],
{
    s.bits.as_raw_slice().to_vec()
}

/// `BitArray::ZERO` for 2 bytes of `u8` storage: 16 bits, all clear.
#[verifier::external_body]
pub(crate) fn keypad_zero() -> (k: Keypad)
    ensures
        keypad_keys(k) == Seq::new(16, |i: int| false),
{
    Keypad { bits: BitArray::ZERO }
}

/// `BitSlice` indexing (`bits[index]`) on the keypad: reads one bit; panics out of bounds,
/// which `requires` rules out.
#[verifier::external_body]
pub(crate) fn keypad_get(k: &Keypad, index: usize) -> (b: bool)
    requires
        index < 16,
        keypad_keys(*k).len() == 16,
    ensures
        b == keypad_keys(*k)[index as int],
{
    k.bits[index]
}

/// `BitSlice::set` on the keypad: writes one bit and leaves the others; panics out of
/// bounds, which `requires` rules out.
#[verifier::external_body]
pub(crate) fn keypad_set(k: &mut Keypad, index: usize, value: bool)
    requires
        index < 16,
        keypad_keys(*old(k)).len() == 16,
    ensures
        keypad_keys(*final(k)) == keypad_keys(*old(k)).update(index as int, value),
{
    k.bits.set(index, value)
}

} // verus!
