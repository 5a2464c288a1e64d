//! Byte strings: what the library assumes of `bytes::Bytes`.
use bytes::Bytes;
use vstd::prelude::*;

verus! {

/// `bytes::Bytes`, a shared, immutable byte string. Verus sees nothing inside it; what it
/// holds is spoken of through [`octets`].
#[verifier::external_type_specification]
#[verifier::external_body]
pub struct ExBytes(bytes::Bytes);

/// The bytes that a `Bytes` holds, in order.
pub uninterp spec fn octets(b: Bytes) -> Seq<u8>;

/// `Bytes::new` makes a byte string with nothing in it.
pub assume_specification[ Bytes::new ]() -> (b: Bytes)
    ensures
        octets(b) == Seq::<u8>::empty(),
;

/// `Bytes::len` counts the bytes held.
pub assume_specification[ Bytes::len ](b: &Bytes) -> (n: usize)
    ensures
        n == octets(*b).len(),
;

/// `Bytes::is_empty` tells whether the string holds no byte.
pub assume_specification[ Bytes::is_empty ](b: &Bytes) -> (r: bool)
    ensures
        r == (octets(*b).len() == 0),
;

/// `Bytes::clone` gives a second handle on the same bytes.
pub assume_specification[ <Bytes as Clone>::clone ](b: &Bytes) -> (r: Bytes)
    ensures
        octets(r) == octets(*b),
;

/// `==` on `Bytes` compares the bytes held, and nothing else.
#[verifier::external_body]
pub(crate) fn same_octets(a: &Bytes, b: &Bytes) -> (r: bool)
    ensures
        r == (octets(*a) == octets(*b)),
{
    a == b
}

} // verus!
