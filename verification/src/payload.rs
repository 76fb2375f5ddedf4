//! The value handed to a put: a `bytes::Bytes`, read through its contents.

use vstd::prelude::*;
use bytes::Bytes;

verus! {

/// `bytes::Bytes`, taken as it is: nothing inside it is visible here.
#[verifier::external_type_specification]
#[verifier::external_body]
pub struct ExBytes(bytes::Bytes);

/// The bytes that a `Bytes` holds, in order: what its slice shows. Nothing
/// more is said of it anywhere.
pub uninterp spec fn bytes_contents(b: Bytes) -> Seq<u8>;

/// `Bytes::as_ref`: the slice that a `Bytes` stands for. The slice holds
/// exactly the contents of the value, and borrowing it changes nothing.
#[verifier::external_body]
pub(crate) fn bytes_as_slice(b: &Bytes) -> (s: &[u8])
    ensures
        s@ == bytes_contents(*b),
{
    b.as_ref()
}

} // verus!
