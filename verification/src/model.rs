//! How decoding functions are specified.
//!
//! Every decoding function has a model: a `spec_*` function from the bytes it
//! is given to either the number of bytes it uses together with the value it
//! yields, or the error it fails with. The executable function returns the
//! value together with the input that remains, and its contract is
//! [`refines`] against the model.

use vstd::prelude::*;
use crate::error::DecodeError;

verus! {

/// How an executable result relates to the model of a decoding step on `input`:
/// on success the value's view is the model's value and the returned tail is
/// `input` without the bytes used; on failure the error is the model's error.
pub open spec fn refines<T: View>(
    r: Result<(&[u8], T), DecodeError>,
    input: Seq<u8>,
    model: Result<(int, T::V), DecodeError>,
) -> bool {
    match model {
        Ok((used, value)) => r matches Ok((rest, x)) && rest@ == input.skip(used) && x@ == value,
        Err(e) => r matches Err(f) && f == e,
    }
}

/// Whether `a` and `b` both have at least `n` bytes and hold the same first `n`.
pub open spec fn agree_on_prefix(a: Seq<u8>, b: Seq<u8>, n: int) -> bool {
    &&& n <= a.len()
    &&& n <= b.len()
    &&& forall|i: int| 0 <= i < n ==> a[i] == b[i]
}

} // verus!
