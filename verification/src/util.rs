use vstd::pervasive::cloned;
use vstd::prelude::*;

verus! {

/// Turns an optional value into a result, supplying the error for the
/// empty case.
pub trait OptionAsResult<T: Clone, E> {
    /// The optional value the conversion reads.
    spec fn stored(&self) -> Option<T>;

    /// `Ok` with a clone of the stored value when there is one, otherwise
    /// `Err` with the supplied error.
    fn as_result(&self, error: E) -> (r: Result<T, E>)
        ensures
            r is Ok <==> self.stored() is Some,
            self.stored() is None ==> r == Err::<T, E>(error),
            self.stored() is Some ==> cloned(self.stored()->0, r->Ok_0),
    ;
}

impl<T: Clone, E> OptionAsResult<T, E> for Option<T> {
    open spec fn stored(&self) -> Option<T> {
        *self
    }

    fn as_result(&self, error: E) -> (r: Result<T, E>) {
        match self {
            Some(value) => Ok(value.clone()),
            None => Err(error),
        }
    }
}

/// Length of the filled prefix of a NUL-terminated buffer an OS call wrote:
/// the number of code units before the first zero, or the whole length
/// when no zero occurs.
pub fn nul_terminated_len(buffer: &Vec<u16>) -> (r: usize)
    ensures
        r <= buffer@.len(),
        forall|k: int| 0 <= k < r ==> buffer@[k] != 0,
        r < buffer@.len() ==> buffer@[r as int] == 0,
{
    let mut i: usize = 0;
    while i < buffer.len()
        invariant
            0 <= i <= buffer@.len(),
            forall|k: int| 0 <= k < i ==> buffer@[k] != 0,
        decreases buffer@.len() - i,
    {
        if buffer[i] == 0 {
            return i;
        }
        i += 1;
    }
    i
}

} // verus!
