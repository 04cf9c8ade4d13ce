//! Alignments: the byte boundaries that values start on.

use vstd::prelude::*;

verus! {

/// A byte boundary that a value must start on. It is never zero. It need not
/// be a power of two: an array is aligned to its stride.
#[derive(Clone, Copy, Debug, PartialEq, Eq, Hash)]
pub struct Alignment {
    raw: u32,
}

impl View for Alignment {
    type V = u32;

    closed spec fn view(&self) -> u32 {
        self.raw
    }
}

impl Alignment {
    #[verifier::type_invariant]
    spec fn nonzero(self) -> bool {
        self.raw != 0
    }

    /// The alignment of `raw` bytes, or `None` for zero, which is no
    /// alignment.
    pub fn new(raw: u32) -> (made: Option<Alignment>)
        ensures
            raw == 0 <==> made is None,
            made matches Some(a) ==> a@ == raw,
    {
        if raw == 0 {
            None
        } else {
            Some(Alignment { raw })
        }
    }

    /// The boundary in bytes.
    pub fn get(self) -> (raw: u32)
        ensures
            raw == self@,
            raw != 0,
    {
        proof {
            use_type_invariant(self);
        }
        self.raw
    }

    /// Two alignments of the same number of bytes are the same alignment.
    pub proof fn lemma_view_is_injective(a: Alignment, b: Alignment)
        requires
            a@ == b@,
        ensures
            a == b,
    {
    }
}

} // verus!
