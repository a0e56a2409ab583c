//! Constant C strings: byte strings that end in a nul and hold no other nul.
use vstd::prelude::*;

verus! {

/// Bytes that form a C string: a nul at the end and nowhere else.
pub open spec fn valid_cstr(bytes: Seq<u8>) -> bool {
    &&& bytes.len() >= 1
    &&& bytes.last() == 0
    &&& forall|i: int| 0 <= i < bytes.len() - 1 ==> bytes[i] != 0
}

/// A C string kept as its bytes, nul included.
#[derive(Debug, Copy, Clone)]
pub struct ConstCstr<'a> {
    pub bytes: &'a [u8],
}

/// Make a constant C string of bytes (which should end in their only nul).
pub fn const_cstr<'a>(t: &'a [u8]) -> (r: ConstCstr<'a>)
    ensures
        r.bytes@ == t@,
{
    ConstCstr { bytes: t }
}

impl<'a> ConstCstr<'a> {
    /// The string's bytes without the nul.
    pub fn to_bytes(&self) -> (r: &'a [u8])
        requires
            valid_cstr(self.bytes@),
        ensures
            r@ == self.bytes@.drop_last(),
    {
        let n = self.bytes.len() - 1;
        proof {
            assert(self.bytes@.subrange(0, n as int) =~= self.bytes@.drop_last());
        }
        slice_prefix(self.bytes, n)
    }

    /// Whether the string equals a C string given by its bytes, nul included.
    pub fn eq_bytes(&self, other: &[u8]) -> (r: bool)
        requires
            valid_cstr(self.bytes@),
        ensures
            r == (self.bytes@ == other@),
    {
        if self.bytes.len() != other.len() {
            return false;
        }
        let mut i: usize = 0;
        while i < other.len()
            invariant
                self.bytes@.len() == other@.len(),
                i <= other@.len(),
                forall|j: int| 0 <= j < i ==> self.bytes@[j] == other@[j],
            decreases other@.len() - i,
        {
            if self.bytes[i] != other[i] {
                return false;
            }
            i = i + 1;
        }
        assert(self.bytes@ =~= other@);
        true
    }
}

/// The first `n` items of a slice.
fn slice_prefix<'a>(s: &'a [u8], n: usize) -> (r: &'a [u8])
    requires
        n <= s@.len(),
    ensures
        r@ == s@.subrange(0, n as int),
{
    vstd::slice::slice_subrange(s, 0, n)
}

} // verus!
