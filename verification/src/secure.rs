//! Scoped buffers for hash pre-images: zero when handed out, zeroed again
//! on release, and compared without an early exit.

use vstd::prelude::*;
use crate::errors::PodComError;

verus! {

/// A sequence of `n` zero bytes.
pub open spec fn zeros(n: nat) -> Seq<u8> {
    Seq::new(n, |i: int| 0u8)
}

/// An exclusively owned byte buffer that is zero when acquired and is
/// overwritten with zeroes when it goes out of scope, however that comes
/// about.
pub struct SecureBuffer {
    data: Vec<u8>,
}

impl View for SecureBuffer {
    type V = Seq<u8>;

    closed spec fn view(&self) -> Seq<u8> {
        self.data@
    }
}

/// Compares two byte strings. Unequal lengths answer at once; otherwise every
/// byte is looked at, whatever the earlier ones were.
pub fn constant_time_equals(a: &[u8], b: &[u8]) -> (r: bool)
    ensures
        r == (a@ == b@),
{
    if a.len() != b.len() {
        return false;
    }
    let n: usize = a.len();
    let mut diff: u8 = 0;
    let mut i: usize = 0;
    while i < n
        invariant
            i <= n,
            n == a@.len(),
            n == b@.len(),
            (diff == 0) == (forall|j: int| 0 <= j < i ==> a@[j] == b@[j]),
        decreases n - i,
    {
        let x: u8 = a[i];
        let y: u8 = b[i];
        assert((diff | (x ^ y)) == 0 <==> (diff == 0 && x == y)) by (bit_vector);
        diff = diff | (x ^ y);
        i += 1;
    }
    proof {
        if diff == 0 {
            assert(a@ =~= b@);
        }
    }
    diff == 0
}

/// Whether two 32-byte values are the same, found out in constant time.
pub fn digests_equal(a: &[u8; 32], b: &[u8; 32]) -> (r: bool)
    ensures
        r == (*a == *b),
{
    let r = constant_time_equals(a.as_slice(), b.as_slice());
    proof {
        if r {
            assert(*a =~= *b);
        }
    }
    r
}

impl SecureBuffer {
    /// Acquires a buffer of `size` zero bytes.
    pub fn new(size: usize) -> (r: Result<SecureBuffer, PodComError>)
        ensures
            r matches Ok(buffer) && buffer@ == zeros(size as nat),
    {
        let data: Vec<u8> = vec![0u8; size];
        assert(data@ =~= zeros(size as nat));
        Ok(SecureBuffer { data })
    }

    /// The content, to be written to.
    pub fn as_mut_slice(&mut self) -> (slice: &mut [u8])
        ensures
            slice@ == old(self)@,
            final(slice)@ == final(self)@,
    {
        self.data.as_mut_slice()
    }

    /// The content.
    pub fn as_slice(&self) -> (slice: &[u8])
        ensures
            slice@ == self@,
    {
        self.data.as_slice()
    }

    /// Whether the buffer holds exactly `other`, found out in constant time.
    pub fn secure_compare(&self, other: &[u8]) -> (r: bool)
        ensures
            r == (self@ == other@),
    {
        constant_time_equals(self.data.as_slice(), other)
    }

    /// Copies `source` into the buffer, which must be of the same length.
    pub fn copy_from_slice(&mut self, source: &[u8])
        requires
            old(self)@.len() == source@.len(),
        ensures
            final(self)@ == source@,
    {
        let n: usize = source.len();
        let mut i: usize = 0;
        while i < n
            invariant
                i <= n,
                n == source@.len(),
                n == self.data@.len(),
                forall|j: int| 0 <= j < i ==> self.data@[j] == source@[j],
            decreases n - i,
        {
            self.data[i] = source[i];
            i += 1;
        }
        assert(self.data@ =~= source@);
    }

    /// Overwrites the content with zeroes, keeping the length.
    pub fn zeroize(&mut self)
        ensures
            final(self)@ == zeros(old(self)@.len()),
    {
        let n: usize = self.data.len();
        let mut i: usize = 0;
        while i < n
            invariant
                i <= n,
                n == self.data@.len(),
                forall|j: int| 0 <= j < i ==> self.data@[j] == 0u8,
            decreases n - i,
        {
            self.data[i] = 0u8;
            i += 1;
        }
        assert(self.data@ =~= zeros(n as nat));
    }
}

impl Drop for SecureBuffer {
    /// Calls `fill` of std's slices with 0 on the content.
    #[verifier::external_body]
    fn drop(&mut self)
        opens_invariants none
        no_unwind
    {
        self.data.fill(0);
    }
}

} // verus!
