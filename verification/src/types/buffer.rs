//! Fixed-capacity byte buffers and the alignment helpers of the wire format.
use vstd::prelude::*;
use vstd::slice::slice_subrange;

verus! {

/// `n` rounded up to the next multiple of `a`.
pub open spec fn round_up(n: int, a: int) -> int {
    ((n + a - 1) / a) * a
}

/// Rounding up reaches the next multiple and no further.
pub proof fn lemma_round_up(n: int, a: int)
    requires
        0 <= n,
        0 < a,
    ensures
        round_up(n, a) >= n,
        round_up(n, a) < n + a,
        round_up(n, a) % a == 0,
{
    let q = (n + a - 1) / a;
    vstd::arithmetic::div_mod::lemma_fundamental_div_mod(n + a - 1, a);
    vstd::arithmetic::div_mod::lemma_mod_bound(n + a - 1, a);
    vstd::arithmetic::div_mod::lemma_mod_multiples_basic(q, a);
}

/// Width of a pointer in bytes on the target.
pub open spec fn spec_ptr_size() -> int {
    (usize::BITS / 8) as int
}

/// Width of a pointer in bytes on the target.
pub fn ptr_size() -> (r: usize)
    ensures
        r == spec_ptr_size(),
        r == 4 || r == 8,
{
    (usize::BITS / 8) as usize
}

/// Rounds a byte length up to the next 32-bit word boundary.
///
/// Wire messages never exceed 65532 bytes, so neither does `len`.
pub fn align32(len: usize) -> (r: u16)
    requires
        len <= 65532,
    ensures
        r as int == round_up(len as int, 4),
        r >= len,
        r < len + 4,
        r % 4 == 0,
{
    let l: u16 = len as u16;
    let m: u16 = l + 3;
    assert(m & 0xFFFC == (m / 4) * 4) by (bit_vector);
    m & 0xFFFC
}

/// Rounds a byte length up to the next multiple of the pointer width.
pub fn alignptr(len: usize) -> (r: usize)
    requires
        len + spec_ptr_size() - 1 <= usize::MAX,
    ensures
        r as int == round_up(len as int, spec_ptr_size()),
        r >= len,
        r < len + spec_ptr_size(),
        r % (spec_ptr_size() as usize) == 0,
{
    let p = ptr_size();
    let q = (len + (p - 1)) / p;
    proof {
        lemma_round_up(len as int, p as int);
    }
    q * p
}

/// A byte region of fixed capacity `N` with a used-length counter.
///
/// The view is the used region; `storage` is the whole backing array.
#[derive(Debug)]
pub struct Buffer<const N: usize> {
    data: [u8; N],
    len: usize,
}

impl<const N: usize> View for Buffer<N> {
    type V = Seq<u8>;

    closed spec fn view(&self) -> Seq<u8> {
        self.data@.subrange(0, self.len as int)
    }
}

impl<const N: usize> Buffer<N> {
    #[verifier::type_invariant]
    closed spec fn inv(self) -> bool {
        self.len <= N
    }

    /// The backing array, used or not: always `N` bytes.
    pub closed spec fn storage(&self) -> Seq<u8> {
        self.data@
    }

    /// An empty buffer over zeroed storage.
    pub fn new() -> (b: Self)
        ensures
            b@ == Seq::<u8>::empty(),
            b.storage() == Seq::new(N as nat, |i: int| 0u8),
    {
        Buffer { data: [0u8; N], len: 0 }
    }

    /// Number of used bytes.
    pub fn len(&self) -> (l: usize)
        ensures
            l == self@.len(),
            l <= N,
    {
        proof {
            use_type_invariant(self);
        }
        self.len
    }

    /// Size of the backing array.
    pub fn capacity(&self) -> (c: usize)
        ensures
            c == N,
    {
        self.data.len()
    }

    /// Appends one byte. The buffer must not be full.
    pub fn push(&mut self, item: u8)
        requires
            old(self)@.len() < N,
        ensures
            final(self)@ == old(self)@.push(item),
            final(self).storage() == old(self).storage().update(old(self)@.len() as int, item),
    {
        proof {
            use_type_invariant(&*self);
        }
        self.data[self.len] = item;
        self.len += 1;
    }

    /// Appends a slice. It must fit in what is left of the capacity.
    pub fn extend(&mut self, another: &[u8])
        requires
            old(self)@.len() + another@.len() <= N,
        ensures
            final(self)@ == old(self)@ + another@,
    {
        let mut i: usize = 0;
        while i < another.len()
            invariant
                i <= another@.len(),
                old(self)@.len() + another@.len() <= N,
                self@ == old(self)@ + another@.subrange(0, i as int),
            decreases another@.len() - i,
        {
            self.push(another[i]);
            i += 1;
        }
    }

    /// The used region.
    pub fn as_slice(&self) -> (s: &[u8])
        ensures
            s@ == self@,
    {
        proof {
            use_type_invariant(self);
        }
        slice_subrange(self.data.as_slice(), 0, self.len)
    }

    /// The whole backing array, for writing in place. The used length stays.
    pub fn as_storage(&mut self) -> (s: &mut [u8])
        ensures
            s@ == old(self).storage(),
            s@.len() == N,
            old(self)@ == s@.subrange(0, old(self)@.len() as int),
            final(self).storage() == final(s)@,
            final(self)@ == final(s)@.subrange(0, old(self)@.len() as int),
    {
        proof {
            use_type_invariant(&*self);
        }
        let whole: &mut [u8] = &mut self.data;
        whole
    }

    /// Sets the used length without touching the storage.
    pub fn set_len(&mut self, l: usize)
        requires
            l <= N,
        ensures
            final(self)@.len() == l,
            final(self)@ == old(self).storage().subrange(0, l as int),
            final(self).storage() == old(self).storage(),
            final(self).storage().len() == N,
    {
        self.len = l;
    }

    /// Forgets the used region; the storage keeps its bytes.
    pub fn clear(&mut self)
        ensures
            final(self)@ == Seq::<u8>::empty(),
            final(self).storage() == old(self).storage(),
    {
        self.len = 0;
    }
}

} // verus!
