use vstd::prelude::*;
use bitvec::vec::BitVec;

verus! {

/// The largest number of bits a `BitVec` can address.
pub const MAX_BITS: usize = usize::MAX >> 3;

/// One flag per buffer item, packed into a `bitvec::vec::BitVec`.
#[derive(Debug)]
#[verifier::external_body]
pub struct DirtyBits {
    bits: BitVec,
}

/// The flags held by a `DirtyBits`, in index order.
pub uninterp spec fn flags_of(b: DirtyBits) -> Seq<bool>;

impl View for DirtyBits {
    type V = Seq<bool>;

    open spec fn view(&self) -> Seq<bool> {
        flags_of(*self)
    }
}

impl DirtyBits {
    /// Relies on `BitVec::new`, which creates an empty bit-vector.
    #[verifier::external_body]
    pub(crate) fn new() -> (r: Self)
        ensures
            flags_of(r) == Seq::<bool>::empty(),
    {
        DirtyBits { bits: BitVec::new() }
    }

    /// Relies on `BitVec::len`, the number of live bits.
    #[verifier::external_body]
    pub(crate) fn len(&self) -> (r: usize)
        ensures
            r == flags_of(*self).len(),
    {
        self.bits.len()
    }

    /// Relies on `BitVec::resize`: truncates to `new_len`, or appends copies of
    /// `value` up to `new_len`; it panics beyond `MAX_BITS`.
    #[verifier::external_body]
    pub(crate) fn resize(&mut self, new_len: usize, value: bool)
        requires
            new_len <= MAX_BITS,
        ensures
            new_len <= flags_of(*old(self)).len() ==> flags_of(*final(self)) == flags_of(
                *old(self),
            ).subrange(0, new_len as int),
            new_len > flags_of(*old(self)).len() ==> flags_of(*final(self)) == flags_of(
                *old(self),
            ) + Seq::new((new_len - flags_of(*old(self)).len()) as nat, |_i: int| value),
    {
        self.bits.resize(new_len, value)
    }

    /// Relies on `BitVec::clear`, which truncates the bit-vector to zero bits.
    #[verifier::external_body]
    pub(crate) fn clear(&mut self)
        ensures
            flags_of(*final(self)) == Seq::<bool>::empty(),
    {
        self.bits.clear()
    }

    /// Relies on `BitSlice::set`, which writes one bit; it panics out of bounds.
    #[verifier::external_body]
    pub(crate) fn set(&mut self, index: usize, value: bool)
        requires
            index < flags_of(*old(self)).len(),
        ensures
            flags_of(*final(self)) == flags_of(*old(self)).update(index as int, value),
    {
        self.bits.set(index, value)
    }

    /// Relies on indexing a `BitSlice`, which reads one bit; it panics out of bounds.
    #[verifier::external_body]
    pub(crate) fn get(&self, index: usize) -> (r: bool)
        requires
            index < flags_of(*self).len(),
        ensures
            r == flags_of(*self)[index as int],
    {
        self.bits[index]
    }

    /// Flags holding `flags`, in order.
    pub fn from_flags(flags: &Vec<bool>) -> (r: Self)
        requires
            flags@.len() <= MAX_BITS,
        ensures
            r@ == flags@,
    {
        let mut r = DirtyBits::new();
        r.resize(flags.len(), false);
        let mut i: usize = 0;
        while i < flags.len()
            invariant
                i <= flags@.len(),
                r@.len() == flags@.len(),
                forall|j: int| 0 <= j < i ==> r@[j] == flags@[j],
            decreases flags@.len() - i,
        {
            r.set(i, flags[i]);
            i = i + 1;
        }
        assert(r@ =~= flags@);
        r
    }

    /// The flags, in order.
    pub fn to_flags(&self) -> (r: Vec<bool>)
        ensures
            r@ == self@,
    {
        let mut r: Vec<bool> = Vec::new();
        let mut i: usize = 0;
        while i < self.len()
            invariant
                i <= self@.len(),
                r@ == self@.subrange(0, i as int),
            decreases self@.len() - i,
        {
            r.push(self.get(i));
            i = i + 1;
            assert(r@ =~= self@.subrange(0, i as int));
        }
        assert(r@ =~= self@);
        r
    }
}

} // verus!
