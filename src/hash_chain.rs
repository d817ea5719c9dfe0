//! An ordered accumulator over field elements built on the Pedersen hash.

use crate::felt::{felt_views, pedersen, pedersen_of, u64_felt_bytes, zero_bytes, Felt};
use vstd::prelude::*;

verus! {

/// The running value after feeding `s`: zero, then `pedersen(acc, x)` for each `x`.
pub open spec fn chain_acc(s: Seq<Seq<u8>>) -> Seq<u8>
    decreases s.len(),
{
    if s.len() == 0 {
        zero_bytes()
    } else {
        pedersen_of(chain_acc(s.drop_last()), s.last())
    }
}

/// The digest of `s`: the running value hashed with the number of elements.
pub open spec fn chain_hash(s: Seq<Seq<u8>>) -> Seq<u8> {
    pedersen_of(chain_acc(s), u64_felt_bytes(s.len() as u64))
}

/// An incremental hash over a sequence of field elements.
pub struct HashChain {
    hash: Felt,
    count: u64,
    fed: Ghost<Seq<Seq<u8>>>,
}

impl View for HashChain {
    type V = Seq<Seq<u8>>;

    /// The elements fed so far, in order.
    closed spec fn view(&self) -> Seq<Seq<u8>> {
        self.fed@
    }
}

impl HashChain {
    pub closed spec fn wf(&self) -> bool {
        &&& self.hash@ == chain_acc(self.fed@)
        &&& self.count as int == self.fed@.len()
    }

    /// An accumulator that has been fed nothing.
    pub fn new() -> (r: HashChain)
        ensures
            r.wf(),
            r@ == Seq::<Seq<u8>>::empty(),
    {
        HashChain { hash: Felt::zero(), count: 0, fed: Ghost(Seq::empty()) }
    }

    /// Feeds one element.
    pub fn update(&mut self, value: Felt)
        requires
            old(self).wf(),
            old(self)@.len() < u64::MAX,
        ensures
            final(self).wf(),
            final(self)@ == old(self)@.push(value@),
    {
        let ghost before = self.fed@;
        self.hash = pedersen(&self.hash, &value);
        self.count = self.count + 1;
        self.fed = Ghost(before.push(value@));
        assert(self.fed@.drop_last() =~= before);
    }

    /// The digest of what has been fed.
    pub fn finalize(&self) -> (r: Felt)
        requires
            self.wf(),
        ensures
            r@ == chain_hash(self@),
    {
        let n = Felt::from_u64(self.count);
        pedersen(&self.hash, &n)
    }

    /// Feeds each element of `values`, in order.
    pub fn update_all(&mut self, values: &[Felt])
        requires
            old(self).wf(),
            old(self)@.len() + values@.len() < u64::MAX,
        ensures
            final(self).wf(),
            final(self)@ == old(self)@ + felt_views(values@),
    {
        let ghost start = self@;
        let mut i: usize = 0;
        while i < values.len()
            invariant
                self.wf(),
                0 <= i <= values@.len(),
                start.len() + values@.len() < u64::MAX,
                self@ == start + felt_views(values@.subrange(0, i as int)),
            decreases values@.len() - i,
        {
            self.update(values[i]);
            assert(felt_views(values@.subrange(0, i + 1)) =~= felt_views(
                values@.subrange(0, i as int),
            ).push(values@[i as int]@));
            i = i + 1;
        }
        assert(values@.subrange(0, values@.len() as int) =~= values@);
    }
}

/// The digest of a list of field elements.
pub fn hash_of_list(values: &[Felt]) -> (r: Felt)
    requires
        values@.len() < u64::MAX,
    ensures
        r@ == chain_hash(felt_views(values@)),
{
    let mut h = HashChain::new();
    h.update_all(values);
    assert(Seq::<Seq<u8>>::empty() + felt_views(values@) =~= felt_views(values@));
    h.finalize()
}

} // verus!
