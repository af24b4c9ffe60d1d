//! Copying bytes into a buffer.
use vstd::prelude::*;

verus! {

/// `target` with the bytes from `at` on replaced by `source`.
pub open spec fn overwritten(target: Seq<u8>, at: int, source: Seq<u8>) -> Seq<u8> {
    target.take(at) + source + target.skip(at + source.len())
}

/// Where the bytes of an overwritten buffer come from, for every buffer, place and source that
/// fits: the buffer keeps its length, the bytes from `at` on are those of the source in order, and
/// every byte before and behind them is the one that was there.
pub proof fn law_overwriting_replaces_a_stretch(target: Seq<u8>, at: int, source: Seq<u8>, i: int)
    requires
        0 <= at,
        at + source.len() <= target.len(),
        0 <= i < target.len(),
    ensures
        overwritten(target, at, source).len() == target.len(),
        at <= i < at + source.len() ==> overwritten(target, at, source)[i] == source[i - at],
        i < at || at + source.len() <= i ==> overwritten(target, at, source)[i] == target[i],
{
}

/// Copies `source` into `target` at `at`.
pub fn copy_at(target: &mut [u8], at: usize, source: &[u8])
    requires
        at + source@.len() <= old(target)@.len(),
    ensures
        final(target)@ == overwritten(old(target)@, at as int, source@),
{
    let room: usize = target.len();
    let mut i: usize = 0;
    assert(target@ =~= overwritten(old(target)@, at as int, source@.take(0)));
    while i < source.len()
        invariant
            i <= source@.len(),
            at + source@.len() <= room == old(target)@.len(),
            target@ == overwritten(old(target)@, at as int, source@.take(i as int)),
        decreases source@.len() - i,
    {
        target[at + i] = source[i];
        i = i + 1;
        assert(target@ =~= overwritten(old(target)@, at as int, source@.take(i as int)));
    }
    assert(source@.take(i as int) =~= source@);
}

} // verus!
