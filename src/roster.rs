use vstd::prelude::*;

verus! {

/// The entries of `s` whose flag in `hit` is false, in their order.
pub open spec fn kept<T>(s: Seq<T>, hit: Seq<bool>) -> Seq<T>
    decreases s.len(),
{
    if s.len() == 0 {
        Seq::empty()
    } else {
        (if hit[0] {
            Seq::empty()
        } else {
            seq![s[0]]
        }) + kept(s.skip(1), hit.skip(1))
    }
}

proof fn lemma_kept_step<T>(s: Seq<T>, hit: Seq<bool>, i: int)
    requires
        0 <= i < s.len(),
        s.len() == hit.len(),
    ensures
        kept(s.skip(i), hit.skip(i)) == (if hit[i] {
            Seq::empty()
        } else {
            seq![s[i]]
        }) + kept(s.skip(i + 1), hit.skip(i + 1)),
{
    assert(s.skip(i).skip(1) =~= s.skip(i + 1));
    assert(hit.skip(i).skip(1) =~= hit.skip(i + 1));
}

/// Removes every entry whose flag in `hit` is set and keeps the others in
/// their order. A delete request flags each body whose centre lies within its
/// own radius of the requested point.
pub fn remove_flagged<T>(items: &mut Vec<T>, hit: &Vec<bool>)
    requires
        old(items).len() == hit.len(),
    ensures
        final(items)@ == kept(old(items)@, hit@),
{
    let ghost orig = items@;
    let mut i: usize = items.len();
    assert(orig.take(i as int) =~= orig);
    assert(orig.skip(i as int) =~= Seq::<T>::empty());
    while i > 0
        invariant
            i <= hit.len(),
            orig.len() == hit.len(),
            items@ == orig.take(i as int) + kept(orig.skip(i as int), hit@.skip(i as int)),
        decreases i,
    {
        i = i - 1;
        proof {
            lemma_kept_step(orig, hit@, i as int);
        }
        let ghost rest = kept(orig.skip(i + 1), hit@.skip(i + 1));
        assert(orig.take(i + 1) =~= orig.take(i as int).push(orig[i as int]));
        if hit[i] {
            items.remove(i);
            assert(items@ =~= orig.take(i as int) + rest);
        } else {
            assert(items@ =~= orig.take(i as int) + (seq![orig[i as int]] + rest));
        }
    }
    assert(orig.skip(0) =~= orig);
    assert(hit@.skip(0) =~= hit@);
    assert(items@ =~= kept(orig, hit@));
}

} // verus!
