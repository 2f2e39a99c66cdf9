//! Laws of patch application, proved over the `patched` models.
use vstd::prelude::*;

use crate::patch::{self, Patchable};
use crate::records::{Bar, BarPatch, MyPatch, MyStruct};

verus! {

/// Applying an absent optional replacement leaves the target exactly as it was.
pub proof fn absent_is_identity<T>(target: T)
    ensures
        T::patched(target, None::<T>) == target,
{
}

/// Applying a present optional replacement yields the replacement, whatever the
/// target held before.
pub proof fn present_overwrites<T>(old_value: T, new_value: T)
    ensures
        T::patched(old_value, Some(new_value)) == new_value,
{
}

/// For replacements applied as a sequence, the last one wins, so the order of
/// the sequence decides the result.
pub proof fn sequence_last_write_wins<T>(target: T, a: T, b: T)
    ensures
        patch::patched_in_order(target, seq![Some(a), Some(b)]) == b,
        patch::patched_in_order(target, seq![Some(b), Some(a)]) == a,
{
    reveal_with_fuel(Seq::fold_left, 3);
}

/// An empty sequence of patches changes nothing, and a sequence of one patch
/// does what that patch does alone.
pub proof fn sequence_identity<T: Patchable<P>, P>(target: T, single: P)
    ensures
        patch::patched_in_order(target, Seq::<P>::empty()) == target,
        patch::patched_in_order(target, seq![single]) == T::patched(target, single),
{
    reveal_with_fuel(Seq::fold_left, 2);
}

/// Applying two sequences one after the other is applying their concatenation.
pub proof fn sequence_concatenation<T: Patchable<P>, P>(target: T, first: Seq<P>, second: Seq<P>)
    ensures
        patch::patched_in_order(target, first + second) == patch::patched_in_order(
            patch::patched_in_order(target, first),
            second,
        ),
{
    let f = |acc: T, p: P| T::patched(acc, p);
    let all = first + second;
    all.lemma_fold_left_split(target, f, first.len() as int);
    assert(all.subrange(0, first.len() as int) == first);
    assert(all.subrange(first.len() as int, all.len() as int) == second);
}

/// A nested patch with an absent sibling replacement changes only the nested
/// field, and leaves the sibling exactly as it was.
pub proof fn nested_patch_keeps_siblings(target: MyStruct, nested: BarPatch)
    ensures
        MyStruct::patched(target, MyPatch { foo: None, bar: nested }) == (MyStruct {
            foo: target.foo,
            bar: Bar::patched(target.bar, nested),
        }),
{
}

} // verus!
