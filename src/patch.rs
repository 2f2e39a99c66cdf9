//! The patch capability and its two generic shapes: optional replacement and
//! sequences of patches.
use vstd::prelude::*;

verus! {

/// A type that can be patched in place by a patch of type `P`.
///
/// `patched` is the value that applying `patch` to `self` yields; `apply_patch`
/// turns the target into exactly that value.
pub trait Patchable<P>: Sized {
    spec fn patched(self, patch: P) -> Self;

    fn apply_patch(&mut self, patch: P)
        ensures
            *final(self) == Self::patched(*old(self), patch),
    ;
}

/// Optional replacement: an absent patch leaves the target as it is, a present
/// one replaces it wholesale.
impl<T> Patchable<Option<T>> for T {
    open spec fn patched(self, patch: Option<T>) -> T {
        match patch {
            Some(v) => v,
            None => self,
        }
    }

    fn apply_patch(&mut self, patch: Option<T>)
        ensures
            patch is None ==> *final(self) == *old(self),
            patch is Some ==> *final(self) == patch->Some_0,
    {
        if let Some(inner) = patch {
            *self = inner;
        }
    }
}

/// The value that applying each patch of `patches` in turn, from first to last,
/// makes of `target`.
pub open spec fn patched_in_order<T: Patchable<P>, P>(target: T, patches: Seq<P>) -> T {
    patches.fold_left(target, |acc: T, p: P| T::patched(acc, p))
}

/// A sequence of patches: each is applied in order to the same target, and each
/// sees what the earlier ones did.
impl<T: Patchable<P>, P> Patchable<Vec<P>> for T {
    open spec fn patched(self, patches: Vec<P>) -> T {
        patched_in_order(self, patches@)
    }

    fn apply_patch(&mut self, patches: Vec<P>)
        ensures
            *final(self) == patched_in_order(*old(self), patches@),
    {
        let ghost all = patches@;
        let ghost start = *self;
        for patch in it: patches
            invariant
                it.seq() == all,
                *self == patched_in_order(start, all.take(it.index() as int)),
        {
            assert(all.take(it.index() + 1).drop_last() == all.take(it.index() as int));
            T::apply_patch(self, patch);
        }
        proof {
            assert(all.take(all.len() as int) == all);
        }
    }
}

} // verus!
