//! What a view does when it is deallocated.
//!
//! Each view gets a class of its own, made at run time under a unique name,
//! and that class is destroyed when its instance goes: the view first releases
//! the state it holds, then runs its superclass's `dealloc` (where the class has
//! a superclass), and only then disposes of its own class, after which nothing
//! may use the class any more.
use vstd::prelude::*;

verus! {

/// A step of a view's deallocation.
#[derive(Clone, Copy, Debug, PartialEq, Eq, Structural)]
pub enum TeardownStep {
    /// Release the state that the view holds in its instance variable.
    ReleaseState,
    /// Run the superclass's `dealloc` on the view.
    SuperclassDealloc,
    /// Dispose of the view's class.
    DisposeClass,
}

/// The steps of a view's deallocation, in order, for a class that has a
/// superclass or not.
pub open spec fn spec_teardown_steps(has_superclass: bool) -> Seq<TeardownStep> {
    if has_superclass {
        seq![TeardownStep::ReleaseState, TeardownStep::SuperclassDealloc, TeardownStep::DisposeClass]
    } else {
        seq![TeardownStep::ReleaseState, TeardownStep::DisposeClass]
    }
}

/// Returns the steps of a view's deallocation, in the order in which they run.
pub fn teardown_steps(has_superclass: bool) -> (steps: Vec<TeardownStep>)
    ensures
        steps@ == spec_teardown_steps(has_superclass),
{
    let mut steps: Vec<TeardownStep> = Vec::new();
    steps.push(TeardownStep::ReleaseState);
    if has_superclass {
        steps.push(TeardownStep::SuperclassDealloc);
    }
    steps.push(TeardownStep::DisposeClass);
    proof {
        assert(steps@ =~= spec_teardown_steps(has_superclass));
    }
    steps
}

/// A deallocation releases the view's state first and disposes of the class
/// last, once, after everything else; the superclass's `dealloc` runs exactly
/// when there is a superclass, and before the class is disposed of.
pub proof fn lemma_teardown_order(has_superclass: bool)
    ensures
        spec_teardown_steps(has_superclass)[0] == TeardownStep::ReleaseState,
        spec_teardown_steps(has_superclass).last() == TeardownStep::DisposeClass,
        forall|i: int|
            0 <= i < spec_teardown_steps(has_superclass).len() - 1
                ==> #[trigger] spec_teardown_steps(has_superclass)[i] != TeardownStep::DisposeClass,
        has_superclass <==> spec_teardown_steps(has_superclass).contains(
            TeardownStep::SuperclassDealloc,
        ),
        forall|i: int|
            0 <= i < spec_teardown_steps(has_superclass).len() && #[trigger] spec_teardown_steps(
                has_superclass,
            )[i] == TeardownStep::SuperclassDealloc ==> i < spec_teardown_steps(
                has_superclass,
            ).len() - 1,
{
    let s = spec_teardown_steps(has_superclass);
    if has_superclass {
        assert(s[1] == TeardownStep::SuperclassDealloc);
    } else {
        assert forall|i: int| 0 <= i < s.len() implies s[i] != TeardownStep::SuperclassDealloc by {}
    }
}

} // verus!
