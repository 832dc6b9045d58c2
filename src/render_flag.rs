use vstd::prelude::*;

verus! {

/// Whether the next due render cycle actually redraws the screen.
#[derive(Clone, Copy, Debug, PartialEq, Eq, Structural)]
pub enum ShouldRender {
    Render,
    Skip,
}

/// The monotone-OR merge of two flags: `Render` as soon as either is `Render`.
pub open spec fn merge(a: ShouldRender, b: ShouldRender) -> ShouldRender {
    if a == ShouldRender::Render || b == ShouldRender::Render {
        ShouldRender::Render
    } else {
        ShouldRender::Skip
    }
}

impl ShouldRender {
    /// Merges two flags; `Render` dominates.
    pub fn or(self, other: ShouldRender) -> (r: ShouldRender)
        ensures
            r == merge(self, other),
    {
        match self {
            ShouldRender::Render => ShouldRender::Render,
            ShouldRender::Skip => other,
        }
    }

    pub fn is_render(&self) -> (r: bool)
        ensures
            r == (*self == ShouldRender::Render),
    {
        match self {
            ShouldRender::Render => true,
            ShouldRender::Skip => false,
        }
    }
}

/// Merging is associative, commutative and idempotent; `Skip` merged with
/// `Skip` is `Skip`, and a `Render` on either side gives `Render`.
pub proof fn lemma_merge_algebra(a: ShouldRender, b: ShouldRender, c: ShouldRender)
    ensures
        merge(merge(a, b), c) == merge(a, merge(b, c)),
        merge(a, b) == merge(b, a),
        merge(a, a) == a,
        merge(ShouldRender::Skip, ShouldRender::Skip) == ShouldRender::Skip,
        merge(ShouldRender::Render, a) == ShouldRender::Render,
        merge(a, ShouldRender::Render) == ShouldRender::Render,
{
}

} // verus!
