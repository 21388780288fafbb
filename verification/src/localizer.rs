use vstd::prelude::*;

verus! {

/// One in-flight binary search for the boundary between agreeing and
/// diverged batches. `left` starts at a batch known (or required) to agree
/// with the main node and `right` at a batch known to diverge; each probe
/// of the midpoint halves the bracket. The search holds plain batch
/// numbers; the caller performs the actual hash comparison at the probed
/// height and feeds the verdict back through `step`.
#[derive(Clone, Copy, Debug, PartialEq, Eq, Structural)]
pub struct DivergenceSearch {
    pub left: u32,
    pub right: u32,
}

impl DivergenceSearch {
    /// The search is over once the bracket cannot be halved further.
    pub open spec fn spec_done(self) -> bool {
        self.left + 1 >= self.right
    }

    /// The midpoint probed next, while the search is not done.
    pub open spec fn spec_probe(self) -> int {
        self.left + (self.right - self.left) / 2
    }

    /// How the bracket narrows on the verdict for the probed height:
    /// agreement moves the left end up to the probe, disagreement moves
    /// the right end down to it.
    pub open spec fn spec_step(self, root_hashes_match: bool) -> Self
        recommends
            !self.spec_done(),
    {
        if root_hashes_match {
            DivergenceSearch { left: self.spec_probe() as u32, right: self.right }
        } else {
            DivergenceSearch { left: self.left, right: self.spec_probe() as u32 }
        }
    }

    /// The bracketing invariant, relative to an arbitrary account `agrees`
    /// of which batch heights carry matching root hashes: the left end
    /// agrees, the right end does not.
    pub open spec fn brackets(self, agrees: spec_fn(int) -> bool) -> bool {
        &&& agrees(self.left as int)
        &&& !agrees(self.right as int)
        &&& self.left < self.right
    }

    pub fn new(known_valid: u32, diverged: u32) -> (search: Self)
        ensures
            search == (DivergenceSearch { left: known_valid, right: diverged }),
    {
        DivergenceSearch { left: known_valid, right: diverged }
    }

    pub fn is_done(&self) -> (done: bool)
        ensures
            done == self.spec_done(),
    {
        self.right <= self.left || self.right - self.left == 1
    }

    pub fn probe(&self) -> (middle: u32)
        requires
            !self.spec_done(),
        ensures
            middle == self.spec_probe(),
            self.left < middle < self.right,
    {
        proof {
            lemma_midpoint_between(self.left as int, self.right as int);
        }
        self.left + (self.right - self.left) / 2
    }

    pub fn step(&mut self, root_hashes_match: bool)
        requires
            !old(self).spec_done(),
        ensures
            *final(self) == old(self).spec_step(root_hashes_match),
            final(self).right - final(self).left < old(self).right - old(self).left,
            old(self).left <= final(self).left,
            final(self).right <= old(self).right,
    {
        proof {
            lemma_midpoint_between(self.left as int, self.right as int);
        }
        let middle: u32 = self.left + (self.right - self.left) / 2;
        if root_hashes_match {
            self.left = middle;
        } else {
            self.right = middle;
        }
    }

    /// The greatest batch in the bracket still taken to agree; only
    /// meaningful once the search is done.
    pub fn result(&self) -> (last_correct: u32)
        requires
            self.spec_done(),
        ensures
            last_correct == self.left,
    {
        self.left
    }
}

/// The midpoint of a bracket of width at least two lies strictly between
/// its ends.
pub(crate) proof fn lemma_midpoint_between(left: int, right: int)
    requires
        left + 1 < right,
    ensures
        left < left + (right - left) / 2 < right,
{
    let width = right - left;
    assert(width / 2 >= 1 && width / 2 < width) by (nonlinear_arith)
        requires
            width >= 2,
    ;
}

/// Each step keeps the bracket truthful: if the verdict fed in reports
/// exactly whether the probed height agrees, a bracket whose left end
/// agrees and whose right end diverges narrows to another such bracket.
pub proof fn lemma_search_step_preserves_bracket(
    search: DivergenceSearch,
    agrees: spec_fn(int) -> bool,
    root_hashes_match: bool,
)
    requires
        search.brackets(agrees),
        !search.spec_done(),
        root_hashes_match == agrees(search.spec_probe()),
    ensures
        search.spec_step(root_hashes_match).brackets(agrees),
{
    lemma_midpoint_between(search.left as int, search.right as int);
}

/// When a truthful bracket can no longer narrow, its left end is the
/// boundary: that batch agrees and the next one diverges.
pub proof fn lemma_search_boundary(search: DivergenceSearch, agrees: spec_fn(int) -> bool)
    requires
        search.brackets(agrees),
        search.spec_done(),
    ensures
        search.right == search.left + 1,
        agrees(search.left as int),
        !agrees(search.left + 1),
{
}

} // verus!
