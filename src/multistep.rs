//! Milestones for a step-decay schedule: the rate decays once for every
//! milestone that the step counter has reached.
use vstd::prelude::*;

verus! {

broadcast use vstd::seq_lib::group_to_multiset_ensures;

/// The number of entries of `s` that are at most `n`, each counted as often
/// as it occurs.
pub open spec fn count_reached(s: Seq<usize>, n: nat) -> nat
    decreases s.len(),
{
    if s.len() == 0 {
        0
    } else {
        count_reached(s.drop_last(), n) + if s.last() <= n {
            1nat
        } else {
            0nat
        }
    }
}

/// `s` is in ascending order.
pub open spec fn is_ascending(s: Seq<usize>) -> bool {
    forall|i: int, j: int| 0 <= i < j < s.len() ==> s[i] <= s[j]
}

/// Counting over two joined sequences adds the counts.
proof fn lemma_count_concat(a: Seq<usize>, b: Seq<usize>, n: nat)
    ensures
        count_reached(a + b, n) == count_reached(a, n) + count_reached(b, n),
    decreases b.len(),
{
    if b.len() == 0 {
        assert(a + b =~= a);
    } else {
        assert((a + b).drop_last() =~= a + b.drop_last());
        lemma_count_concat(a, b.drop_last(), n);
    }
}

/// Inserting `x` anywhere adds one to the count exactly when `x <= n`.
proof fn lemma_count_insert(s: Seq<usize>, p: int, x: usize, n: nat)
    requires
        0 <= p <= s.len(),
    ensures
        count_reached(s.insert(p, x), n) == count_reached(s, n) + if x <= n {
            1nat
        } else {
            0nat
        },
{
    let front = s.take(p);
    let back = s.skip(p);
    assert(s.insert(p, x) =~= front + (seq![x] + back));
    assert(s =~= front + back);
    assert(seq![x].drop_last() =~= Seq::<usize>::empty());
    assert(count_reached(Seq::<usize>::empty(), n) == 0);
    assert(count_reached(seq![x], n) == if x <= n {
        1nat
    } else {
        0nat
    });
    lemma_count_concat(front, seq![x] + back, n);
    lemma_count_concat(seq![x], back, n);
    lemma_count_concat(front, back, n);
}

/// The abstract state of a [`MilestoneClock`].
pub struct MilestoneState {
    pub milestones: Seq<usize>,
    pub step: nat,
}

impl MilestoneState {
    /// The number of milestones reached at the current step.
    pub open spec fn passed(self) -> nat {
        count_reached(self.milestones, self.step)
    }

    /// The state reached by one call of `step`.
    pub open spec fn next(self) -> MilestoneState {
        MilestoneState { milestones: self.milestones, step: self.step + 1 }
    }

    /// The state reached after `k` calls of `step`.
    pub open spec fn advanced(self, k: nat) -> MilestoneState
        decreases k,
    {
        if k == 0 {
            self
        } else {
            self.advanced((k - 1) as nat).next()
        }
    }
}

/// The step counter of a multi-step schedule, with its milestones in
/// ascending order.
#[derive(Debug)]
pub struct MilestoneClock {
    milestones: Vec<usize>,
    step: usize,
}

impl View for MilestoneClock {
    type V = MilestoneState;

    closed spec fn view(&self) -> MilestoneState {
        MilestoneState { milestones: self.milestones@, step: self.step as nat }
    }
}

impl Clone for MilestoneClock {
    /// A copy in the same state.
    fn clone(&self) -> (r: MilestoneClock)
        ensures
            r@ == self@,
    {
        let milestones = self.milestones.clone();
        assert(milestones@ =~= self.milestones@);
        MilestoneClock { milestones, step: self.step }
    }
}

/// The milestones in ascending order: the same entries, as often as each
/// occurs.
fn sort_milestones(milestones: &Vec<usize>) -> (r: Vec<usize>)
    ensures
        is_ascending(r@),
        r@.to_multiset() == milestones@.to_multiset(),
        forall|n: nat| count_reached(r@, n) == count_reached(milestones@, n),
{
    let mut sorted: Vec<usize> = Vec::new();
    let mut i: usize = 0;
    assert(milestones@.take(0) =~= sorted@);
    while i < milestones.len()
        invariant
            i <= milestones.len(),
            is_ascending(sorted@),
            sorted@.to_multiset() == milestones@.take(i as int).to_multiset(),
            forall|n: nat|
                count_reached(sorted@, n) == count_reached(milestones@.take(i as int), n),
        decreases milestones.len() - i,
    {
        let x = milestones[i];
        let mut p: usize = 0;
        while p < sorted.len() && sorted[p] <= x
            invariant
                p <= sorted.len(),
                forall|k: int| 0 <= k < p ==> sorted@[k] <= x,
            decreases sorted.len() - p,
        {
            p = p + 1;
        }
        let ghost before = sorted@;
        sorted.insert(p, x);
        proof {
            assert(milestones@.take(i + 1) =~= milestones@.take(i as int).push(x));
            assert(milestones@.take(i as int).push(x).drop_last() =~= milestones@.take(i as int));
            vstd::seq_lib::to_multiset_insert(before, p as int, x);
            assert forall|n: nat|
                count_reached(sorted@, n) == count_reached(milestones@.take(i + 1), n) by {
                lemma_count_insert(before, p as int, x, n);
            }
            assert forall|a: int, b: int| 0 <= a < b < sorted@.len() implies sorted@[a]
                <= sorted@[b] by {
                if p < before.len() {
                    assert(x < before[p as int]);
                }
            }
        }
        i = i + 1;
    }
    assert(milestones@.take(milestones.len() as int) =~= milestones@);
    sorted
}

impl MilestoneClock {
    /// A clock at `init_step` with the given milestones, kept in ascending
    /// order. Their order on input does not matter; a repeated milestone
    /// counts as often as it occurs.
    pub fn new(milestones: Vec<usize>, init_step: usize) -> (r: MilestoneClock)
        ensures
            is_ascending(r@.milestones),
            r@.milestones.to_multiset() == milestones@.to_multiset(),
            forall|n: nat| count_reached(r@.milestones, n) == count_reached(milestones@, n),
            r@.step == init_step,
    {
        let sorted = sort_milestones(&milestones);
        MilestoneClock { milestones: sorted, step: init_step }
    }

    /// Advances the clock by one step.
    pub fn step(&mut self)
        requires
            old(self)@.step < usize::MAX,
        ensures
            final(self)@ == old(self)@.next(),
    {
        self.step = self.step + 1;
    }

    /// The current step.
    pub fn step_count(&self) -> (r: usize)
        ensures
            r == self@.step,
    {
        self.step
    }

    /// The milestones, in ascending order.
    pub fn milestones(&self) -> (r: &Vec<usize>)
        ensures
            r@ == self@.milestones,
    {
        &self.milestones
    }

    /// The number of milestones reached at the current step, that is the
    /// number of decays applied so far.
    pub fn passed(&self) -> (r: usize)
        ensures
            r == self@.passed(),
    {
        let mut count: usize = 0;
        let mut i: usize = 0;
        while i < self.milestones.len()
            invariant
                i <= self.milestones.len(),
                count <= i,
                count == count_reached(self.milestones@.take(i as int), self.step as nat),
            decreases self.milestones.len() - i,
        {
            assert(self.milestones@.take(i + 1).drop_last() =~= self.milestones@.take(i as int));
            if self.milestones[i] <= self.step {
                count = count + 1;
            }
            i = i + 1;
        }
        assert(self.milestones@.take(self.milestones.len() as int) =~= self.milestones@);
        count
    }
}

/// Resuming at `init_step = k` gives the state that `k` steps from zero give.
pub proof fn lemma_milestone_resume(milestones: Seq<usize>, k: nat)
    ensures
        (MilestoneState { milestones, step: 0 }).advanced(k) == (MilestoneState {
            milestones,
            step: k,
        }),
    decreases k,
{
    if k > 0 {
        lemma_milestone_resume(milestones, (k - 1) as nat);
    }
}

} // verus!
