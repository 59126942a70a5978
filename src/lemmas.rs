use crate::flipper::{flip_step, IFlipper};
use vstd::prelude::*;

verus! {

/// How many entries of `callers` are `id`.
pub open spec fn occurrences(callers: Seq<Seq<u8>>, id: Seq<u8>) -> nat
    decreases callers.len(),
{
    if callers.len() == 0 {
        0
    } else {
        occurrences(callers.drop_last(), id) + if callers.last() == id {
            1nat
        } else {
            0nat
        }
    }
}

/// Reading the flag twice from one state gives the same answer: reads take
/// the state by shared reference and return what the state holds.
pub proof fn lemma_reads_agree<T: IFlipper>(s: T, first: bool, second: bool)
    requires
        s.wf(),
        first == s.flag(),
        second == s.flag(),
    ensures
        first == second,
{
}

/// Two flips by the same caller bring the flag back to where it started.
pub proof fn lemma_flip_twice_restores_flag<T: IFlipper>(s0: T, s1: T, s2: T, caller: Seq<u8>)
    requires
        flip_step(s0, s1, caller),
        flip_step(s1, s2, caller),
    ensures
        s2.flag() == s0.flag(),
{
}

/// Along any run of flips, where `states[i + 1]` is what the flip by
/// `callers[i]` made of `states[i]`, the count of `id` grows by exactly the
/// number of flips that `id` made.
pub proof fn lemma_count_grows_by_own_flips<T: IFlipper>(
    states: Seq<T>,
    callers: Seq<Seq<u8>>,
    id: Seq<u8>,
)
    requires
        states.len() == callers.len() + 1,
        forall|i: int|
            0 <= i < callers.len() ==> #[trigger] flip_step(states[i], states[i + 1], callers[i]),
    ensures
        states.last().count_of(id) == states[0].count_of(id) + occurrences(callers, id),
    decreases callers.len(),
{
    if callers.len() > 0 {
        let n = callers.len() - 1;
        let prefix = states.drop_last();
        assert forall|i: int| 0 <= i < callers.drop_last().len() implies #[trigger] flip_step(
            prefix[i],
            prefix[i + 1],
            callers.drop_last()[i],
        ) by {
            assert(flip_step(states[i], states[i + 1], callers[i]));
        }
        lemma_count_grows_by_own_flips(prefix, callers.drop_last(), id);
        assert(flip_step(states[n], states[n + 1], callers[n]));
    }
}

/// After `n` flips all made by `id`, its count is `n` more than before.
pub proof fn lemma_count_after_n_flips<T: IFlipper>(states: Seq<T>, id: Seq<u8>)
    requires
        states.len() >= 1,
        forall|i: int| 0 <= i < states.len() - 1 ==> #[trigger] flip_step(states[i], states[i + 1], id),
    ensures
        states.last().count_of(id) == states[0].count_of(id) + (states.len() - 1),
{
    let callers = Seq::new((states.len() - 1) as nat, |_i: int| id);
    assert forall|i: int| 0 <= i < callers.len() implies #[trigger] flip_step(
        states[i],
        states[i + 1],
        callers[i],
    ) by {
        assert(flip_step(states[i], states[i + 1], id));
    }
    lemma_count_grows_by_own_flips(states, callers, id);
    lemma_occurrences_all_same(callers, id);
}

/// A sequence made only of `id` holds `id` once per entry.
pub proof fn lemma_occurrences_all_same(callers: Seq<Seq<u8>>, id: Seq<u8>)
    requires
        forall|i: int| 0 <= i < callers.len() ==> callers[i] == id,
    ensures
        occurrences(callers, id) == callers.len(),
    decreases callers.len(),
{
    if callers.len() > 0 {
        lemma_occurrences_all_same(callers.drop_last(), id);
    }
}

} // verus!
