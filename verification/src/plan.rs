//! The order in which the steps of a test are taken.
//!
//! Steps run by ascending `order`. Where two steps carry the same `order`,
//! which the step source should not let happen, the one received first runs
//! first.

use vstd::prelude::*;
use crate::types::{StepView, TestStep};

verus! {

/// No step has a larger `order` than a later one.
pub open spec fn ordered(steps: Seq<StepView>) -> bool {
    forall|i: int, j: int| 0 <= i < j < steps.len() ==> steps[i].order <= steps[j].order
}

/// Tells the steps whose `order` is `k` from the others.
pub open spec fn with_order(k: int) -> spec_fn(StepView) -> bool {
    |s: StepView| s.order == k
}

/// Two steps carry the same `order`.
pub open spec fn has_ties(steps: Seq<StepView>) -> bool {
    exists|i: int, j: int| 0 <= i < j < steps.len() && steps[i].order == steps[j].order
}

/// Where `step` goes in `plan`: behind the leading steps whose `order` is
/// smaller than its own.
pub open spec fn slot(plan: Seq<StepView>, step: StepView) -> int
    decreases plan.len(),
{
    if plan.len() == 0 || step.order <= plan[0].order {
        0
    } else {
        1 + slot(plan.skip(1), step)
    }
}

/// The steps by ascending `order`, steps of equal `order` as they were
/// received: each step is put in front of the later steps that are not
/// smaller.
pub open spec fn arranged(steps: Seq<StepView>) -> Seq<StepView>
    decreases steps.len(),
{
    if steps.len() == 0 {
        Seq::empty()
    } else {
        let rest = arranged(steps.skip(1));
        rest.insert(slot(rest, steps[0]), steps[0])
    }
}

/// `slot` is the one index that has only smaller orders before it and is at
/// the end or at a step that is not smaller.
pub proof fn lemma_slot(plan: Seq<StepView>, step: StepView, p: int)
    requires
        0 <= p <= plan.len(),
        forall|i: int| 0 <= i < p ==> plan[i].order < step.order,
        p < plan.len() ==> step.order <= plan[p].order,
    ensures
        slot(plan, step) == p,
    decreases plan.len(),
{
    if plan.len() > 0 && plan[0].order < step.order {
        lemma_slot(plan.skip(1), step, p - 1);
    }
}

/// What `slot` promises of the index it gives.
pub proof fn lemma_slot_bounds(plan: Seq<StepView>, step: StepView)
    ensures
        0 <= slot(plan, step) <= plan.len(),
        forall|i: int| 0 <= i < slot(plan, step) ==> plan[i].order < step.order,
        slot(plan, step) < plan.len() ==> step.order <= plan[slot(plan, step)].order,
    decreases plan.len(),
{
    if plan.len() > 0 && plan[0].order < step.order {
        let tail = plan.skip(1);
        lemma_slot_bounds(tail, step);
        assert forall|i: int| 0 <= i < slot(plan, step) implies plan[i].order < step.order by {
            if i > 0 {
                assert(tail[i - 1] == plan[i]);
            }
        }
    }
}

/// The arranged steps are as many as were given.
pub proof fn law_arranged_len(steps: Seq<StepView>)
    ensures
        arranged(steps).len() == steps.len(),
    decreases steps.len(),
{
    if steps.len() > 0 {
        let rest = arranged(steps.skip(1));
        law_arranged_len(steps.skip(1));
        lemma_slot_bounds(rest, steps[0]);
    }
}

/// The arranged steps are in ascending `order`.
pub proof fn law_arranged_ordered(steps: Seq<StepView>)
    ensures
        ordered(arranged(steps)),
    decreases steps.len(),
{
    if steps.len() > 0 {
        law_arranged_ordered(steps.skip(1));
        lemma_slot_bounds(arranged(steps.skip(1)), steps[0]);
    }
}

/// Arranging neither drops nor adds a step: each step occurs as often as it
/// was given.
pub proof fn law_arranged_permutes(steps: Seq<StepView>)
    ensures
        arranged(steps).to_multiset() == steps.to_multiset(),
    decreases steps.len(),
{
    if steps.len() == 0 {
        assert(steps =~= Seq::empty());
    } else {
        let tail = steps.skip(1);
        let rest = arranged(tail);
        let step = steps[0];
        law_arranged_permutes(tail);
        lemma_slot_bounds(rest, step);
        vstd::seq_lib::to_multiset_insert(rest, slot(rest, step), step);
        vstd::seq_lib::to_multiset_insert(tail, 0, step);
        assert(tail.insert(0, step) =~= steps);
    }
}

/// Steps of one `order` stay in the sequence in which they were given.
pub proof fn law_arranged_keeps_ties(steps: Seq<StepView>, k: int)
    ensures
        arranged(steps).filter(with_order(k)) == steps.filter(with_order(k)),
    decreases steps.len(),
{
    let keep = with_order(k);
    if steps.len() > 0 {
        let tail = steps.skip(1);
        let rest = arranged(tail);
        let step = steps[0];
        let p = slot(rest, step);
        law_arranged_keeps_ties(tail, k);
        lemma_slot_bounds(rest, step);
        let front = rest.take(p);
        let back = rest.skip(p);
        assert(rest.insert(p, step) =~= front + (seq![step] + back));
        assert(rest =~= front + back);
        assert(steps =~= seq![step] + tail);
        Seq::filter_distributes_over_add(front, seq![step] + back, keep);
        Seq::filter_distributes_over_add(front, back, keep);
        back.lemma_filter_prepend(step, keep);
        tail.lemma_filter_prepend(step, keep);
        if keep(step) {
            front.lemma_all_neg_filter_empty(keep);
        }
    }
}

/// Steps that already come in ascending `order` are left as they are.
pub proof fn law_arranged_fixes_ordered(steps: Seq<StepView>)
    requires
        ordered(steps),
    ensures
        arranged(steps) == steps,
    decreases steps.len(),
{
    if steps.len() > 0 {
        law_arranged_fixes_ordered(steps.skip(1));
    }
}

/// In ordered steps, a step with a smaller `order` stands before one with a
/// larger `order`.
pub proof fn law_smaller_order_first(steps: Seq<StepView>, a: int, b: int)
    requires
        ordered(steps),
        0 <= a < steps.len(),
        0 <= b < steps.len(),
        steps[a].order < steps[b].order,
    ensures
        a < b,
{
}

fn find_slot(plan: &Vec<TestStep>, step: &TestStep) -> (p: usize)
    ensures
        p == slot(plan.deep_view(), step@),
        p <= plan.len(),
{
    let mut p: usize = 0;
    while p < plan.len() && plan[p].order < step.order
        invariant
            p <= plan.len(),
            forall|i: int| 0 <= i < p ==> plan@[i].order < step.order,
        decreases plan.len() - p,
    {
        p = p + 1;
    }
    proof {
        lemma_slot(plan.deep_view(), step@, p as int);
    }
    p
}

/// Arranges the steps for a run: by ascending `order`, and steps of equal
/// `order` as they were given.
pub fn arrange(steps: Vec<TestStep>) -> (plan: Vec<TestStep>)
    ensures
        plan.deep_view() == arranged(steps.deep_view()),
        plan@.len() == steps@.len(),
        ordered(plan.deep_view()),
        plan.deep_view().to_multiset() == steps.deep_view().to_multiset(),
        forall|k: int| #[trigger]
            plan.deep_view().filter(with_order(k)) == steps.deep_view().filter(with_order(k)),
{
    let ghost given = steps.deep_view();
    let mut rest = steps;
    let mut plan: Vec<TestStep> = Vec::new();
    while rest.len() > 0
        invariant
            rest.deep_view() == given.take(rest@.len() as int),
            rest@.len() <= given.len(),
            plan.deep_view() == arranged(given.skip(rest@.len() as int)),
        decreases rest.len(),
    {
        let ghost n = rest@.len() as int;
        let ghost rest_before = rest.deep_view();
        let last = rest.pop();
        match last {
            Some(step) => {
                let p = find_slot(&plan, &step);
                let ghost step_view = step@;
                plan.insert(p, step);
                proof {
                    assert(step_view == rest_before[n - 1]);
                    assert(given.skip(n - 1).skip(1) =~= given.skip(n));
                }
            },
            None => {},
        }
    }
    proof {
        assert(given.skip(0) =~= given);
        law_arranged_len(given);
        law_arranged_ordered(given);
        law_arranged_permutes(given);
        assert forall|k: int| #[trigger]
            plan.deep_view().filter(with_order(k)) == given.filter(with_order(k)) by {
            law_arranged_keeps_ties(given, k);
        }
    }
    plan
}

/// Whether two of the steps carry the same `order`.
pub fn shares_order(steps: &Vec<TestStep>) -> (r: bool)
    ensures
        r == has_ties(steps.deep_view()),
{
    let mut j: usize = 0;
    while j < steps.len()
        invariant
            j <= steps.len(),
            forall|a: int, b: int| 0 <= a < b < j ==> steps@[a].order != steps@[b].order,
        decreases steps.len() - j,
    {
        let mut i: usize = 0;
        while i < j
            invariant
                i <= j,
                j < steps.len(),
                forall|a: int| 0 <= a < i ==> steps@[a].order != steps@[j as int].order,
            decreases j - i,
        {
            if steps[i].order == steps[j].order {
                assert(steps.deep_view()[i as int].order == steps.deep_view()[j as int].order);
                return true;
            }
            i = i + 1;
        }
        j = j + 1;
    }
    false
}

} // verus!
