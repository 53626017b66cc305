//! Lifecycles of the runtimes, and failures that nobody has heard of yet.

use vstd::prelude::*;

verus! {

/// Where a runtime is between construction and its end.
#[derive(Clone, Copy, Debug, PartialEq, Eq, Structural)]
pub enum LifecycleState {
    Constructed,
    Running,
    Stopping,
    Stopped,
}

/// How many failures of a turn nobody has heard of yet.
#[derive(Clone, Copy, Debug, PartialEq, Eq, Structural)]
pub struct Unacknowledged {
    pub turn_id: u64,
    pub count: usize,
}

/// Counts without overflow.
pub open spec fn counted_up(count: int) -> int {
    if count >= usize::MAX {
        usize::MAX as int
    } else {
        count + 1
    }
}

/// All failures that nobody has heard of.
pub open spec fn unheard(list: Seq<Unacknowledged>) -> int
    decreases list.len(),
{
    if list.len() == 0 {
        0
    } else {
        let sum = unheard(list.drop_last()) + list.last().count;
        if sum > usize::MAX {
            usize::MAX as int
        } else {
            sum
        }
    }
}

/// The count of one turn went up by one.
pub open spec fn counts_one_more(before: Seq<Unacknowledged>, after: Seq<Unacknowledged>, turn_id: u64) -> bool {
    ||| exists|i: int|
        0 <= i < before.len() && (#[trigger] before[i]).turn_id == turn_id && (forall|k: int|
            0 <= k < i ==> (#[trigger] before[k]).turn_id != turn_id) && after == before.update(
            i,
            Unacknowledged { turn_id, count: counted_up(before[i].count as int) as usize },
        )
    ||| (forall|k: int| 0 <= k < before.len() ==> (#[trigger] before[k]).turn_id != turn_id)
        && after == before.push(Unacknowledged { turn_id, count: 1 })
}

/// One more failure of a turn.
pub fn count_failure(list: &mut Vec<Unacknowledged>, turn_id: u64)
    ensures
        counts_one_more(old(list)@, final(list)@, turn_id),
{
    let ghost before = list@;
    let mut i: usize = 0;
    while i < list.len()
        invariant
            i <= list@.len(),
            list@ == before,
            before == old(list)@,
            forall|k: int| 0 <= k < i ==> (#[trigger] before[k]).turn_id != turn_id,
        decreases list@.len() - i,
    {
        if list[i].turn_id == turn_id {
            let count: usize = list[i].count.saturating_add(1);
            list.set(i, Unacknowledged { turn_id, count });
            return ;
        }
        i = i + 1;
    }
    list.push(Unacknowledged { turn_id, count: 1 });
}

/// The failures of a turn were heard.
pub fn acknowledge(list: &mut Vec<Unacknowledged>, turn_id: u64)
    ensures
        final(list)@ == old(list)@.filter(|u: Unacknowledged| u.turn_id != turn_id),
{
    let ghost before = list@;
    let ghost keeps = |u: Unacknowledged| u.turn_id != turn_id;
    let mut rest: Vec<Unacknowledged> = Vec::new();
    let mut i: usize = 0;
    proof {
        reveal(Seq::filter);
        assert(before.take(0) =~= Seq::empty());
    }
    while i < list.len()
        invariant
            i <= list@.len(),
            list@ == before,
            keeps == (|u: Unacknowledged| u.turn_id != turn_id),
            rest@ == before.take(i as int).filter(keeps),
        decreases list@.len() - i,
    {
        proof {
            reveal(Seq::filter);
            assert(before.take(i + 1).drop_last() =~= before.take(i as int));
        }
        let entry = list[i];
        if entry.turn_id != turn_id {
            rest.push(entry);
        }
        i = i + 1;
    }
    assert(before.take(before.len() as int) =~= before);
    *list = rest;
}

/// All failures that nobody has heard of.
pub fn unheard_count(list: &Vec<Unacknowledged>) -> (count: usize)
    ensures
        count == unheard(list@),
{
    let ghost all = list@;
    let mut count: usize = 0;
    let mut i: usize = 0;
    assert(all.take(0) =~= Seq::empty());
    while i < list.len()
        invariant
            i <= list@.len(),
            all == list@,
            count == unheard(all.take(i as int)),
        decreases list@.len() - i,
    {
        proof {
            assert(all.take(i + 1).drop_last() =~= all.take(i as int));
            assert(all.take(i + 1).last() == all[i as int]);
        }
        count = count.saturating_add(list[i].count);
        i = i + 1;
    }
    assert(all.take(all.len() as int) =~= all);
    count
}

} // verus!
