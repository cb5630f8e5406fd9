//! Cyclic selection: an optional index into a list, stepped forwards and backwards
//! round the list.

use vstd::prelude::*;
use vstd::arithmetic::div_mod::lemma_add_mod_noop;
use vstd::arithmetic::div_mod::lemma_mod_add_multiples_vanish;
use vstd::arithmetic::div_mod::lemma_mod_bound;
use vstd::arithmetic::div_mod::lemma_mod_self_0;
use vstd::arithmetic::div_mod::lemma_mod_sub_multiples_vanish;
use vstd::arithmetic::div_mod::lemma_small_mod;
use vstd::arithmetic::div_mod::lemma_sub_mod_noop;

verus! {

/// Whether a selection points into a list of `count` items.
pub open spec fn selects_within(current: Option<usize>, count: nat) -> bool {
    current matches Some(i) ==> i < count
}

/// The selection after one step forwards over `count` items: nothing changes while
/// there is no item; without a selection the first item is selected; else the next
/// one, and the first after the last.
pub open spec fn advanced(current: Option<usize>, count: nat) -> Option<usize> {
    if count == 0 {
        current
    } else {
        match current {
            None => Some(0usize),
            Some(i) => Some(((i + 1) % (count as int)) as usize),
        }
    }
}

/// The selection after one step backwards over `count` items: nothing changes while
/// there is no item; without a selection the first item is selected; else the
/// previous one, and the last before the first.
pub open spec fn retreated(current: Option<usize>, count: nat) -> Option<usize> {
    if count == 0 {
        current
    } else {
        match current {
            None => Some(0usize),
            Some(i) => Some(((i + count - 1) % (count as int)) as usize),
        }
    }
}

/// The selection after `steps` steps forwards.
pub open spec fn advanced_by(current: Option<usize>, count: nat, steps: nat) -> Option<usize>
    decreases steps,
{
    if steps == 0 {
        current
    } else {
        advanced(advanced_by(current, count, (steps - 1) as nat), count)
    }
}

/// The selection after `steps` steps backwards.
pub open spec fn retreated_by(current: Option<usize>, count: nat, steps: nat) -> Option<usize>
    decreases steps,
{
    if steps == 0 {
        current
    } else {
        retreated(retreated_by(current, count, (steps - 1) as nat), count)
    }
}

/// Steps a selection over `count` items one item forwards.
pub fn advance(current: Option<usize>, count: usize) -> (next: Option<usize>)
    requires
        selects_within(current, count as nat),
    ensures
        next == advanced(current, count as nat),
        selects_within(next, count as nat),
        next.is_some() == (count > 0),
{
    if count == 0 {
        return current;
    }
    match current {
        None => Some(0),
        Some(index) => {
            proof {
                lemma_successor(index as int, count as int);
            }
            if index == count - 1 {
                Some(0)
            } else {
                Some(index + 1)
            }
        },
    }
}

/// Steps a selection over `count` items one item backwards.
pub fn retreat(current: Option<usize>, count: usize) -> (previous: Option<usize>)
    requires
        selects_within(current, count as nat),
    ensures
        previous == retreated(current, count as nat),
        selects_within(previous, count as nat),
        previous.is_some() == (count > 0),
{
    if count == 0 {
        return current;
    }
    match current {
        None => Some(0),
        Some(index) => {
            proof {
                lemma_predecessor(index as int, count as int);
            }
            if index == 0 {
                Some(count - 1)
            } else {
                Some(index - 1)
            }
        },
    }
}

/// On a ring of `count` places the successor of the last place is the first, and the
/// successor of any other place is the next one.
pub proof fn lemma_successor(i: int, count: int)
    requires
        0 <= i < count,
    ensures
        (i + 1) % count == if i + 1 == count {
            0
        } else {
            i + 1
        },
{
    if i + 1 == count {
        lemma_mod_self_0(count);
    } else {
        lemma_small_mod((i + 1) as nat, count as nat);
    }
}

/// On a ring of `count` places the predecessor of the first place is the last, and the
/// predecessor of any other place is the one before.
pub proof fn lemma_predecessor(i: int, count: int)
    requires
        0 <= i < count,
    ensures
        (i + count - 1) % count == if i == 0 {
            count - 1
        } else {
            i - 1
        },
{
    if i == 0 {
        lemma_small_mod((count - 1) as nat, count as nat);
    } else {
        lemma_mod_add_multiples_vanish(i - 1, count);
        lemma_small_mod((i - 1) as nat, count as nat);
    }
}

/// `steps` steps forwards of item `start`, among `count` items, lead to item
/// `(start + steps) mod count`.
pub proof fn lemma_advanced_by(start: usize, count: nat, steps: nat)
    requires
        start < count <= usize::MAX,
    ensures
        advanced_by(Some(start), count, steps) == Some(
            ((start + steps) % (count as int)) as usize,
        ),
    decreases steps,
{
    let m = count as int;
    if steps == 0 {
        lemma_small_mod(start as nat, count);
    } else {
        lemma_advanced_by(start, count, (steps - 1) as nat);
        let before = (start + steps - 1) % m;
        lemma_mod_bound(start + steps - 1, m);
        lemma_add_mod_noop(start + steps - 1, 1, m);
        if m > 1 {
            lemma_small_mod(1, count);
        }
        assert((before + 1) % m == (start + steps) % m);
    }
}

/// `steps` steps backwards of item `start`, among `count` items, lead to item
/// `(start - steps) mod count`.
pub proof fn lemma_retreated_by(start: usize, count: nat, steps: nat)
    requires
        start < count <= usize::MAX,
    ensures
        retreated_by(Some(start), count, steps) == Some(
            ((start - steps) % (count as int)) as usize,
        ),
    decreases steps,
{
    let m = count as int;
    if steps == 0 {
        lemma_small_mod(start as nat, count);
    } else {
        lemma_retreated_by(start, count, (steps - 1) as nat);
        let before = (start - steps + 1) % m;
        lemma_mod_bound(start - steps + 1, m);
        lemma_mod_add_multiples_vanish(before - 1, m);
        lemma_sub_mod_noop(start - steps + 1, 1, m);
        if m > 1 {
            lemma_small_mod(1, count);
        }
        assert((before + m - 1) % m == (start - steps) % m);
    }
}

/// Closure of advancing: from any selected item, one step forwards for each item of
/// the list ends at the item where it started.
pub proof fn lemma_advance_closure(start: usize, count: nat)
    requires
        start < count <= usize::MAX,
    ensures
        advanced_by(Some(start), count, count) == Some(start),
{
    lemma_advanced_by(start, count, count);
    lemma_mod_add_multiples_vanish(start as int, count as int);
    lemma_small_mod(start as nat, count);
}

/// Closure of retreating: from any selected item, one step backwards for each item of
/// the list ends at the item where it started.
pub proof fn lemma_retreat_closure(start: usize, count: nat)
    requires
        start < count <= usize::MAX,
    ensures
        retreated_by(Some(start), count, count) == Some(start),
{
    lemma_retreated_by(start, count, count);
    lemma_mod_sub_multiples_vanish(start as int, count as int);
    lemma_small_mod(start as nat, count);
}

/// A step forwards and then a step backwards, or the other way round, end at the item
/// where they started.
pub proof fn lemma_advance_retreat_inverse(start: usize, count: nat)
    requires
        start < count <= usize::MAX,
    ensures
        retreated(advanced(Some(start), count), count) == Some(start),
        advanced(retreated(Some(start), count), count) == Some(start),
{
    lemma_successor(start as int, count as int);
    lemma_predecessor(start as int, count as int);
    let next = (start + 1) % (count as int);
    let previous = (start + count - 1) % (count as int);
    lemma_predecessor(next, count as int);
    lemma_successor(previous, count as int);
}

} // verus!
