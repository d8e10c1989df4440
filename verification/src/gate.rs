//! The mode gate: behavior groups, their mode predicates, and the pure
//! eligibility query the scheduler asks before running each group.

use vstd::prelude::*;
use crate::store::Mode;

verus! {

/// A per-tick runnable unit. The units themselves (camera movement,
/// sprite spinning, the pause toggle, exit on a keypress) are performed
/// by the surrounding engine loop; the controller only decides which of
/// them may run each tick.
#[derive(Clone, Copy, PartialEq, Eq, Hash, Debug, Structural)]
pub enum Unit {
    MoveCamera,
    SpinSprite,
    PauseToggle,
    ExitOnKey,
}

/// A named set of units sharing one mode predicate: the group runs only
/// when the predicate matches the active mode. A group with no predicate
/// (`required` is `None`) is always eligible.
pub struct BehaviorGroup {
    pub required: Option<Mode>,
    pub units: Vec<Unit>,
}

/// All behavior groups, in the fixed order the scheduler visits them.
/// Groups are registered once at startup and never change afterwards.
pub struct Schedule {
    pub groups: Vec<BehaviorGroup>,
}

/// Whether a group with predicate `required` may run while `current` is
/// the active mode.
pub open spec fn group_eligible(required: Option<Mode>, current: Mode) -> bool {
    match required {
        None => true,
        Some(m) => m == current,
    }
}

/// Whether unit `u` may run while `current` is the active mode: some
/// group that holds `u` is eligible.
pub open spec fn unit_eligible(s: Schedule, current: Mode, u: Unit) -> bool {
    exists|i: int|
        0 <= i < s.groups@.len() && group_eligible(#[trigger] s.groups@[i].required, current)
            && s.groups@[i].units@.contains(u)
}

/// The units that run this tick: the units of every eligible group, in
/// schedule order, each group's units in registration order, starting
/// from group `i`.
pub open spec fn eligible_from(groups: Seq<BehaviorGroup>, current: Mode, i: int) -> Seq<Unit>
    decreases groups.len() - i,
{
    if i < 0 || i >= groups.len() {
        Seq::empty()
    } else {
        let head = if group_eligible(groups[i].required, current) {
            groups[i].units@
        } else {
            Seq::<Unit>::empty()
        };
        head + eligible_from(groups, current, i + 1)
    }
}

/// The units that run this tick, over the whole schedule.
pub open spec fn eligible_units_of(s: Schedule, current: Mode) -> Seq<Unit> {
    eligible_from(s.groups@, current, 0)
}

impl BehaviorGroup {
    /// A pure eligibility query with no side effects: it may run any
    /// number of times per tick.
    pub fn is_eligible(&self, current: Mode) -> (r: bool)
        ensures
            r == group_eligible(self.required, current),
    {
        match self.required {
            None => true,
            Some(m) => m == current,
        }
    }

    /// Whether this group holds unit `u`.
    pub fn has_unit(&self, u: Unit) -> (r: bool)
        ensures
            r == self.units@.contains(u),
    {
        let mut j: usize = 0;
        while j < self.units.len()
            invariant
                0 <= j <= self.units@.len(),
                forall|k: int| 0 <= k < j ==> self.units@[k] != u,
            decreases self.units@.len() - j,
        {
            if self.units[j] == u {
                return true;
            }
            j = j + 1;
        }
        false
    }
}

impl Schedule {
    /// Whether unit `u` may run while `current` is the active mode.
    pub fn is_unit_eligible(&self, current: Mode, u: Unit) -> (r: bool)
        ensures
            r == unit_eligible(*self, current, u),
    {
        let mut i: usize = 0;
        while i < self.groups.len()
            invariant
                0 <= i <= self.groups@.len(),
                forall|k: int|
                    0 <= k < i ==> !(group_eligible(#[trigger] self.groups@[k].required, current)
                        && self.groups@[k].units@.contains(u)),
            decreases self.groups@.len() - i,
        {
            let g = &self.groups[i];
            if g.is_eligible(current) && g.has_unit(u) {
                return true;
            }
            i = i + 1;
        }
        false
    }

    /// The units that run this tick, in the fixed deterministic order the
    /// scheduler uses: eligible groups in schedule order, each group's
    /// units in registration order.
    pub fn eligible_units(&self, current: Mode) -> (r: Vec<Unit>)
        ensures
            r@ == eligible_units_of(*self, current),
    {
        let mut r: Vec<Unit> = Vec::new();
        let mut i: usize = 0;
        while i < self.groups.len()
            invariant
                0 <= i <= self.groups@.len(),
                eligible_from(self.groups@, current, 0) == r@ + eligible_from(
                    self.groups@,
                    current,
                    i as int,
                ),
            decreases self.groups@.len() - i,
        {
            let g = &self.groups[i];
            let ghost r0 = r@;
            if g.is_eligible(current) {
                let mut j: usize = 0;
                proof {
                    assert(r@ =~= r0 + g.units@.take(0));
                }
                while j < g.units.len()
                    invariant
                        0 <= j <= g.units@.len(),
                        r@ == r0 + g.units@.take(j as int),
                    decreases g.units@.len() - j,
                {
                    r.push(g.units[j]);
                    j = j + 1;
                    proof {
                        assert(r@ =~= r0 + g.units@.take(j as int));
                    }
                }
                proof {
                    assert(g.units@.take(g.units@.len() as int) =~= g.units@);
                }
            }
            proof {
                assert(r@ + eligible_from(self.groups@, current, i + 1) =~= r0 + eligible_from(
                    self.groups@,
                    current,
                    i as int,
                ));
            }
            i = i + 1;
        }
        proof {
            assert(r@ + eligible_from(self.groups@, current, self.groups@.len() as int) =~= r@);
        }
        r
    }
}

} // verus!
