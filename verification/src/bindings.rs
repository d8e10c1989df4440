//! Transition bindings: handler actions bound to entering or exiting a
//! specific mode, registered once at startup and immutable afterwards.

use vstd::prelude::*;
use crate::store::Mode;
use crate::world::HandlerAction;

verus! {

/// The hook a binding is attached to: entering or exiting one mode.
#[derive(Clone, Copy, PartialEq, Eq, Hash, Debug, Structural)]
pub enum HookPoint {
    Enter(Mode),
    Exit(Mode),
}

/// One binding: when `hook` fires, the handler performs `action`.
/// Several bindings may share a hook; they fire in insertion order.
#[derive(Clone, Copy, PartialEq, Eq, Debug, Structural)]
pub struct Binding {
    pub hook: HookPoint,
    pub action: HandlerAction,
}

/// The registry of transition bindings, in insertion order.
pub struct Bindings {
    pub entries: Vec<Binding>,
}

/// The actions bound to hook `h` among the entries from index `i` on,
/// in insertion order.
pub open spec fn actions_for_spec(entries: Seq<Binding>, h: HookPoint, i: int) -> Seq<
    HandlerAction,
>
    decreases entries.len() - i,
{
    if i < 0 || i >= entries.len() {
        Seq::empty()
    } else {
        let rest = actions_for_spec(entries, h, i + 1);
        if entries[i].hook == h {
            seq![entries[i].action] + rest
        } else {
            rest
        }
    }
}

/// The actions a committed `(from, to)` edge fires, in order: first
/// every binding on exiting `from`, then every binding on entering
/// `to`, each set in insertion order.
pub open spec fn fired_actions(entries: Seq<Binding>, from: Mode, to: Mode) -> Seq<
    HandlerAction,
> {
    actions_for_spec(entries, HookPoint::Exit(from), 0) + actions_for_spec(
        entries,
        HookPoint::Enter(to),
        0,
    )
}

impl Bindings {
    /// An empty registry.
    pub fn new() -> (b: Self)
        ensures
            b.entries@ =~= Seq::<Binding>::empty(),
    {
        Bindings { entries: Vec::new() }
    }

    /// Registers one more binding, after every binding registered so
    /// far.
    pub fn register(&mut self, hook: HookPoint, action: HandlerAction)
        ensures
            final(self).entries@ == old(self).entries@.push(
                Binding { hook, action },
            ),
    {
        self.entries.push(Binding { hook, action });
    }

    /// Collects the actions bound to hook `h`, in insertion order, into
    /// `out`.
    fn push_actions_for(&self, h: HookPoint, out: &mut Vec<HandlerAction>)
        ensures
            final(out)@ == old(out)@ + actions_for_spec(self.entries@, h, 0),
    {
        let mut i: usize = 0;
        while i < self.entries.len()
            invariant
                0 <= i <= self.entries@.len(),
                old(out)@ + actions_for_spec(self.entries@, h, 0) == out@ + actions_for_spec(
                    self.entries@,
                    h,
                    i as int,
                ),
            decreases self.entries@.len() - i,
        {
            let ghost prev = out@;
            if self.entries[i].hook == h {
                out.push(self.entries[i].action);
            }
            proof {
                assert(out@ + actions_for_spec(self.entries@, h, i + 1) =~= prev
                    + actions_for_spec(self.entries@, h, i as int));
            }
            i = i + 1;
        }
        proof {
            assert(out@ + actions_for_spec(self.entries@, h, self.entries@.len() as int) =~= out@);
        }
    }

    /// The actions bound to entering mode `m`, in insertion order: what
    /// fires for the initial mode at startup, before any tick.
    pub fn enter_actions(&self, m: Mode) -> (r: Vec<HandlerAction>)
        ensures
            r@ == actions_for_spec(self.entries@, HookPoint::Enter(m), 0),
    {
        let mut r: Vec<HandlerAction> = Vec::new();
        self.push_actions_for(HookPoint::Enter(m), &mut r);
        proof {
            assert(r@ =~= actions_for_spec(self.entries@, HookPoint::Enter(m), 0));
        }
        r
    }

    /// The actions a committed `(from, to)` edge fires, in firing
    /// order: exit bindings of `from`, then enter bindings of `to`.
    pub fn fired_for(&self, from: Mode, to: Mode) -> (r: Vec<HandlerAction>)
        ensures
            r@ == fired_actions(self.entries@, from, to),
    {
        let mut r: Vec<HandlerAction> = Vec::new();
        self.push_actions_for(HookPoint::Exit(from), &mut r);
        self.push_actions_for(HookPoint::Enter(to), &mut r);
        proof {
            assert(r@ =~= fired_actions(self.entries@, from, to));
        }
        r
    }
}

} // verus!
