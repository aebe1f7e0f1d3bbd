use vstd::prelude::*;
use crate::action::Action;
use crate::component::Component;
use crate::event::Event;

verus! {

/// The longest chain of actions that one event may set off.
pub const CHAIN_LIMIT: usize = 64;

/// What resolving a chain of actions comes to.
pub struct Settled<C> {
    /// The component after the last applied action.
    pub component: C,
    /// How many actions were applied.
    pub updates: nat,
    /// Whether an action was still pending when the limit was reached.
    pub overflow: bool,
}

/// Applies `pending` and then each follow-up in turn, at most `limit`
/// actions in all.
pub open spec fn chain<C: Component>(c: C, pending: Option<Action>, limit: nat) -> Settled<C>
    decreases limit,
{
    match pending {
        None => Settled { component: c, updates: 0, overflow: false },
        Some(a) => if limit == 0 {
            Settled { component: c, updates: 0, overflow: true }
        } else {
            let rest = chain(c.applied(a), c.follow_up(a), (limit - 1) as nat);
            Settled { component: rest.component, updates: rest.updates + 1, overflow: rest.overflow }
        },
    }
}

/// A chain never applies more actions than the limit allows, and it is cut
/// off only where the limit is used up.
pub proof fn chain_is_bounded<C: Component>(c: C, pending: Option<Action>, limit: nat)
    ensures
        chain(c, pending, limit).updates <= limit,
        chain(c, pending, limit).overflow ==> chain(c, pending, limit).updates == limit,
        pending.is_none() ==> chain(c, pending, limit).component == c,
    decreases limit,
{
    match pending {
        None => {},
        Some(a) => {
            if limit > 0 {
                chain_is_bounded(c.applied(a), c.follow_up(a), (limit - 1) as nat);
            }
        },
    }
}

/// One dispatch round: the event is translated, and the chain that the
/// translation sets off is resolved.
pub open spec fn settle<C: Component>(c: C, event: Event, limit: nat) -> Settled<C> {
    chain(c, Some(c.translated(event)), limit)
}

/// How a dispatch round ended.
#[derive(Clone, Copy, Debug, PartialEq, Eq, Structural)]
pub enum Outcome {
    /// The chain was resolved and the loop goes on.
    Continue,
    /// The chain was resolved and the loop ends: the event was `Quit`, or
    /// the component is no longer running.
    Stopped,
    /// The chain was cut off at the limit; this is fatal.
    ChainOverflow,
}

/// The outcome that a settled round and its event call for.
pub open spec fn outcome_of<C: Component>(s: Settled<C>, event: Event) -> Outcome {
    if s.overflow {
        Outcome::ChainOverflow
    } else if event == Event::Quit || !s.component.running() {
        Outcome::Stopped
    } else {
        Outcome::Continue
    }
}

/// The count of applied actions and the verdict of one dispatch round.
#[derive(Clone, Copy, Debug, PartialEq, Eq, Structural)]
pub struct Round {
    pub updates: usize,
    pub outcome: Outcome,
}

/// The result of draining one chain.
#[derive(Clone, Copy, Debug, PartialEq, Eq, Structural)]
pub struct Drained {
    pub updates: usize,
    pub overflow: bool,
}

/// Applies `first` and every follow-up it sets off, stopping after `limit`
/// actions at the latest.
pub fn drain<C: Component>(component: &mut C, first: Action, limit: usize) -> (r: Drained)
    ensures
        r.updates <= limit,
        *final(component) == chain(*old(component), Some(first), limit as nat).component,
        r.updates == chain(*old(component), Some(first), limit as nat).updates,
        r.overflow == chain(*old(component), Some(first), limit as nat).overflow,
{
    let mut pending: Option<Action> = Some(first);
    let mut n: usize = 0;
    while pending.is_some() && n < limit
        invariant
            n <= limit,
            chain(*old(component), Some(first), limit as nat).component == chain(
                *component,
                pending,
                (limit - n) as nat,
            ).component,
            chain(*old(component), Some(first), limit as nat).updates == chain(
                *component,
                pending,
                (limit - n) as nat,
            ).updates + n,
            chain(*old(component), Some(first), limit as nat).overflow == chain(
                *component,
                pending,
                (limit - n) as nat,
            ).overflow,
        decreases limit - n,
    {
        let action = pending.unwrap();
        pending = component.dispatch(action);
        n = n + 1;
    }
    Drained { updates: n, overflow: pending.is_some() }
}

/// Runs one dispatch round for `event`: translate, drain, then decide
/// whether the loop goes on.
pub fn step<C: Component>(component: &mut C, event: Event, limit: usize) -> (r: Round)
    ensures
        r.updates <= limit,
        *final(component) == settle(*old(component), event, limit as nat).component,
        r.updates == settle(*old(component), event, limit as nat).updates,
        r.outcome == outcome_of(settle(*old(component), event, limit as nat), event),
{
    let action = component.handle_events(event);
    let drained = drain(component, action, limit);
    let outcome = if drained.overflow {
        Outcome::ChainOverflow
    } else if event == Event::Quit || !component.is_running() {
        Outcome::Stopped
    } else {
        Outcome::Continue
    };
    Round { updates: drained.updates, outcome }
}

} // verus!
