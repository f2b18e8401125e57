//! Scheduling of deliberately delayed list-navigation actions.  Each
//! schedule call names, in order, exactly what is pushed onto the bus
//! after the debounce delay: `EnterProcessing`, the real action, then
//! `ExitProcessing` — so the UI can show a busy indicator while rapid
//! repeated key presses collapse into the intended cadence.  The caller
//! performs the delay and pushes the three actions in the given order,
//! with nothing in between.
use vstd::prelude::*;

use crate::action::Action;

verus! {

/// The bracket for one scheduled action: the action always stands
/// strictly between one `EnterProcessing` and one `ExitProcessing`,
/// in that order.
pub fn schedule_generic_action(action: Action) -> (r: Vec<Action>)
    ensures
        r@ == seq![Action::EnterProcessing, action, Action::ExitProcessing],
{
    let ghost a = action;
    let mut v: Vec<Action> = Vec::new();
    v.push(Action::EnterProcessing);
    v.push(action);
    v.push(Action::ExitProcessing);
    proof {
        assert(v@ =~= seq![Action::EnterProcessing, a, Action::ExitProcessing]);
    }
    v
}

/// Schedule stepping the log list to its next entry.
pub fn schedule_next_loglist() -> (r: Vec<Action>)
    ensures
        r@ == seq![Action::EnterProcessing, Action::LogsNext, Action::ExitProcessing],
{
    schedule_generic_action(Action::LogsNext)
}

/// Schedule stepping the log list to its previous entry.
pub fn schedule_previous_loglist() -> (r: Vec<Action>)
    ensures
        r@ == seq![Action::EnterProcessing, Action::LogsPrevious, Action::ExitProcessing],
{
    schedule_generic_action(Action::LogsPrevious)
}

/// Schedule jumping the log list to its first entry.
pub fn schedule_first_loglist() -> (r: Vec<Action>)
    ensures
        r@ == seq![Action::EnterProcessing, Action::LogsFirst, Action::ExitProcessing],
{
    schedule_generic_action(Action::LogsFirst)
}

/// Schedule jumping the log list to its last entry.
pub fn schedule_last_loglist() -> (r: Vec<Action>)
    ensures
        r@ == seq![Action::EnterProcessing, Action::LogsLast, Action::ExitProcessing],
{
    schedule_generic_action(Action::LogsLast)
}

/// Schedule stepping the IP list to its next entry.
pub fn schedule_next_iplist() -> (r: Vec<Action>)
    ensures
        r@ == seq![Action::EnterProcessing, Action::IPsNext, Action::ExitProcessing],
{
    schedule_generic_action(Action::IPsNext)
}

/// Schedule stepping the IP list to its previous entry.
pub fn schedule_previous_iplist() -> (r: Vec<Action>)
    ensures
        r@ == seq![Action::EnterProcessing, Action::IPsPrevious, Action::ExitProcessing],
{
    schedule_generic_action(Action::IPsPrevious)
}

} // verus!
