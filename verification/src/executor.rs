//! The slot that holds the manager of the scan in progress.
//!
//! The executor reaches the manager from many places. It keeps one slot for
//! the whole process and goes through the two accessors below: the first
//! call of a scan asks for a fresh manager, every later call of that scan
//! asks for the current one.

use vstd::prelude::*;
use crate::manager::Manager;
use crate::model::ManagerView;

verus! {

/// Holds at most one manager. The slot is empty until the first access and
/// occupied from then on.
pub struct ExecutorSlot {
    current: Option<Manager>,
}

impl View for ExecutorSlot {
    type V = Option<ManagerView>;

    closed spec fn view(&self) -> Option<ManagerView> {
        match self.current {
            Some(manager) => Some(manager@),
            None => None,
        }
    }
}

impl ExecutorSlot {
    /// The state of the manager that an access to this slot finds: the one
    /// that the slot holds, or a fresh one where it holds none yet.
    pub open spec fn current(self) -> ManagerView {
        match self@ {
            Some(state) => state,
            None => ManagerView::fresh(),
        }
    }

    /// An empty slot.
    pub fn new() -> (slot: Self)
        ensures
            slot@ is None,
    {
        ExecutorSlot { current: None }
    }
}

/// Hands out the manager of the scan in progress. An empty slot is first
/// filled with a fresh manager; an occupied one is left as it is. Whatever
/// the caller does to the manager through the returned reference is what the
/// slot holds afterwards.
pub fn get_current_executor_manager(slot: &mut ExecutorSlot) -> (manager: &mut Manager)
    ensures
        manager@ == old(slot).current(),
        final(slot)@ == Some(final(manager)@),
{
    slot.current.get_or_insert(Manager::new())
}

/// Discards whatever the slot holds and hands out a fresh manager in its
/// place. Called once, when a scan starts. Whatever the caller does to the
/// manager through the returned reference is what the slot holds afterwards.
pub fn get_fresh_executor_manager(slot: &mut ExecutorSlot) -> (manager: &mut Manager)
    ensures
        manager@ == ManagerView::fresh(),
        final(slot)@ == Some(final(manager)@),
{
    slot.current.insert(Manager::new())
}

} // verus!
