//! Page lifecycle management for consistent initialization and cleanup.
use vstd::prelude::*;
use std::time::{Duration, Instant};
use crate::time::{instant_elapsed, instant_now};

verus! {

/// Page lifecycle states.
#[derive(Debug, Clone, PartialEq, Eq)]
pub enum LifecycleState {
    /// Page is being created
    Initializing,
    /// Page is ready and active
    Active,
    /// Page is being updated
    Updating,
    /// Page is being destroyed
    Destroying,
    /// Page encountered an error
    Error(String),
}

/// The operations that move a page through its lifecycle.
#[derive(Debug, Clone, PartialEq, Eq)]
pub enum LifecycleOp {
    /// `set_state` with the given state
    SetState(LifecycleState),
    /// `mark_initialized`
    MarkInitialized,
    /// `mark_updated`
    MarkUpdated,
    /// `mark_updating`
    MarkUpdating,
    /// `mark_destroying`
    MarkDestroying,
    /// `set_error` with the given message
    SetError(String),
}

/// Page lifecycle manager.
#[derive(Debug, Clone)]
pub struct PageLifecycle {
    state: LifecycleState,
    created_at: Instant,
    last_updated: Option<Instant>,
    update_count: u32,
    initialized: bool,
}

impl PageLifecycle {
    /// The current lifecycle state.
    pub closed spec fn state_spec(&self) -> LifecycleState {
        self.state
    }

    /// Whether the page has ever been made active.
    pub closed spec fn initialized_spec(&self) -> bool {
        self.initialized
    }

    /// How many updates the page has been through.
    pub closed spec fn update_count_spec(&self) -> u32 {
        self.update_count
    }

    /// Whether the page has been updated at least once.
    pub closed spec fn has_updated_spec(&self) -> bool {
        self.last_updated is Some
    }

    /// Create a new page lifecycle.
    pub fn new() -> (res: Self)
        ensures
            res.state_spec() == LifecycleState::Initializing,
            !res.initialized_spec(),
            res.update_count_spec() == 0,
            !res.has_updated_spec(),
    {
        PageLifecycle {
            state: LifecycleState::Initializing,
            created_at: instant_now(),
            last_updated: None,
            update_count: 0,
            initialized: false,
        }
    }

    /// Get the current lifecycle state.
    pub fn state(&self) -> (res: &LifecycleState)
        ensures
            *res == self.state_spec(),
    {
        &self.state
    }

    /// Set the lifecycle state; becoming active marks the page initialized.
    pub fn set_state(&mut self, state: LifecycleState)
        ensures
            lifecycle_step(*old(self), LifecycleOp::SetState(state), *final(self)),
            final(self).state_spec() == state,
            final(self).initialized_spec() == (old(self).initialized_spec()
                || state == LifecycleState::Active),
            final(self).update_count_spec() == old(self).update_count_spec(),
            final(self).has_updated_spec() == old(self).has_updated_spec(),
    {
        if matches!(state, LifecycleState::Active) && !self.initialized {
            self.initialized = true;
        }
        self.state = state;
    }

    /// Mark the page as initialized and active.
    pub fn mark_initialized(&mut self)
        ensures
            lifecycle_step(*old(self), LifecycleOp::MarkInitialized, *final(self)),
            final(self).state_spec() == LifecycleState::Active,
            final(self).initialized_spec(),
            final(self).update_count_spec() == old(self).update_count_spec(),
            final(self).has_updated_spec() == old(self).has_updated_spec(),
    {
        self.state = LifecycleState::Active;
        self.initialized = true;
    }

    /// Mark the page as updated; an update in progress ends with the page active.
    pub fn mark_updated(&mut self)
        requires
            old(self).update_count_spec() < u32::MAX,
        ensures
            lifecycle_step(*old(self), LifecycleOp::MarkUpdated, *final(self)),
            final(self).update_count_spec() == old(self).update_count_spec() + 1,
            final(self).has_updated_spec(),
            final(self).state_spec() == (if old(self).state_spec() == LifecycleState::Updating {
                LifecycleState::Active
            } else {
                old(self).state_spec()
            }),
            final(self).initialized_spec() == old(self).initialized_spec(),
    {
        self.last_updated = Some(instant_now());
        self.update_count = self.update_count + 1;
        if matches!(self.state, LifecycleState::Updating) {
            self.state = LifecycleState::Active;
        }
    }

    /// Mark the page as updating.
    pub fn mark_updating(&mut self)
        ensures
            lifecycle_step(*old(self), LifecycleOp::MarkUpdating, *final(self)),
            final(self).state_spec() == LifecycleState::Updating,
            final(self).initialized_spec() == old(self).initialized_spec(),
            final(self).update_count_spec() == old(self).update_count_spec(),
            final(self).has_updated_spec() == old(self).has_updated_spec(),
    {
        self.state = LifecycleState::Updating;
    }

    /// Mark the page as being destroyed.
    pub fn mark_destroying(&mut self)
        ensures
            lifecycle_step(*old(self), LifecycleOp::MarkDestroying, *final(self)),
            final(self).state_spec() == LifecycleState::Destroying,
            final(self).initialized_spec() == old(self).initialized_spec(),
            final(self).update_count_spec() == old(self).update_count_spec(),
            final(self).has_updated_spec() == old(self).has_updated_spec(),
    {
        self.state = LifecycleState::Destroying;
    }

    /// Set an error state.
    pub fn set_error(&mut self, error: String)
        ensures
            lifecycle_step(*old(self), LifecycleOp::SetError(error), *final(self)),
            final(self).state_spec() == LifecycleState::Error(error),
            final(self).initialized_spec() == old(self).initialized_spec(),
            final(self).update_count_spec() == old(self).update_count_spec(),
            final(self).has_updated_spec() == old(self).has_updated_spec(),
    {
        self.state = LifecycleState::Error(error);
    }

    /// Check if the page is initialized.
    pub fn is_initialized(&self) -> (res: bool)
        ensures
            res == self.initialized_spec(),
    {
        self.initialized
    }

    /// Check if the page is active.
    pub fn is_active(&self) -> (res: bool)
        ensures
            res == (self.state_spec() == LifecycleState::Active),
    {
        matches!(self.state, LifecycleState::Active)
    }

    /// Check if the page is in an error state.
    pub fn is_error(&self) -> (res: bool)
        ensures
            res == (self.state_spec() is Error),
    {
        matches!(self.state, LifecycleState::Error(_))
    }

    /// Get the error message if in error state.
    pub fn error_message(&self) -> (res: Option<&String>)
        ensures
            res == match self.state_spec() {
                LifecycleState::Error(msg) => Some(&msg),
                _ => None::<&String>,
            },
    {
        match &self.state {
            LifecycleState::Error(msg) => Some(msg),
            _ => None,
        }
    }

    /// Get the age of the page; it depends on the clock.
    pub fn age(&self) -> (res: Duration) {
        instant_elapsed(&self.created_at)
    }

    /// Get the time since last update: present exactly when the page has been updated.
    pub fn time_since_update(&self) -> (res: Option<Duration>)
        ensures
            res is Some == self.has_updated_spec(),
    {
        match &self.last_updated {
            Some(t) => Some(instant_elapsed(t)),
            None => None,
        }
    }

    /// Get the number of updates.
    pub fn update_count(&self) -> (res: u32)
        ensures
            res == self.update_count_spec(),
    {
        self.update_count
    }
}

/// `after` is what `op` makes of `before`, as far as the state and the initialized
/// flag go.
pub open spec fn lifecycle_step(before: PageLifecycle, op: LifecycleOp, after: PageLifecycle) -> bool {
    match op {
        LifecycleOp::SetState(s) => {
            &&& after.state_spec() == s
            &&& after.initialized_spec() == (before.initialized_spec() || s == LifecycleState::Active)
        },
        LifecycleOp::MarkInitialized => {
            &&& after.state_spec() == LifecycleState::Active
            &&& after.initialized_spec()
        },
        LifecycleOp::MarkUpdated => {
            &&& after.state_spec() == (if before.state_spec() == LifecycleState::Updating {
                LifecycleState::Active
            } else {
                before.state_spec()
            })
            &&& after.initialized_spec() == before.initialized_spec()
        },
        LifecycleOp::MarkUpdating => {
            &&& after.state_spec() == LifecycleState::Updating
            &&& after.initialized_spec() == before.initialized_spec()
        },
        LifecycleOp::MarkDestroying => {
            &&& after.state_spec() == LifecycleState::Destroying
            &&& after.initialized_spec() == before.initialized_spec()
        },
        LifecycleOp::SetError(e) => {
            &&& after.state_spec() == LifecycleState::Error(e)
            &&& after.initialized_spec() == before.initialized_spec()
        },
    }
}

/// Once a page is initialized it stays initialized: along any run of lifecycle
/// operations (`trace[i + 1]` being what `ops[i]` makes of `trace[i]`) that starts
/// from an initialized page, every page of the run is initialized.
pub proof fn lemma_initialized_persists(trace: Seq<PageLifecycle>, ops: Seq<LifecycleOp>)
    requires
        trace.len() == ops.len() + 1,
        forall|i: int| #![trigger ops[i]] 0 <= i < ops.len() ==> lifecycle_step(trace[i], ops[i], trace[i + 1]),
        trace[0].initialized_spec(),
    ensures
        forall|i: int| 0 <= i < trace.len() ==> #[trigger] trace[i].initialized_spec(),
{
    assert forall|i: int| 0 <= i < trace.len() implies #[trigger] trace[i].initialized_spec() by {
        lemma_initialized_upto(trace, ops, i);
    }
}

proof fn lemma_initialized_upto(trace: Seq<PageLifecycle>, ops: Seq<LifecycleOp>, n: int)
    requires
        trace.len() == ops.len() + 1,
        forall|i: int| #![trigger ops[i]] 0 <= i < ops.len() ==> lifecycle_step(trace[i], ops[i], trace[i + 1]),
        trace[0].initialized_spec(),
        0 <= n < trace.len(),
    ensures
        trace[n].initialized_spec(),
    decreases n,
{
    if n > 0 {
        lemma_initialized_upto(trace, ops, n - 1);
        assert(lifecycle_step(trace[n - 1], ops[n - 1], trace[n]));
    }
}

impl Default for PageLifecycle {
    fn default() -> (res: Self)
        ensures
            res.state_spec() == LifecycleState::Initializing,
            !res.initialized_spec(),
            res.update_count_spec() == 0,
            !res.has_updated_spec(),
    {
        Self::new()
    }
}

} // verus!
