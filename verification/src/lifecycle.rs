//! The fallible-construct / guaranteed-teardown contract every plugin
//! instance obeys.
//!
//! Construction is asynchronous on the host's side — it may suspend while
//! acquiring external resources — so the lifecycle here is driven in two
//! steps: `begin_construct` when the host starts the construct call, and
//! `complete_construct` with its outcome. A failed construction goes
//! straight to the terminal state without a teardown, because nothing was
//! acquired; a successful one must be torn down exactly once, and a second
//! teardown is a deliberate no-op so that explicit shutdown and host-driven
//! discard can race without fault.

use vstd::prelude::*;

use crate::errors::ExtensionError;

verus! {

/// The states a plugin instance moves through, in order. `TornDown` is
/// terminal.
#[derive(Clone, Copy, Debug, PartialEq, Eq, Structural)]
pub enum LifecycleState {
    /// No construct call has begun.
    Uninitialized,
    /// A construct call is in flight; it may suspend acquiring resources.
    Constructing,
    /// Construction succeeded; the lifecycle owns the instance and owes it
    /// exactly one teardown.
    Ready,
    /// Terminal: either construction failed (no teardown owed) or the
    /// instance was torn down.
    TornDown,
}

/// Supervises one plugin instance of type `P`: owns the instance while it is
/// ready, and guarantees its teardown runs at most once — and, for an
/// instance that reached `Ready`, exactly once on the shutdown path.
pub struct PluginLifecycle<P> {
    /// Where the instance stands in its lifecycle.
    pub state: LifecycleState,
    /// The constructed instance, owned exclusively while `Ready`.
    pub instance: Option<P>,
    /// How many times teardown has released the instance; never exceeds one.
    pub teardown_runs: u64,
}

impl<P> PluginLifecycle<P> {
    /// A lifecycle is well formed when it owns an instance exactly while
    /// ready, and has run teardown at most once, only ever in the terminal
    /// state.
    pub open spec fn wf(self) -> bool {
        &&& (self.state is Ready <==> self.instance is Some)
        &&& self.teardown_runs <= 1
        &&& (self.teardown_runs == 1 ==> self.state is TornDown)
    }

    /// The state a fresh lifecycle starts in.
    pub open spec fn spec_new() -> PluginLifecycle<P> {
        PluginLifecycle { state: LifecycleState::Uninitialized, instance: None, teardown_runs: 0 }
    }

    /// How the lifecycle steps when a construct call completes: success
    /// stores the instance and reaches `Ready`; failure goes straight to
    /// `TornDown` with the teardown counter untouched, because no resource
    /// was acquired.
    pub open spec fn spec_complete_construct(s: PluginLifecycle<P>, outcome: Result<P, String>) -> PluginLifecycle<P> {
        match outcome {
            Ok(instance) => PluginLifecycle {
                state: LifecycleState::Ready,
                instance: Some(instance),
                teardown_runs: s.teardown_runs,
            },
            Err(_) => PluginLifecycle {
                state: LifecycleState::TornDown,
                instance: None,
                teardown_runs: s.teardown_runs,
            },
        }
    }

    /// How the lifecycle steps on a teardown call: from `Ready` it releases
    /// the instance and counts the run; from any other state it changes
    /// nothing, which is what makes a second call a no-op.
    pub open spec fn spec_teardown(s: PluginLifecycle<P>) -> PluginLifecycle<P> {
        if s.state is Ready {
            PluginLifecycle {
                state: LifecycleState::TornDown,
                instance: None,
                teardown_runs: (s.teardown_runs + 1) as u64,
            }
        } else {
            s
        }
    }

    /// A fresh lifecycle: uninitialized, owning nothing, teardown never run.
    pub fn new() -> (lifecycle: PluginLifecycle<P>)
        ensures
            lifecycle == PluginLifecycle::<P>::spec_new(),
            lifecycle.wf(),
    {
        PluginLifecycle { state: LifecycleState::Uninitialized, instance: None, teardown_runs: 0 }
    }

    /// Record that the host has started the construct call. Only the state
    /// changes; nothing is owned until the call completes.
    pub fn begin_construct(&mut self)
        requires
            old(self).wf(),
            old(self).state is Uninitialized,
        ensures
            final(self).wf(),
            final(self).state is Constructing,
            final(self).instance == old(self).instance,
            final(self).teardown_runs == old(self).teardown_runs,
    {
        self.state = LifecycleState::Constructing;
    }

    /// Record the outcome of the construct call. On success the lifecycle
    /// reaches `Ready` owning the instance. On failure it transitions
    /// straight to `TornDown` without invoking teardown — the counter stays
    /// where it was — and the failure is surfaced to the caller as
    /// `ConstructionFailed`, not retried here. A construct cancelled
    /// mid-flight reports a failed outcome the same way, after releasing
    /// anything it had already acquired.
    pub fn complete_construct(&mut self, outcome: Result<P, String>) -> (surfaced: Result<(), ExtensionError>)
        requires
            old(self).wf(),
            old(self).state is Constructing,
        ensures
            final(self).wf(),
            *final(self) == PluginLifecycle::<P>::spec_complete_construct(*old(self), outcome),
            outcome is Ok ==> surfaced is Ok && final(self).state is Ready,
            outcome matches Err(reason) ==> final(self).state is TornDown
                && final(self).instance is None
                && final(self).teardown_runs == old(self).teardown_runs
                && surfaced == Err::<(), ExtensionError>(ExtensionError::ConstructionFailed(reason)),
    {
        match outcome {
            Ok(instance) => {
                self.state = LifecycleState::Ready;
                self.instance = Some(instance);
                Ok(())
            },
            Err(reason) => {
                self.state = LifecycleState::TornDown;
                self.instance = None;
                Err(ExtensionError::ConstructionFailed(reason))
            },
        }
    }

    /// Tear the instance down. From `Ready` this releases the owned instance
    /// to the caller — the one place resource release is guaranteed — and
    /// counts the run; a second call finds `TornDown`, changes nothing and
    /// releases nothing, so racing shutdown paths are never a fault.
    pub fn teardown(&mut self) -> (released: Option<P>)
        requires
            old(self).wf(),
            old(self).state is Ready || old(self).state is TornDown,
        ensures
            final(self).wf(),
            *final(self) == PluginLifecycle::<P>::spec_teardown(*old(self)),
            released == old(self).instance,
            final(self).state is TornDown,
            old(self).state is Ready ==> final(self).teardown_runs == old(self).teardown_runs + 1,
            old(self).state is TornDown ==> *final(self) == *old(self) && released is None,
    {
        match self.state {
            LifecycleState::Ready => {
                self.state = LifecycleState::TornDown;
                self.teardown_runs = self.teardown_runs + 1;
                self.instance.take()
            },
            _ => None,
        }
    }
}

/// Law: tearing down twice has the same observable effect as tearing down
/// once — the second application of the teardown step is the identity, so a
/// `Ready` instance's teardown runs exactly once however many times the call
/// races.
pub proof fn lemma_teardown_idempotent<P>(s: PluginLifecycle<P>)
    ensures
        PluginLifecycle::<P>::spec_teardown(PluginLifecycle::<P>::spec_teardown(s))
            == PluginLifecycle::<P>::spec_teardown(s),
{
}

/// Law: a construct call that fails moves the lifecycle straight to
/// `TornDown` with no intervening teardown — the teardown counter is still
/// zero afterwards — and no instance is ever owned.
pub proof fn lemma_failed_construct_skips_teardown<P>(s: PluginLifecycle<P>, reason: String)
    requires
        s.wf(),
        s.state is Constructing,
    ensures
        ({
            let failed = PluginLifecycle::<P>::spec_complete_construct(s, Err(reason));
            &&& failed.state is TornDown
            &&& failed.instance is None
            &&& failed.teardown_runs == 0
            &&& failed.wf()
        }),
{
}

} // verus!
