//! The lifecycle state machine of one loaded module instance.
//!
//! A module instance moves along a single linear chain of phases:
//! `Unloaded → Copied → Opened → Started → Enabled → Disabling → Stopped →
//! Terminal`. Construction is the first half (ending at `Enabled`), teardown
//! the second. The foreign calls themselves — copying the staged artifact,
//! opening the dynamic library, invoking the module's entry points — are made
//! by unverified glue outside this crate; that glue reports each outcome to a
//! [`Module`] value, which decides what may happen next and records the phase
//! history. The contracts here make skipping, reordering or repeating a
//! lifecycle step impossible for any caller that respects them.

use vstd::prelude::*;

use crate::errors::LoadFailure;

verus! {

/// One phase in the life of a module instance, in chain order.
#[derive(Clone, Copy, Debug, PartialEq, Eq, Structural)]
pub enum Phase {
    /// Nothing has happened yet; the staged artifact is not copied.
    Unloaded,
    /// The staged artifact was copied to the working-copy path.
    Copied,
    /// The working copy is open and all entry points are resolved.
    Opened,
    /// The start entry point returned success.
    Started,
    /// The enable entry point returned success; messages may be forwarded.
    Enabled,
    /// The disable entry point was invoked; teardown has begun.
    Disabling,
    /// The stop entry point was invoked.
    Stopped,
    /// The library handle was released; the instance is gone for good.
    Terminal,
}

/// Position of a phase along the lifecycle chain.
pub open spec fn rank(p: Phase) -> int {
    match p {
        Phase::Unloaded => 0,
        Phase::Copied => 1,
        Phase::Opened => 2,
        Phase::Started => 3,
        Phase::Enabled => 4,
        Phase::Disabling => 5,
        Phase::Stopped => 6,
        Phase::Terminal => 7,
    }
}

/// The lifecycle permits exactly the single step to the next rank.
pub open spec fn steps_to(pre: Phase, post: Phase) -> bool {
    rank(post) == rank(pre) + 1
}

/// A well-formed phase history: it starts at `Unloaded` and every later
/// entry is the immediate successor of the one before it.
pub open spec fn valid_path(h: Seq<Phase>) -> bool {
    &&& h.len() >= 1
    &&& h[0] == Phase::Unloaded
    &&& forall|i: int| 1 <= i < h.len() ==> steps_to(h[i - 1], #[trigger] h[i])
}

/// The next foreign call of the construction sequence.
#[derive(Clone, Copy, Debug, PartialEq, Eq, Structural)]
pub enum LoadAction {
    /// Copy the staged artifact over the working copy.
    CopyArtifact,
    /// Open the working copy as a dynamic library and resolve entry points.
    OpenWorkingCopy,
    /// Invoke the module's start entry point with identification buffers.
    InvokeStart,
    /// Invoke the module's enable entry point.
    InvokeEnable,
}

/// The next foreign call of the teardown sequence.
#[derive(Clone, Copy, Debug, PartialEq, Eq, Structural)]
pub enum TeardownAction {
    /// Invoke the module's disable entry point.
    InvokeDisable,
    /// Invoke the module's stop entry point.
    InvokeStop,
    /// Release the dynamic-library handle.
    UnloadLibrary,
}

/// Which construction step comes next in a given phase, provided the
/// instance has not failed: the chain order, and nothing once enabled.
pub open spec fn load_action_of(p: Phase) -> Option<LoadAction> {
    match p {
        Phase::Unloaded => Some(LoadAction::CopyArtifact),
        Phase::Copied => Some(LoadAction::OpenWorkingCopy),
        Phase::Opened => Some(LoadAction::InvokeStart),
        Phase::Started => Some(LoadAction::InvokeEnable),
        _ => None,
    }
}

/// Which teardown step comes next in a given phase: disable, then stop,
/// then unload; nothing before `Enabled` or after `Stopped`.
pub open spec fn teardown_action_of(p: Phase) -> Option<TeardownAction> {
    match p {
        Phase::Enabled => Some(TeardownAction::InvokeDisable),
        Phase::Disabling => Some(TeardownAction::InvokeStop),
        Phase::Stopped => Some(TeardownAction::UnloadLibrary),
        _ => None,
    }
}

/// One module instance: its current phase, whether a construction step
/// failed, and the history of phases it passed through.
pub struct Module {
    phase: Phase,
    failed: bool,
    hist: Ghost<Seq<Phase>>,
}

impl Module {
    /// The phase the instance is in now.
    pub closed spec fn phase(self) -> Phase {
        self.phase
    }

    /// Whether some construction step reported failure; a failed instance
    /// accepts no further lifecycle steps.
    pub closed spec fn has_failed(self) -> bool {
        self.failed
    }

    /// Every phase the instance has reached, oldest first.
    pub closed spec fn history(self) -> Seq<Phase> {
        self.hist@
    }

    /// A structurally sound instance: its history is a well-formed path
    /// ending in its current phase.
    pub closed spec fn wf(self) -> bool {
        &&& valid_path(self.hist@)
        &&& self.hist@.last() == self.phase
    }

    /// Messages may be forwarded to the instance: construction completed
    /// and teardown has not begun.
    pub open spec fn is_active(self) -> bool {
        self.phase() == Phase::Enabled
    }

    /// A fresh instance about to be constructed.
    pub fn new() -> (m: Module)
        ensures
            m.wf(),
            !m.has_failed(),
            m.phase() == Phase::Unloaded,
            m.history() == seq![Phase::Unloaded],
    {
        let ghost h: Seq<Phase> = seq![Phase::Unloaded];
        let m = Module { phase: Phase::Unloaded, failed: false, hist: Ghost(h) };
        proof {
            assert(m.hist@.len() == 1);
        }
        m
    }

    /// The current phase, for the glue that performs the foreign calls.
    pub fn current_phase(&self) -> (p: Phase)
        ensures
            p == self.phase(),
    {
        self.phase
    }

    /// Whether messages may be forwarded to this instance right now.
    pub fn can_receive_messages(&self) -> (b: bool)
        ensures
            b == self.is_active(),
    {
        matches!(self.phase, Phase::Enabled)
    }

    /// The construction step the caller must perform next, or `None` when
    /// construction is over (completed, failed, or torn down).
    pub fn next_load_action(&self) -> (a: Option<LoadAction>)
        ensures
            a == if self.has_failed() {
                None::<LoadAction>
            } else {
                load_action_of(self.phase())
            },
    {
        if self.failed {
            return None;
        }
        match self.phase {
            Phase::Unloaded => Some(LoadAction::CopyArtifact),
            Phase::Copied => Some(LoadAction::OpenWorkingCopy),
            Phase::Opened => Some(LoadAction::InvokeStart),
            Phase::Started => Some(LoadAction::InvokeEnable),
            _ => None,
        }
    }

    /// The teardown step the caller must perform next, or `None` when there
    /// is nothing (more) to tear down.
    pub fn next_teardown_action(&self) -> (a: Option<TeardownAction>)
        ensures
            a == teardown_action_of(self.phase()),
    {
        match self.phase {
            Phase::Enabled => Some(TeardownAction::InvokeDisable),
            Phase::Disabling => Some(TeardownAction::InvokeStop),
            Phase::Stopped => Some(TeardownAction::UnloadLibrary),
            _ => None,
        }
    }

    /// Record the outcome of copying the staged artifact to the working
    /// copy. On failure the attempt is over with `IoError` and the phase
    /// does not move: no foreign state was created.
    pub fn copy_done(&mut self, ok: bool) -> (r: Result<(), LoadFailure>)
        requires
            old(self).wf(),
            !old(self).has_failed(),
            old(self).phase() == Phase::Unloaded,
        ensures
            final(self).wf(),
            ok ==> r is Ok && !final(self).has_failed() && final(self).phase() == Phase::Copied
                && final(self).history() == old(self).history().push(Phase::Copied),
            !ok ==> r == Err::<(), LoadFailure>(LoadFailure::IoError) && final(self).has_failed()
                && final(self).phase() == old(self).phase() && final(self).history() == old(self).history(),
    {
        if ok {
            self.advance(Phase::Copied);
            Ok(())
        } else {
            self.failed = true;
            Err(LoadFailure::IoError)
        }
    }

    /// Record the outcome of opening the working copy and resolving all
    /// five entry points. On failure the attempt is over with `LoadError`.
    pub fn open_done(&mut self, ok: bool) -> (r: Result<(), LoadFailure>)
        requires
            old(self).wf(),
            !old(self).has_failed(),
            old(self).phase() == Phase::Copied,
        ensures
            final(self).wf(),
            ok ==> r is Ok && !final(self).has_failed() && final(self).phase() == Phase::Opened
                && final(self).history() == old(self).history().push(Phase::Opened),
            !ok ==> r == Err::<(), LoadFailure>(LoadFailure::LoadError) && final(self).has_failed()
                && final(self).phase() == old(self).phase() && final(self).history() == old(self).history(),
    {
        if ok {
            self.advance(Phase::Opened);
            Ok(())
        } else {
            self.failed = true;
            Err(LoadFailure::LoadError)
        }
    }

    /// Record what the start entry point returned. `ok` is its success
    /// flag; a false flag ends the attempt with `StartFailed`, and the
    /// instance counts as never started, so no teardown is owed.
    pub fn start_done(&mut self, ok: bool) -> (r: Result<(), LoadFailure>)
        requires
            old(self).wf(),
            !old(self).has_failed(),
            old(self).phase() == Phase::Opened,
        ensures
            final(self).wf(),
            ok ==> r is Ok && !final(self).has_failed() && final(self).phase() == Phase::Started
                && final(self).history() == old(self).history().push(Phase::Started),
            !ok ==> r == Err::<(), LoadFailure>(LoadFailure::StartFailed) && final(self).has_failed()
                && final(self).phase() == old(self).phase() && final(self).history() == old(self).history(),
    {
        if ok {
            self.advance(Phase::Started);
            Ok(())
        } else {
            self.failed = true;
            Err(LoadFailure::StartFailed)
        }
    }

    /// Record what the enable entry point returned. Success completes the
    /// construction: the instance is now the one place messages may go.
    pub fn enable_done(&mut self, ok: bool) -> (r: Result<(), LoadFailure>)
        requires
            old(self).wf(),
            !old(self).has_failed(),
            old(self).phase() == Phase::Started,
        ensures
            final(self).wf(),
            ok ==> r is Ok && !final(self).has_failed() && final(self).is_active()
                && final(self).history() == old(self).history().push(Phase::Enabled),
            !ok ==> r == Err::<(), LoadFailure>(LoadFailure::EnableFailed) && final(self).has_failed()
                && final(self).phase() == old(self).phase() && final(self).history() == old(self).history(),
    {
        if ok {
            self.advance(Phase::Enabled);
            Ok(())
        } else {
            self.failed = true;
            Err(LoadFailure::EnableFailed)
        }
    }

    /// Record that the disable entry point was invoked: teardown has begun
    /// and the instance stops receiving messages. Only a fully enabled
    /// instance may be disabled, and only once.
    pub fn disable_done(&mut self)
        requires
            old(self).wf(),
            !old(self).has_failed(),
            old(self).phase() == Phase::Enabled,
        ensures
            final(self).wf(),
            !final(self).has_failed(),
            final(self).phase() == Phase::Disabling,
            final(self).history() == old(self).history().push(Phase::Disabling),
    {
        self.advance(Phase::Disabling);
    }

    /// Record that the stop entry point was invoked, strictly after
    /// disable.
    pub fn stop_done(&mut self)
        requires
            old(self).wf(),
            !old(self).has_failed(),
            old(self).phase() == Phase::Disabling,
        ensures
            final(self).wf(),
            !final(self).has_failed(),
            final(self).phase() == Phase::Stopped,
            final(self).history() == old(self).history().push(Phase::Stopped),
    {
        self.advance(Phase::Stopped);
    }

    /// Record that the dynamic-library handle was released. The instance is
    /// terminal; no step applies to it any more.
    pub fn unload_done(&mut self)
        requires
            old(self).wf(),
            !old(self).has_failed(),
            old(self).phase() == Phase::Stopped,
        ensures
            final(self).wf(),
            !final(self).has_failed(),
            final(self).phase() == Phase::Terminal,
            final(self).history() == old(self).history().push(Phase::Terminal),
    {
        self.advance(Phase::Terminal);
    }

    /// Move one step along the chain and extend the history.
    fn advance(&mut self, next: Phase)
        requires
            old(self).wf(),
            steps_to(old(self).phase(), next),
        ensures
            final(self).wf(),
            final(self).has_failed() == old(self).has_failed(),
            final(self).phase() == next,
            final(self).history() == old(self).history().push(next),
    {
        self.phase = next;
        proof {
            let h0 = self.hist@;
            let h = h0.push(next);
            assert forall|i: int| 1 <= i < h.len() implies steps_to(h[i - 1], #[trigger] h[i]) by {
                if i < h0.len() {
                    assert(h[i] == h0[i]);
                    assert(h[i - 1] == h0[i - 1]);
                } else {
                    assert(h[i] == next);
                    assert(h[i - 1] == h0.last());
                }
            }
        }
        self.hist = Ghost(self.hist@.push(next));
    }
}

/// Along any well-formed history the rank climbs by exactly one per step.
proof fn lemma_rank_linear(h: Seq<Phase>, i: int, j: int)
    requires
        valid_path(h),
        0 <= i <= j < h.len(),
    ensures
        rank(h[j]) - rank(h[i]) == j - i,
    decreases j - i,
{
    if i < j {
        lemma_rank_linear(h, i, j - 1);
        assert(steps_to(h[j - 1], h[j]));
    }
}

/// Lifecycle pairing: in the life of one well-formed module instance no
/// phase is ever reached twice — in particular disable, stop and unload
/// each run at most once — and teardown begins only immediately after a
/// completed, successful enable.
pub proof fn lemma_lifecycle_pairing(m: Module)
    requires
        m.wf(),
    ensures
        forall|i: int, j: int|
            #![trigger m.history()[i], m.history()[j]]
            0 <= i < j < m.history().len() ==> m.history()[i] != m.history()[j],
        forall|i: int|
            0 <= i < m.history().len() && #[trigger] m.history()[i] == Phase::Disabling
                ==> i >= 1 && m.history()[i - 1] == Phase::Enabled,
{
    let h = m.history();
    assert forall|i: int, j: int| #![trigger h[i], h[j]] 0 <= i < j < h.len() implies h[i] != h[j] by {
        lemma_rank_linear(h, i, j);
    }
    assert forall|i: int|
        0 <= i < h.len() && #[trigger] h[i] == Phase::Disabling implies i >= 1 && h[i - 1]
        == Phase::Enabled by {
        if i == 0 {
            assert(h[0] == Phase::Unloaded);
        } else {
            assert(steps_to(h[i - 1], h[i]));
            assert(rank(h[i - 1]) == 4);
        }
    }
}

/// A teardown phase in the history means the instance did reach `Enabled`
/// earlier: teardown never runs for an instance whose construction failed.
pub proof fn lemma_teardown_only_after_enable(m: Module, i: int)
    requires
        m.wf(),
        0 <= i < m.history().len(),
        rank(m.history()[i]) > rank(Phase::Enabled),
    ensures
        exists|j: int| 0 <= j < i && m.history()[j] == Phase::Enabled,
    decreases i,
{
    let h = m.history();
    assert(h[0] == Phase::Unloaded);
    assert(i >= 1);
    assert(steps_to(h[i - 1], h[i]));
    if h[i - 1] == Phase::Enabled {
        assert(0 <= i - 1 < i && h[i - 1] == Phase::Enabled);
    } else {
        assert(rank(h[i - 1]) > rank(Phase::Enabled));
        lemma_teardown_only_after_enable(m, i - 1);
        let j = choose|j: int| 0 <= j < i - 1 && h[j] == Phase::Enabled;
        assert(0 <= j < i && h[j] == Phase::Enabled);
    }
}

} // verus!
