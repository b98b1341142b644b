//! The active session: signal coalescing, reload scheduling, message
//! forwarding and teardown ordering.
//!
//! A [`Session`] exists between the host enabling and disabling the
//! supervisor. It owns the current-module slot, which only the host's main
//! execution thread ever touches; the filesystem watcher thread communicates
//! with it exclusively through reload signals. On every scheduler tick the
//! session drains all pending signals and performs at most one reload,
//! however many signals arrived; the old instance must be fully torn down —
//! disable, stop, unload — before a replacement instance may even begin to
//! load, so no two instances are ever enabled at once.

use vstd::prelude::*;

use crate::errors::LoadFailure;
use crate::lifecycle::{teardown_action_of, Module, Phase, TeardownAction};

verus! {

/// A mailbox of coalesced reload signals: what the channel between the
/// watcher thread and the scheduler delivers. Posting never blocks and
/// never fails; draining never blocks and reports only whether at least one
/// signal was pending.
pub struct SignalChannel {
    pending: u64,
}

/// Whether a tick that drained `pending` signals performs a reload: any
/// positive number of signals means one reload, never more.
pub open spec fn reload_decision(pending: u64) -> bool {
    pending > 0
}

impl SignalChannel {
    /// How many signals are pending; only presence or absence matters.
    pub closed spec fn pending(self) -> u64 {
        self.pending
    }

    /// An empty mailbox.
    pub fn new() -> (c: SignalChannel)
        ensures
            c.pending() == 0,
    {
        SignalChannel { pending: 0 }
    }

    /// Post one reload signal. Never fails and never blocks; at the
    /// saturation bound a further signal is absorbed, which is sound
    /// because only presence is ever consulted.
    pub fn signal(&mut self)
        ensures
            final(self).pending() == if old(self).pending() < u64::MAX {
                (old(self).pending() + 1) as u64
            } else {
                old(self).pending()
            },
            final(self).pending() > 0,
    {
        if self.pending < u64::MAX {
            self.pending = self.pending + 1;
        }
    }

    /// Remove every pending signal, reporting only whether there was one.
    pub fn try_drain(&mut self) -> (was_pending: bool)
        ensures
            final(self).pending() == 0,
            was_pending == (old(self).pending() > 0),
    {
        let was_pending = self.pending > 0;
        self.pending = 0;
        was_pending
    }
}

/// Where the session stands between scheduler events.
#[derive(Clone, Copy, Debug, PartialEq, Eq, Structural)]
pub enum Mode {
    /// A tick may run; the slot may or may not hold a module.
    Idle,
    /// A tick observed a signal: the old instance is being torn down and a
    /// replacement is being constructed.
    Reloading,
    /// The host disabled the session; only teardown remains.
    Closing,
}

/// The per-session state of the reload orchestrator.
pub struct Session {
    slot: Option<Module>,
    retiring: Option<Module>,
    mode: Mode,
}

impl Session {
    /// The scheduling mode the session is in.
    pub closed spec fn mode(self) -> Mode {
        self.mode
    }

    /// The current-module slot.
    pub closed spec fn slot(self) -> Option<Module> {
        self.slot
    }

    /// The instance being torn down, if a reload or a close is under way.
    pub closed spec fn retiring(self) -> Option<Module> {
        self.retiring
    }

    /// Whether the slot holds a module to forward messages to.
    pub open spec fn has_module(self) -> bool {
        self.slot() is Some
    }

    /// How many instances owned by this session are enabled right now.
    pub open spec fn enabled_count(self) -> int {
        (if self.slot() is Some {
            1int
        } else {
            0int
        }) + (if self.retiring() matches Some(m) && m.is_active() {
            1int
        } else {
            0int
        })
    }

    /// A sound session: the slot holds only fully enabled instances, a
    /// retiring instance is somewhere between enabled and stopped, teardown
    /// happens only outside `Idle`, and while it happens the slot is empty
    /// until the replacement is installed.
    pub closed spec fn wf(self) -> bool {
        &&& (self.slot matches Some(m) ==> m.wf() && m.is_active() && !m.has_failed())
        &&& (self.retiring matches Some(m) ==> m.wf() && !m.has_failed() && rank_in_teardown(
            m.phase(),
        ))
        &&& (self.slot is Some ==> self.mode == Mode::Idle)
        &&& (self.mode == Mode::Idle ==> self.retiring is None)
    }

    /// Start a session from the outcome of the initial, synchronous load:
    /// all or nothing. A failed initial load fails the whole session with
    /// that failure, and no session state comes into being.
    pub fn from_initial_load(load: Result<Module, LoadFailure>) -> (r: Result<
        Session,
        LoadFailure,
    >)
        requires
            load matches Ok(m) ==> m.wf() && m.is_active() && !m.has_failed(),
        ensures
            match load {
                Ok(m) => r matches Ok(s) && s.wf() && s.mode() == Mode::Idle && s.slot()
                    == Some(m) && s.retiring() is None,
                Err(e) => r matches Err(e2) && e2 == e,
            },
    {
        match load {
            Ok(m) => Ok(Session { slot: Some(m), retiring: None, mode: Mode::Idle }),
            Err(e) => Err(e),
        }
    }

    /// The message-forwarding decision: deliver exactly when the slot holds
    /// a module. With an empty slot a forwarded message is a no-op, and the
    /// decision never fails whatever the session state.
    pub fn forward_decision(&self) -> (deliver: bool)
        ensures
            deliver == self.has_module(),
    {
        matches!(self.slot, Some(_))
    }

    /// One scheduler tick: drain every pending signal and decide. Without a
    /// signal nothing changes; with any number of signals the session
    /// performs exactly one reload, first moving the current instance (if
    /// one is there) out of the slot for teardown.
    pub fn tick(&mut self, ch: &mut SignalChannel) -> (reload: bool)
        requires
            old(self).wf(),
            old(self).mode() == Mode::Idle,
        ensures
            final(self).wf(),
            final(ch).pending() == 0,
            reload == reload_decision(old(ch).pending()),
            !reload ==> *final(self) == *old(self),
            reload ==> final(self).mode() == Mode::Reloading && final(self).slot() is None
                && final(self).retiring() == old(self).slot(),
    {
        let reload = ch.try_drain();
        if reload {
            self.retiring = self.slot.take();
            self.mode = Mode::Reloading;
        }
        reload
    }

    /// One step of tearing down the retiring instance. The returned action
    /// is the foreign call the caller must now perform: disable first, then
    /// stop, then the release of the library handle, after which the
    /// instance is gone. `None` means nothing is retiring (any more).
    pub fn teardown_step(&mut self) -> (a: Option<TeardownAction>)
        requires
            old(self).wf(),
        ensures
            final(self).wf(),
            final(self).mode() == old(self).mode(),
            final(self).slot() == old(self).slot(),
            a == match old(self).retiring() {
                Some(m) => teardown_action_of(m.phase()),
                None => None::<TeardownAction>,
            },
            match old(self).retiring() {
                None => *final(self) == *old(self),
                Some(m) => if m.phase() == Phase::Enabled {
                    &&& final(self).retiring() matches Some(m2)
                    &&& m2.phase() == Phase::Disabling
                    &&& m2.history() == m.history().push(Phase::Disabling)
                } else if m.phase() == Phase::Disabling {
                    &&& final(self).retiring() matches Some(m2)
                    &&& m2.phase() == Phase::Stopped
                    &&& m2.history() == m.history().push(Phase::Stopped)
                } else {
                    final(self).retiring() is None
                },
            },
    {
        let a = match &self.retiring {
            None => None,
            Some(m) => m.next_teardown_action(),
        };
        match a {
            Some(TeardownAction::InvokeDisable) => {
                if let Some(m) = &mut self.retiring {
                    m.disable_done();
                }
            },
            Some(TeardownAction::InvokeStop) => {
                if let Some(m) = &mut self.retiring {
                    m.stop_done();
                }
            },
            Some(TeardownAction::UnloadLibrary) => {
                let mut done = self.retiring.take();
                if let Some(d) = &mut done {
                    d.unload_done();
                }
            },
            None => {},
        }
        a
    }

    /// Begin constructing the replacement instance of a reload. The old
    /// instance must already be fully torn down — this is what keeps two
    /// instances from ever being enabled at the same time.
    pub fn begin_construction(&self) -> (m: Module)
        requires
            self.wf(),
            self.mode() == Mode::Reloading,
            self.retiring() is None,
        ensures
            m.wf(),
            !m.has_failed(),
            m.phase() == Phase::Unloaded,
    {
        Module::new()
    }

    /// Finish a reload by installing its outcome: the fresh instance, or
    /// nothing when the construction failed, in which case messages are
    /// dropped until the next successful reload. A reload failure never
    /// propagates: the session goes on.
    pub fn install(&mut self, outcome: Option<Module>)
        requires
            old(self).wf(),
            old(self).mode() == Mode::Reloading,
            old(self).retiring() is None,
            outcome matches Some(m) ==> m.wf() && m.is_active() && !m.has_failed(),
        ensures
            final(self).wf(),
            final(self).mode() == Mode::Idle,
            final(self).slot() == outcome,
            final(self).retiring() is None,
    {
        self.slot = outcome;
        self.mode = Mode::Idle;
    }

    /// The host disabled the session: move the current instance (if any)
    /// out for teardown. After the teardown steps report `None`, every
    /// owned resource is released and the session may be dropped.
    pub fn close(&mut self)
        requires
            old(self).wf(),
            old(self).mode() == Mode::Idle,
        ensures
            final(self).wf(),
            final(self).mode() == Mode::Closing,
            final(self).slot() is None,
            final(self).retiring() == old(self).slot(),
    {
        self.retiring = self.slot.take();
        self.mode = Mode::Closing;
    }

    /// Whether a retiring instance still awaits teardown steps.
    pub fn teardown_pending(&self) -> (b: bool)
        ensures
            b == (self.retiring() is Some),
    {
        matches!(self.retiring, Some(_))
    }

    /// Exec view of [`Session::has_module`], for the unverified glue.
    pub fn has_current_module(&self) -> (b: bool)
        ensures
            b == self.has_module(),
    {
        matches!(self.slot, Some(_))
    }
}

/// A retiring instance is between `Enabled` and `Stopped` inclusive.
pub open spec fn rank_in_teardown(p: Phase) -> bool {
    p == Phase::Enabled || p == Phase::Disabling || p == Phase::Stopped
}

/// Single owner: a well-formed session never has two enabled instances; in
/// particular, while the retiring instance of a reload is still enabled or
/// being disabled, the slot is empty and no replacement is installed.
pub proof fn lemma_single_owner(s: Session)
    requires
        s.wf(),
    ensures
        s.enabled_count() <= 1,
{
}

/// Signal coalescing: two ticks that drain any positive numbers of signals
/// decide alike — one reload each — and a tick that drains none decides no
/// reload. The count of signals never shows in the outcome.
pub proof fn lemma_signal_coalescing(n: u64, m: u64)
    requires
        n > 0,
        m > 0,
    ensures
        reload_decision(n) == reload_decision(m),
        reload_decision(n),
        !reload_decision(0),
{
}

} // verus!
