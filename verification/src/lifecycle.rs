//! The hook lifecycle manager: the state machine that installs both hooks,
//! owns their handles, tracks the message loop, and guarantees that every
//! exit path leaves no hook registered.
//!
//! The operating-system calls themselves (module-identity resolution, hook
//! registration and unregistration, message retrieval) are performed by the
//! surrounding program; their outcomes are fed into this state machine,
//! which decides every transition and accounts for every live hook.

use vstd::prelude::*;

verus! {

/// The states of the hook lifecycle, in the order a successful run passes
/// through them.
#[derive(Clone, Copy, Debug, PartialEq, Eq, Structural)]
pub enum LifecycleState {
    /// Nothing constructed yet.
    Uninitialized,
    /// Both dispatch channels exist and their sending halves are stored.
    ChannelsReady,
    /// Both hooks are registered with the platform.
    HooksInstalled,
    /// The message loop is pumping platform messages.
    Running,
    /// The message loop received a termination signal.
    ShuttingDown,
    /// Hooks unregistered; the lifecycle is over.
    Terminated,
}

/// The fatal startup errors: the only errors this pipeline surfaces to the
/// operator. Everything else is recovered locally.
#[derive(Clone, Copy, Debug, PartialEq, Eq, Structural)]
pub enum StartupError {
    /// A sending half was stored twice: a logic error, not recoverable.
    DuplicateChannelInit,
    /// The current module's identity handle could not be resolved.
    ModuleResolutionFailed,
    /// The platform refused to register the mouse hook.
    MouseHookRegistrationFailed,
    /// The platform refused to register the keyboard hook.
    KeyboardHookRegistrationFailed,
}

/// A write-once slot for process-wide state: the home of a dispatch
/// channel's sending half. It is filled exactly once, before any hook is
/// armed, and only read thereafter; a second store attempt fails loudly
/// and returns the rejected value instead of overwriting.
pub struct OnceSlot<T> {
    value: Option<T>,
}

impl<T> OnceSlot<T> {
    /// What the slot holds, if it has been filled.
    pub closed spec fn stored(self) -> Option<T> {
        self.value
    }

    /// A fresh, unfilled slot.
    pub fn empty() -> (slot: Self)
        ensures
            slot.stored() is None,
    {
        OnceSlot { value: None }
    }

    /// Store a value if the slot is still empty; hand the value back as an
    /// error if it is not. The first store wins and is never overwritten.
    pub fn set(&mut self, value: T) -> (r: Result<(), T>)
        ensures
            old(self).stored() is None ==> r is Ok && final(self).stored()
                == Some(value),
            old(self).stored() is Some ==> r == Err::<(), T>(value)
                && final(self).stored() == old(self).stored(),
    {
        match self.value {
            None => {
                self.value = Some(value);
                Ok(())
            },
            Some(_) => Err(value),
        }
    }

    /// Read the stored value, if any.
    pub fn get(&self) -> (r: Option<&T>)
        ensures
            match r {
                Some(v) => self.stored() == Some(*v),
                None => self.stored() is None,
            },
    {
        self.value.as_ref()
    }
}

/// Store a dispatch channel's sending half in its process-wide slot. Each
/// slot must be filled exactly once during startup: a second attempt is the
/// fatal `DuplicateChannelInit` logic error, and the slot keeps its first
/// value.
pub fn store_sender<T>(slot: &mut OnceSlot<T>, sender: T) -> (r: Result<
    (),
    StartupError,
>)
    ensures
        old(slot).stored() is None ==> r is Ok && final(slot).stored()
            == Some(sender),
        old(slot).stored() is Some ==> r == Err::<(), StartupError>(
            StartupError::DuplicateChannelInit,
        ) && final(slot).stored() == old(slot).stored(),
{
    match slot.set(sender) {
        Ok(()) => Ok(()),
        Err(_) => Err(StartupError::DuplicateChannelInit),
    }
}

/// An opaque handle to a live platform hook registration. Owned exclusively
/// by the lifecycle manager; never cloned; released exactly once — a second
/// release is a no-op that only reports there was nothing left to do.
#[derive(Debug)]
pub struct HookHandle {
    registered: bool,
}

impl HookHandle {
    /// Whether the registration this handle stands for is still live.
    pub closed spec fn is_registered(self) -> bool {
        self.registered
    }

    /// Take ownership of a registration the platform just confirmed.
    pub fn acquire() -> (h: Self)
        ensures
            h.is_registered(),
    {
        HookHandle { registered: true }
    }

    /// Release the registration. Safe to call again on an already-released
    /// handle: the repeat call changes nothing and returns `false`, which
    /// the caller may log; it is never an error.
    pub fn unregister(&mut self) -> (was_live: bool)
        ensures
            !final(self).is_registered(),
            was_live == old(self).is_registered(),
    {
        let was_live = self.registered;
        self.registered = false;
        was_live
    }

    /// Whether the registration is still live.
    pub fn live(&self) -> (r: bool)
        ensures
            r == self.is_registered(),
    {
        self.registered
    }
}

/// The lifecycle manager itself: the current state and the two hook
/// handles it owns while they are live.
pub struct HookLifecycle {
    state: LifecycleState,
    mouse_hook: Option<HookHandle>,
    keyboard_hook: Option<HookHandle>,
}

impl HookLifecycle {
    /// The current lifecycle state.
    pub closed spec fn state(self) -> LifecycleState {
        self.state
    }

    /// How many hooks are registered right now: zero, one or two.
    pub closed spec fn live_hooks(self) -> int {
        (match self.mouse_hook {
            Some(h) => if h.is_registered() {
                1int
            } else {
                0int
            },
            None => 0int,
        }) + (match self.keyboard_hook {
            Some(h) => if h.is_registered() {
                1int
            } else {
                0int
            },
            None => 0int,
        })
    }

    /// The states agree with the hooks held: no hook exists before
    /// installation, both are live from installation until shutdown, and
    /// none is live once the lifecycle has terminated.
    pub closed spec fn wf(self) -> bool {
        match self.state {
            LifecycleState::Uninitialized | LifecycleState::ChannelsReady => {
                self.mouse_hook is None && self.keyboard_hook is None
            },
            LifecycleState::HooksInstalled | LifecycleState::Running
                | LifecycleState::ShuttingDown => {
                &&& self.mouse_hook matches Some(m) && m.is_registered()
                &&& self.keyboard_hook matches Some(k) && k.is_registered()
            },
            LifecycleState::Terminated => self.live_hooks() == 0,
        }
    }

    /// A lifecycle that has not started yet.
    pub fn new() -> (lc: Self)
        ensures
            lc.wf(),
            lc.state() == LifecycleState::Uninitialized,
            lc.live_hooks() == 0,
    {
        HookLifecycle {
            state: LifecycleState::Uninitialized,
            mouse_hook: None,
            keyboard_hook: None,
        }
    }

    /// Record that both dispatch channels are constructed and their sending
    /// halves stored.
    pub fn channels_ready(&mut self)
        requires
            old(self).wf(),
            old(self).state() == LifecycleState::Uninitialized,
        ensures
            final(self).wf(),
            final(self).state() == LifecycleState::ChannelsReady,
            final(self).live_hooks() == 0,
    {
        self.state = LifecycleState::ChannelsReady;
    }

    /// Resolve the outcome of the installation step: the module-identity
    /// resolution and the two registration attempts, in order. On any
    /// failure, startup aborts: every handle that was handed in is released
    /// before the error is returned, so no partial-hook state is ever left
    /// running.
    pub fn install_hooks(
        &mut self,
        module_resolved: bool,
        mouse_registration: Option<HookHandle>,
        keyboard_registration: Option<HookHandle>,
    ) -> (r: Result<(), StartupError>)
        requires
            old(self).wf(),
            old(self).state() == LifecycleState::ChannelsReady,
            mouse_registration matches Some(h) ==> h.is_registered(),
            keyboard_registration matches Some(h) ==> h.is_registered(),
        ensures
            final(self).wf(),
            !module_resolved ==> r == Err::<(), StartupError>(
                StartupError::ModuleResolutionFailed,
            ),
            module_resolved && mouse_registration is None ==> r == Err::<
                (),
                StartupError,
            >(StartupError::MouseHookRegistrationFailed),
            module_resolved && mouse_registration is Some
                && keyboard_registration is None ==> r == Err::<
                (),
                StartupError,
            >(StartupError::KeyboardHookRegistrationFailed),
            module_resolved && mouse_registration is Some
                && keyboard_registration is Some ==> r is Ok,
            r is Ok ==> final(self).state() == LifecycleState::HooksInstalled
                && final(self).live_hooks() == 2,
            r is Err ==> final(self).state() == LifecycleState::Terminated
                && final(self).live_hooks() == 0,
    {
        let mut mouse_registration = mouse_registration;
        let mut keyboard_registration = keyboard_registration;
        if !module_resolved {
            Self::release_all(&mut mouse_registration, &mut keyboard_registration);
            self.mouse_hook = mouse_registration;
            self.keyboard_hook = keyboard_registration;
            self.state = LifecycleState::Terminated;
            return Err(StartupError::ModuleResolutionFailed);
        }
        if mouse_registration.is_none() {
            Self::release_all(&mut mouse_registration, &mut keyboard_registration);
            self.mouse_hook = mouse_registration;
            self.keyboard_hook = keyboard_registration;
            self.state = LifecycleState::Terminated;
            return Err(StartupError::MouseHookRegistrationFailed);
        }
        if keyboard_registration.is_none() {
            Self::release_all(&mut mouse_registration, &mut keyboard_registration);
            self.mouse_hook = mouse_registration;
            self.keyboard_hook = keyboard_registration;
            self.state = LifecycleState::Terminated;
            return Err(StartupError::KeyboardHookRegistrationFailed);
        }
        self.mouse_hook = mouse_registration;
        self.keyboard_hook = keyboard_registration;
        self.state = LifecycleState::HooksInstalled;
        Ok(())
    }

    /// Release whichever of the two handles are present; both end up
    /// unregistered.
    fn release_all(
        mouse: &mut Option<HookHandle>,
        keyboard: &mut Option<HookHandle>,
    )
        ensures
            (*final(mouse)) matches Some(h) ==> !h.is_registered(),
            (*final(keyboard)) matches Some(h) ==> !h.is_registered(),
            (*final(mouse)) is Some == (*old(mouse)) is Some,
            (*final(keyboard)) is Some == (*old(keyboard)) is Some,
    {
        match mouse {
            Some(h) => {
                h.unregister();
            },
            None => {},
        }
        match keyboard {
            Some(h) => {
                h.unregister();
            },
            None => {},
        }
    }

    /// Enter the message loop: its sole job from here on is to pump
    /// platform messages so queued hook invocations are delivered.
    pub fn begin_message_loop(&mut self)
        requires
            old(self).wf(),
            old(self).state() == LifecycleState::HooksInstalled,
        ensures
            final(self).wf(),
            final(self).state() == LifecycleState::Running,
            final(self).live_hooks() == 2,
    {
        self.state = LifecycleState::Running;
    }

    /// Decide on one message-retrieval result: a positive result means the
    /// message should be pumped and the loop continues; a non-positive
    /// result is the termination signal and begins shutdown.
    pub fn on_message_result(&mut self, result: i32) -> (pump: bool)
        requires
            old(self).wf(),
            old(self).state() == LifecycleState::Running,
        ensures
            final(self).wf(),
            pump == (result > 0),
            result > 0 ==> final(self).state() == LifecycleState::Running
                && final(self).live_hooks() == 2,
            result <= 0 ==> final(self).state() == LifecycleState::ShuttingDown
                && final(self).live_hooks() == 2,
    {
        if result > 0 {
            true
        } else {
            self.state = LifecycleState::ShuttingDown;
            false
        }
    }

    /// Unregister both hooks and terminate. Order-independent and
    /// idempotent: calling it again on a terminated lifecycle changes
    /// nothing and reports that no hook was left to release. The returned
    /// pair says whether the mouse and keyboard hooks were still live, for
    /// the caller's log; an unregistration that finds nothing live is never
    /// an error.
    pub fn shutdown(&mut self) -> (released: (bool, bool))
        requires
            old(self).wf(),
            old(self).state() == LifecycleState::ShuttingDown || old(
                self,
            ).state() == LifecycleState::Terminated,
        ensures
            final(self).wf(),
            final(self).state() == LifecycleState::Terminated,
            final(self).live_hooks() == 0,
            old(self).state() == LifecycleState::ShuttingDown ==> released == (
                true,
                true,
            ),
            old(self).state() == LifecycleState::Terminated ==> released == (
                false,
                false,
            ),
    {
        let mouse_released = match &mut self.mouse_hook {
            Some(h) => h.unregister(),
            None => false,
        };
        let keyboard_released = match &mut self.keyboard_hook {
            Some(h) => h.unregister(),
            None => false,
        };
        self.state = LifecycleState::Terminated;
        (mouse_released, keyboard_released)
    }

    /// The current state, for the caller's own control flow.
    pub fn current_state(&self) -> (s: LifecycleState)
        ensures
            s == self.state(),
    {
        self.state
    }

    /// How many hooks are registered right now.
    pub fn live_hook_count(&self) -> (n: usize)
        ensures
            n == self.live_hooks(),
    {
        let mouse_live: usize = match &self.mouse_hook {
            Some(h) => if h.live() {
                1
            } else {
                0
            },
            None => 0,
        };
        let keyboard_live: usize = match &self.keyboard_hook {
            Some(h) => if h.live() {
                1
            } else {
                0
            },
            None => 0,
        };
        mouse_live + keyboard_live
    }
}

} // verus!
