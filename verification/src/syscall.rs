//! What a hook says about a guest system call, and the single-slot event
//! hooks.

use vstd::prelude::*;

verus! {

/// Answer of a pre-syscall hook: whether the system call is skipped, and the
/// value that the guest then sees in place of its result.
#[derive(Debug, Clone, Copy, PartialEq, Eq, Structural)]
pub struct SyscallHookResult {
    pub retval: u64,
    pub skip_syscall: bool,
}

/// What a hook of the embedding program returned for a system call.
#[derive(Debug, Clone, Copy, PartialEq, Eq, Structural)]
pub enum HookReply {
    /// Nothing: the system call runs.
    Nothing,
    /// A number: the system call is skipped and the guest sees the number.
    Value(u64),
    /// A complete answer.
    Full(SyscallHookResult),
}

impl SyscallHookResult {
    /// The answer that `value` stands for: with a value the system call is
    /// skipped and the guest sees the value, without one it runs.
    pub open spec fn spec_new(value: Option<u64>) -> SyscallHookResult {
        match value {
            Some(v) => SyscallHookResult { retval: v, skip_syscall: true },
            None => SyscallHookResult { retval: 0, skip_syscall: false },
        }
    }

    /// The answer that the reply `reply` of an installed hook stands for, or
    /// the answer where no hook is installed.
    pub open spec fn spec_from_reply(reply: Option<HookReply>) -> SyscallHookResult {
        match reply {
            None => Self::spec_new(None),
            Some(HookReply::Nothing) => Self::spec_new(None),
            Some(HookReply::Value(v)) => Self::spec_new(Some(v)),
            Some(HookReply::Full(r)) => r,
        }
    }

    /// The result that the guest sees for a system call to which the
    /// pre-syscall hook answered with `self`, where the call itself would
    /// return `native`.
    pub open spec fn spec_guest_result(self, native: u64) -> u64 {
        if self.skip_syscall {
            self.retval
        } else {
            native
        }
    }

    /// An answer that skips the system call with `value` as its result, or
    /// lets it run where there is no value.
    #[must_use]
    pub fn new(value: Option<u64>) -> (r: SyscallHookResult)
        ensures
            r == Self::spec_new(value),
    {
        match value {
            Some(v) => SyscallHookResult { retval: v, skip_syscall: true },
            None => SyscallHookResult { retval: 0, skip_syscall: false },
        }
    }

    /// Turns what the hook of the embedding program returned into the answer
    /// for the native engine; `reply` is absent where no hook is installed.
    #[must_use]
    pub fn from_reply(reply: Option<HookReply>) -> (r: SyscallHookResult)
        ensures
            r == Self::spec_from_reply(reply),
    {
        match reply {
            None => Self::new(None),
            Some(HookReply::Nothing) => Self::new(None),
            Some(HookReply::Value(v)) => Self::new(Some(v)),
            Some(HookReply::Full(r)) => r,
        }
    }

    /// The result that the guest sees: the hook's value where the system call
    /// was skipped, else the value `native` that the call returned.
    #[must_use]
    pub fn guest_result(&self, native: u64) -> (r: u64)
        ensures
            r == self.spec_guest_result(native),
    {
        if self.skip_syscall {
            self.retval
        } else {
            native
        }
    }
}

/// What an [`EventHooks`] holds, as plain values.
pub struct EventHooksView<T, P, Q> {
    pub on_thread: Option<T>,
    pub pre_syscall: Option<P>,
    pub post_syscall: Option<Q>,
}

/// The three event hooks of the process, one slot each: thread creation,
/// before a system call, after a system call. Installing a hook replaces the
/// one that was in its slot.
pub struct EventHooks<T, P, Q> {
    on_thread: Option<T>,
    pre_syscall: Option<P>,
    post_syscall: Option<Q>,
}

impl<T, P, Q> View for EventHooks<T, P, Q> {
    type V = EventHooksView<T, P, Q>;

    closed spec fn view(&self) -> EventHooksView<T, P, Q> {
        EventHooksView {
            on_thread: self.on_thread,
            pre_syscall: self.pre_syscall,
            post_syscall: self.post_syscall,
        }
    }
}

impl<T, P, Q> EventHooks<T, P, Q> {
    /// No hook installed.
    pub fn new() -> (hooks: Self)
        ensures
            hooks@.on_thread is None,
            hooks@.pre_syscall is None,
            hooks@.post_syscall is None,
    {
        EventHooks { on_thread: None, pre_syscall: None, post_syscall: None }
    }

    /// Installs the thread-creation hook and returns the one it replaces.
    pub fn set_on_thread_hook(&mut self, hook: T) -> (previous: Option<T>)
        ensures
            previous == old(self)@.on_thread,
            final(self)@ == (EventHooksView { on_thread: Some(hook), ..old(self)@ }),
    {
        let mut slot = Some(hook);
        core::mem::swap(&mut self.on_thread, &mut slot);
        slot
    }

    /// Installs the pre-syscall hook and returns the one it replaces.
    pub fn set_pre_syscall_hook(&mut self, hook: P) -> (previous: Option<P>)
        ensures
            previous == old(self)@.pre_syscall,
            final(self)@ == (EventHooksView { pre_syscall: Some(hook), ..old(self)@ }),
    {
        let mut slot = Some(hook);
        core::mem::swap(&mut self.pre_syscall, &mut slot);
        slot
    }

    /// Installs the post-syscall hook and returns the one it replaces.
    pub fn set_post_syscall_hook(&mut self, hook: Q) -> (previous: Option<Q>)
        ensures
            previous == old(self)@.post_syscall,
            final(self)@ == (EventHooksView { post_syscall: Some(hook), ..old(self)@ }),
    {
        let mut slot = Some(hook);
        core::mem::swap(&mut self.post_syscall, &mut slot);
        slot
    }

    /// The installed thread-creation hook.
    pub fn on_thread_hook(&self) -> (hook: Option<&T>)
        ensures
            hook is Some <==> self@.on_thread is Some,
            hook is Some ==> *hook->0 == self@.on_thread->0,
    {
        self.on_thread.as_ref()
    }

    /// The installed pre-syscall hook.
    pub fn pre_syscall_hook(&self) -> (hook: Option<&P>)
        ensures
            hook is Some <==> self@.pre_syscall is Some,
            hook is Some ==> *hook->0 == self@.pre_syscall->0,
    {
        self.pre_syscall.as_ref()
    }

    /// The installed post-syscall hook.
    pub fn post_syscall_hook(&self) -> (hook: Option<&Q>)
        ensures
            hook is Some <==> self@.post_syscall is Some,
            hook is Some ==> *hook->0 == self@.post_syscall->0,
    {
        self.post_syscall.as_ref()
    }
}

} // verus!
