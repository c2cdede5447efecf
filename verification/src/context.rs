//! The thread-confined game context: a context value that only the first
//! execution context to claim it may touch. The claim is recorded once,
//! immutably; every later access is checked against it, and a mismatch is
//! reported as a fatal error for the caller to abort on — confinement
//! violations are bugs, not recoverable conditions.
//!
//! Execution contexts are identified by a plain number the caller supplies
//! (the host maps its real thread identity to one), so the check itself is
//! an explicit, verified component.

use vstd::prelude::*;

verus! {

/// The game state confined to the owning execution context.
#[derive(Debug, Clone)]
pub struct GameContext {
    pub sui_address: String,
}

impl Default for GameContext {
    /// An empty context: no wallet address recorded.
    fn default() -> (c: GameContext)
        ensures
            c.sui_address@ == Seq::<char>::empty(),
    {
        GameContext { sui_address: String::new() }
    }
}

/// The fatal conditions a confined access can hit; the caller is expected
/// to abort on any of them rather than continue.
#[derive(Clone, Copy, Debug, PartialEq, Eq, Structural)]
pub enum ContextError {
    /// No execution context has been recorded as the owner yet.
    ThreadNotSet,
    /// The context value has not been created yet.
    NotInitialized,
    /// The context value was already created once.
    AlreadyInitialized,
    /// The caller is not the recorded owner context.
    WrongThread,
}

/// The one-per-process holder for the confined context: the recorded owner
/// identity and the context value itself.
pub struct GameState {
    pub thread_id: Option<u64>,
    pub context: Option<GameContext>,
}

impl GameState {
    /// An empty holder: no owner recorded, no context created.
    pub fn new() -> (s: GameState)
        ensures
            s.thread_id is None,
            s.context is None,
    {
        GameState { thread_id: None, context: None }
    }

    /// Record `current` as the owning execution context, once: the first
    /// call wins and every later call changes nothing.
    pub fn set_thread_id(&mut self, current: u64)
        ensures
            final(self).thread_id == if old(self).thread_id is Some {
                old(self).thread_id
            } else {
                Some(current)
            },
            final(self).context == old(self).context,
    {
        if self.thread_id.is_none() {
            self.thread_id = Some(current);
        }
    }

    /// Check that `current` is the recorded owner: `Ok` exactly when it is,
    /// `ThreadNotSet` when no owner was recorded, `WrongThread` otherwise.
    pub fn same_thread(&self, current: u64) -> (r: Result<(), ContextError>)
        ensures
            r is Ok <==> self.thread_id == Some(current),
            self.thread_id is None ==> r == Err::<(), ContextError>(ContextError::ThreadNotSet),
            self.thread_id is Some && self.thread_id != Some(current) ==> r == Err::<
                (),
                ContextError,
            >(ContextError::WrongThread),
    {
        match self.thread_id {
            None => Err(ContextError::ThreadNotSet),
            Some(owner) => {
                if owner == current {
                    Ok(())
                } else {
                    Err(ContextError::WrongThread)
                }
            },
        }
    }

    /// Create the context, claiming `current` as its owner. Exactly once:
    /// a second creation, or one from a non-owner context, is the fatal
    /// error the caller must abort on. The first caller becomes the owner
    /// even when creation then fails.
    pub fn new_context(&mut self, current: u64) -> (r: Result<(), ContextError>)
        ensures
            final(self).thread_id == if old(self).thread_id is Some {
                old(self).thread_id
            } else {
                Some(current)
            },
            old(self).thread_id is Some && old(self).thread_id != Some(current) ==> r == Err::<
                (),
                ContextError,
            >(ContextError::WrongThread) && final(self).context == old(self).context,
            (old(self).thread_id is None || old(self).thread_id == Some(current)) && old(self).context is Some ==> r == Err::<(), ContextError>(ContextError::AlreadyInitialized)
                && final(self).context == old(self).context,
            (old(self).thread_id is None || old(self).thread_id == Some(current)) && old(self).context is None ==> r is Ok && final(self).context is Some && final(self).context->0.sui_address@ == Seq::<char>::empty(),
    {
        self.set_thread_id(current);
        if let Err(e) = self.same_thread(current) {
            return Err(e);
        }
        if self.context.is_some() {
            return Err(ContextError::AlreadyInitialized);
        }
        self.context = Some(GameContext::default());
        Ok(())
    }

    /// Read the confined context. `Ok` exactly when the caller is the
    /// recorded owner and the context exists; any error is fatal for the
    /// caller.
    pub fn get_context(&self, current: u64) -> (r: Result<&GameContext, ContextError>)
        ensures
            self.thread_id is None ==> r == Err::<&GameContext, ContextError>(
                ContextError::ThreadNotSet,
            ),
            self.thread_id is Some && self.thread_id != Some(current) ==> r == Err::<
                &GameContext,
                ContextError,
            >(ContextError::WrongThread),
            self.thread_id == Some(current) && self.context is None ==> r == Err::<
                &GameContext,
                ContextError,
            >(ContextError::NotInitialized),
            self.thread_id == Some(current) && self.context is Some ==> r is Ok && r->Ok_0
                == &self.context->0,
    {
        if let Err(e) = self.same_thread(current) {
            return Err(e);
        }
        match &self.context {
            None => Err(ContextError::NotInitialized),
            Some(c) => Ok(c),
        }
    }

    /// Write the confined context's wallet address. `Ok` exactly when the
    /// caller is the recorded owner and the context exists; on any error
    /// nothing changes.
    pub fn set_sui_address(&mut self, current: u64, sui_address: String) -> (r: Result<
        (),
        ContextError,
    >)
        ensures
            final(self).thread_id == old(self).thread_id,
            old(self).thread_id is None ==> r == Err::<(), ContextError>(
                ContextError::ThreadNotSet,
            ) && final(self).context == old(self).context,
            old(self).thread_id is Some && old(self).thread_id != Some(current) ==> r == Err::<
                (),
                ContextError,
            >(ContextError::WrongThread) && final(self).context == old(self).context,
            old(self).thread_id == Some(current) && old(self).context is None ==> r == Err::<
                (),
                ContextError,
            >(ContextError::NotInitialized) && final(self).context == old(self).context,
            old(self).thread_id == Some(current) && old(self).context is Some ==> r is Ok
                && final(self).context is Some && final(self).context->0.sui_address == sui_address,
    {
        if let Err(e) = self.same_thread(current) {
            return Err(e);
        }
        if self.context.is_none() {
            return Err(ContextError::NotInitialized);
        }
        self.context = Some(GameContext { sui_address });
        Ok(())
    }
}

} // verus!
