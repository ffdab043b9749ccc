//! The engine's life: made once, used by every transfer, stopped once.

use crate::error::TransferError;
use crate::error::TransferErrorView;
use vstd::prelude::*;

verus! {

/// Holder of the execution context that transfers run on. `R` is the
/// context itself, which the caller builds and stops.
#[derive(Debug)]
pub struct Lifecycle<R> {
    runtime: Option<R>,
}

impl<R> Lifecycle<R> {
    /// The context held, if the engine is initialised.
    pub closed spec fn current(&self) -> Option<R> {
        self.runtime
    }

    /// Whether the engine is initialised.
    pub open spec fn initialized(&self) -> bool {
        self.current().is_some()
    }

    /// An engine that is not initialised.
    pub fn new() -> (lifecycle: Self)
        ensures
            !lifecycle.initialized(),
    {
        Lifecycle { runtime: None }
    }

    /// Whether the engine is initialised.
    pub fn is_initialized(&self) -> (initialized: bool)
        ensures
            initialized == self.initialized(),
    {
        self.runtime.is_some()
    }

    /// Initialises the engine with `runtime`. On an engine that is already
    /// initialised this changes nothing and hands `runtime` back.
    pub fn init(&mut self, runtime: R) -> (rejected: Option<R>)
        ensures
            old(self).initialized() ==> *final(self) == *old(self) && rejected == Some(runtime),
            !old(self).initialized() ==> final(self).current() == Some(runtime)
                && rejected.is_none(),
    {
        if self.runtime.is_some() {
            Some(runtime)
        } else {
            self.runtime = Some(runtime);
            None
        }
    }

    /// Stops the engine and hands out the context it held, for the caller to
    /// shut down. On an engine that is not initialised this changes nothing
    /// and hands out nothing.
    pub fn uninit(&mut self) -> (stopped: Option<R>)
        ensures
            stopped == old(self).current(),
            !final(self).initialized(),
            !old(self).initialized() ==> *final(self) == *old(self),
    {
        self.runtime.take()
    }

    /// The context to run a transfer on. Before initialisation there is
    /// none, and the error says so; the engine is left as it is either way.
    pub fn runtime(&self) -> (found: Result<&R, TransferError>)
        ensures
            match self.current() {
                Some(runtime) => found matches Ok(held) && *held == runtime,
                None => found matches Err(error) && error@ == TransferErrorView::Lifecycle,
            },
    {
        match &self.runtime {
            Some(runtime) => Ok(runtime),
            None => Err(TransferError::Lifecycle),
        }
    }
}

/// What initialisation is asked to do.
#[derive(Debug, Clone, PartialEq, Eq)]
pub struct InitParams {
    /// Directory for log files; the log goes to standard output where it is
    /// absent.
    pub log_path: Option<String>,
}

/// Where the log goes.
#[derive(Debug, Clone, PartialEq, Eq)]
pub enum LogTarget {
    Stdout,
    Directory { path: String },
}

/// Chooses where the log goes: to the directory asked for if there is one
/// and it exists, to standard output otherwise. `path_exists` says whether
/// the directory asked for exists.
pub fn log_target(params: &InitParams, path_exists: bool) -> (target: LogTarget)
    ensures
        match params.log_path {
            Some(path) => if path_exists {
                target matches LogTarget::Directory { path: chosen } && chosen@ == path@
            } else {
                target is Stdout
            },
            None => target is Stdout,
        },
{
    match &params.log_path {
        Some(path) => {
            if path_exists {
                LogTarget::Directory { path: path.clone() }
            } else {
                LogTarget::Stdout
            }
        },
        None => LogTarget::Stdout,
    }
}

} // verus!
