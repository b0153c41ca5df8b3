//! Callback registrations: how user-supplied decisions cross the boundary.
//!
//! The engine understands only {function pointer, context pointer} pairs, so
//! each callback field translates to a registration naming one statically
//! selected trampoline. A progress callback's decisions are supplied as a
//! plan — the answer it will give on its k-th invocation — which is the
//! state the trampoline recovers through the context pointer; the engine
//! consults the plan once per progress point and stops consulting it for
//! good after the first `Cancel`.

use crate::abi::{AbiFn, RawCloseMemoryCb, RawOpenFileCb, RawStream, Unsafe};
use crate::kinds::OpenFileType;
use vstd::prelude::*;

verus! {

/// A progress report handed to the progress callback.
#[derive(Clone, Copy, PartialEq, Eq, Structural, Debug)]
pub struct Progress {
    pub bytes_read: u64,
    pub bytes_total: u64,
}

/// The decision a progress callback returns.
#[derive(Clone, Copy, PartialEq, Eq, Structural, Debug)]
pub enum ProgressResult {
    Continue,
    Cancel,
}

impl Default for ProgressResult {
    fn default() -> (r: Self)
        ensures
            r == ProgressResult::Continue,
    {
        ProgressResult::Continue
    }
}

/// What the engine knows about a file it asks the open-file callback for.
pub struct OpenFileInfo {
    pub type_: OpenFileType,
    pub original_filename: Vec<u8>,
}

/// The registered form of a progress callback: the trampoline slot and the
/// plan the trampoline answers from. An unset callback has no function
/// pointer and is never consulted.
pub struct RawProgressCb {
    pub fn_: Option<AbiFn>,
    pub plan: Vec<ProgressResult>,
}

impl Default for RawProgressCb {
    fn default() -> (r: Self)
        ensures
            r.fn_ is None,
            r.plan@.len() == 0,
    {
        RawProgressCb { fn_: None, plan: Vec::new() }
    }
}

/// The answer a registered progress callback gives on its k-th invocation
/// (counting from zero): the plan's k-th entry, `Continue` past its end.
pub open spec fn plan_answer(plan: Seq<ProgressResult>, k: int) -> ProgressResult {
    if 0 <= k < plan.len() {
        plan[k]
    } else {
        ProgressResult::Continue
    }
}

/// A progress callback as the caller supplies it.
pub enum ProgressCb {
    Unset,
    Plan(Vec<ProgressResult>),
    Raw(Unsafe<RawProgressCb>),
}

impl Default for ProgressCb {
    fn default() -> (r: Self)
        ensures
            r is Unset,
    {
        ProgressCb::Unset
    }
}

impl ProgressCb {
    /// Registers the callback: an unset field keeps the empty registration,
    /// a plan selects the progress trampoline with the plan as its context,
    /// a raw escape passes through verbatim.
    pub fn from_rust(self) -> (r: RawProgressCb)
        ensures
            self is Unset ==> r.fn_ is None && r.plan@.len() == 0,
            self matches ProgressCb::Plan(plan) ==> r.fn_ == Some(AbiFn::ProgressHook) && r.plan@
                == plan@,
            self matches ProgressCb::Raw(raw) ==> r == raw.inner(),
    {
        match self {
            ProgressCb::Unset => RawProgressCb::default(),
            ProgressCb::Plan(plan) => RawProgressCb { fn_: Some(AbiFn::ProgressHook), plan },
            ProgressCb::Raw(raw) => raw.take(),
        }
    }
}

/// An open-file callback as the caller supplies it. The engine consults it
/// for external files; "no stream" translates to a false return without
/// writing the output parameter.
pub enum OpenFileCb {
    Unset,
    Raw(Unsafe<RawOpenFileCb>),
}

impl Default for OpenFileCb {
    fn default() -> (r: Self)
        ensures
            r is Unset,
    {
        OpenFileCb::Unset
    }
}

impl OpenFileCb {
    /// Registers the callback: an unset field keeps the empty registration,
    /// a raw escape passes through verbatim.
    pub fn from_rust(self) -> (r: RawOpenFileCb)
        ensures
            self is Unset ==> r.fn_ is None,
            self matches OpenFileCb::Raw(raw) ==> r == raw.inner(),
    {
        match self {
            OpenFileCb::Unset => RawOpenFileCb::default(),
            OpenFileCb::Raw(raw) => raw.take(),
        }
    }
}

/// A close-memory callback as the caller supplies it: invoked at most once,
/// when the engine no longer needs a caller-supplied buffer, and never when
/// the caller declared no release callback.
pub enum CloseMemoryCb {
    Unset,
    Raw(Unsafe<RawCloseMemoryCb>),
}

impl Default for CloseMemoryCb {
    fn default() -> (r: Self)
        ensures
            r is Unset,
    {
        CloseMemoryCb::Unset
    }
}

impl CloseMemoryCb {
    /// Registers the callback: an unset field keeps the empty registration,
    /// a raw escape passes through verbatim.
    pub fn from_rust(self) -> (r: RawCloseMemoryCb)
        ensures
            self is Unset ==> r.fn_ is None,
            self matches CloseMemoryCb::Raw(raw) ==> r == raw.inner(),
    {
        match self {
            CloseMemoryCb::Unset => RawCloseMemoryCb::default(),
            CloseMemoryCb::Raw(raw) => raw.take(),
        }
    }
}

/// A stream as the caller supplies it: an already-ABI-shaped descriptor.
/// File handles and reader adapters live with the host code around the
/// library, which hands their descriptors in through the raw escape.
pub enum Stream {
    Raw(Unsafe<RawStream>),
}

impl Stream {
    /// Surrenders the stream descriptor to the marshaller.
    pub fn from_rust(self) -> (r: RawStream)
        ensures
            self matches Stream::Raw(raw) ==> r == raw.inner(),
    {
        match self {
            Stream::Raw(raw) => raw.take(),
        }
    }
}

} // verus!
