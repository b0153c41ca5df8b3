//! The flat ABI vocabulary: model pointers, trampoline identities, and the
//! fixed-layout records (`RawString`, `RawBlob`, `RawList`, descriptors) that
//! the engine's calling convention understands.
//!
//! The engine side of the boundary is modelled: a pointer is not a machine
//! address but a value that records exactly what it refers to — nothing
//! (null), an arena buffer, or caller-owned memory identified by its address.
//! This keeps every marshalling decision visible to the verifier while the
//! records keep the shape of the engine's calling convention.

use crate::reals::Vec4;
use vstd::prelude::*;

verus! {

/// A flat ABI pointer: null, a pointer to the arena buffer with the given
/// index, or a pointer aliasing caller-owned memory at the given address.
#[derive(Clone, Copy, PartialEq, Eq, Structural, Debug)]
pub enum AbiPtr {
    Null,
    Arena { buf: usize },
    Borrowed { addr: u64 },
}

impl AbiPtr {
    pub fn is_null(&self) -> (r: bool)
        ensures
            r == (*self == AbiPtr::Null),
    {
        matches!(*self, AbiPtr::Null)
    }
}

impl Default for AbiPtr {
    fn default() -> (r: Self)
        ensures
            r == AbiPtr::Null,
    {
        AbiPtr::Null
    }
}

/// The identity of a C-compatible function passed across the boundary: one of
/// the statically selected trampolines of this crate, or a raw-escape
/// function address supplied verbatim by an advanced caller.
#[derive(Clone, Copy, PartialEq, Eq, Structural, Debug)]
pub enum AbiFn {
    GlobalAlloc,
    GlobalRealloc,
    GlobalFree,
    SystemAlloc,
    SystemRealloc,
    SystemFree,
    StreamRead,
    StreamSkip,
    StreamClose,
    ProgressHook,
    OpenFileHook,
    CloseMemoryHook,
    ThreadPoolHook,
    Addr { addr: u64 },
}

/// ABI string reference: pointer + explicit length, no terminator.
#[derive(Clone, Copy, PartialEq, Eq, Structural, Debug)]
pub struct RawString {
    pub data: AbiPtr,
    pub length: usize,
}

impl RawString {
    /// The {null, 0} representation every empty or unset string maps to.
    pub fn null() -> (r: RawString)
        ensures
            r.data == AbiPtr::Null,
            r.length == 0,
    {
        RawString { data: AbiPtr::Null, length: 0 }
    }
}

impl Default for RawString {
    fn default() -> (r: Self)
        ensures
            r.data == AbiPtr::Null,
            r.length == 0,
    {
        RawString { data: AbiPtr::Null, length: 0 }
    }
}

/// ABI byte-blob reference: pointer + size.
#[derive(Clone, Copy, PartialEq, Eq, Structural, Debug)]
pub struct RawBlob {
    pub data: AbiPtr,
    pub size: usize,
}

impl RawBlob {
    /// The {null, 0} representation every empty or unset blob maps to.
    pub fn null() -> (r: RawBlob)
        ensures
            r.data == AbiPtr::Null,
            r.size == 0,
    {
        RawBlob { data: AbiPtr::Null, size: 0 }
    }
}

impl Default for RawBlob {
    fn default() -> (r: Self)
        ensures
            r.data == AbiPtr::Null,
            r.size == 0,
    {
        RawBlob { data: AbiPtr::Null, size: 0 }
    }
}

/// ABI array reference: pointer + element count. The type parameter records
/// the element type the engine expects behind the pointer.
pub struct RawList<T> {
    pub data: AbiPtr,
    pub count: usize,
    pub _marker: core::marker::PhantomData<T>,
}

impl<T> RawList<T> {
    /// The {null, 0} representation every empty or unset list maps to.
    pub fn null() -> (r: RawList<T>)
        ensures
            r.data == AbiPtr::Null,
            r.count == 0,
    {
        RawList { data: AbiPtr::Null, count: 0, _marker: core::marker::PhantomData }
    }
}

impl<T> Clone for RawList<T> {
    fn clone(&self) -> (r: Self)
        ensures
            r.data == self.data,
            r.count == self.count,
    {
        RawList { data: self.data, count: self.count, _marker: core::marker::PhantomData }
    }
}

impl<T> Default for RawList<T> {
    fn default() -> (r: Self)
        ensures
            r.data == AbiPtr::Null,
            r.count == 0,
    {
        RawList { data: AbiPtr::Null, count: 0, _marker: core::marker::PhantomData }
    }
}

/// A possibly-null ABI pointer handed back by the engine.
#[derive(Clone, Copy, PartialEq, Eq, Structural, Debug)]
pub struct OptionRef {
    pub ptr: AbiPtr,
}

impl OptionRef {
    pub fn is_some(&self) -> (r: bool)
        ensures
            r == (self.ptr != AbiPtr::Null),
    {
        !self.ptr.is_null()
    }

    pub fn is_none(&self) -> (r: bool)
        ensures
            r == (self.ptr == AbiPtr::Null),
    {
        self.ptr.is_null()
    }
}

/// An already-ABI-shaped value accepted verbatim: the explicit
/// "I accept this is unchecked" marker demanded of raw-escape callers.
/// Constructing one is the acknowledgement; the marshaller passes the wrapped
/// value through without interpreting it.
pub struct Unsafe<T> {
    value: T,
}

impl<T> Unsafe<T> {
    /// The inner raw value, for contracts.
    pub closed spec fn inner(&self) -> T {
        self.value
    }

    pub fn new(value: T) -> (r: Unsafe<T>)
        ensures
            r.inner() == value,
    {
        Unsafe { value }
    }

    /// Surrenders the raw value to the marshaller.
    pub fn take(self) -> (r: T)
        ensures
            r == self.inner(),
    {
        self.value
    }
}

/// ABI form of one property override: fixed-layout fields plus translated
/// string references.
#[derive(Clone, Copy, PartialEq, Eq, Structural, Debug)]
pub struct RawPropOverrideDesc {
    pub element_id: u32,
    pub prop_name: RawString,
    pub value: Vec4,
    pub value_str: RawString,
    pub value_int: i64,
}

impl Default for RawPropOverrideDesc {
    fn default() -> (r: Self)
        ensures
            r.element_id == 0,
            r.prop_name == (RawString { data: AbiPtr::Null, length: 0 }),
            r.value == Vec4::spec_zero(),
            r.value_str == (RawString { data: AbiPtr::Null, length: 0 }),
            r.value_int == 0,
    {
        RawPropOverrideDesc {
            element_id: 0,
            prop_name: RawString::null(),
            value: Vec4::default(),
            value_str: RawString::null(),
            value_int: 0,
        }
    }
}

/// ABI allocator descriptor: the function-pointer slots and the context
/// pointer the engine will pass back to them.
#[derive(Clone, Copy, PartialEq, Eq, Structural, Debug)]
pub struct RawAllocator {
    pub alloc_fn: Option<AbiFn>,
    pub realloc_fn: Option<AbiFn>,
    pub free_fn: Option<AbiFn>,
    pub free_allocator_fn: Option<AbiFn>,
    pub user: AbiPtr,
}

impl Default for RawAllocator {
    fn default() -> (r: Self)
        ensures
            r.alloc_fn is None,
            r.realloc_fn is None,
            r.free_fn is None,
            r.free_allocator_fn is None,
            r.user == AbiPtr::Null,
    {
        RawAllocator {
            alloc_fn: None,
            realloc_fn: None,
            free_fn: None,
            free_allocator_fn: None,
            user: AbiPtr::Null,
        }
    }
}

/// ABI stream descriptor: {read, skip, close} function pointers plus context.
#[derive(Clone, Copy, PartialEq, Eq, Structural, Debug)]
pub struct RawStream {
    pub read_fn: Option<AbiFn>,
    pub skip_fn: Option<AbiFn>,
    pub close_fn: Option<AbiFn>,
    pub user: AbiPtr,
}

impl Default for RawStream {
    fn default() -> (r: Self)
        ensures
            r.read_fn is None,
            r.skip_fn is None,
            r.close_fn is None,
            r.user == AbiPtr::Null,
    {
        RawStream { read_fn: None, skip_fn: None, close_fn: None, user: AbiPtr::Null }
    }
}

/// ABI thread-pool descriptor: {init, run, wait, free} function pointers plus
/// context. The wrapper only ever supplies this descriptor; it never
/// schedules tasks itself.
#[derive(Clone, Copy, PartialEq, Eq, Structural, Debug)]
pub struct RawThreadPool {
    pub init_fn: Option<AbiFn>,
    pub run_fn: Option<AbiFn>,
    pub wait_fn: Option<AbiFn>,
    pub free_fn: Option<AbiFn>,
    pub user: AbiPtr,
}

impl Default for RawThreadPool {
    fn default() -> (r: Self)
        ensures
            r.init_fn is None,
            r.run_fn is None,
            r.wait_fn is None,
            r.free_fn is None,
            r.user == AbiPtr::Null,
    {
        RawThreadPool { init_fn: None, run_fn: None, wait_fn: None, free_fn: None, user: AbiPtr::Null }
    }
}

/// ABI open-file callback registration: trampoline + context pointer.
#[derive(Clone, Copy, PartialEq, Eq, Structural, Debug)]
pub struct RawOpenFileCb {
    pub fn_: Option<AbiFn>,
    pub user: AbiPtr,
}

impl Default for RawOpenFileCb {
    fn default() -> (r: Self)
        ensures
            r.fn_ is None,
            r.user == AbiPtr::Null,
    {
        RawOpenFileCb { fn_: None, user: AbiPtr::Null }
    }
}

/// ABI close-memory callback registration: trampoline + context pointer.
#[derive(Clone, Copy, PartialEq, Eq, Structural, Debug)]
pub struct RawCloseMemoryCb {
    pub fn_: Option<AbiFn>,
    pub user: AbiPtr,
}

impl Default for RawCloseMemoryCb {
    fn default() -> (r: Self)
        ensures
            r.fn_ is None,
            r.user == AbiPtr::Null,
    {
        RawCloseMemoryCb { fn_: None, user: AbiPtr::Null }
    }
}

} // verus!
