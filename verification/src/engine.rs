//! The reference engine the wrapper is verified against: an instrumented,
//! in-memory stand-in for the native object-graph engine, with the same call
//! contract — flat options records in, error records out, reference-counted
//! opaque objects held by integer handles.
//!
//! The engine counts every retain, release and free call, which is what
//! makes ownership properties observable: duplicating a handle n times and
//! dropping all n + 1 handles must free the underlying object exactly once.

use crate::callbacks::{ProgressResult, plan_answer};
use crate::error::{Error, ErrorType, Panic};
use crate::kinds::{IndexErrorHandling, UnicodeErrorHandling};
use crate::opts::RawLoadOpts;
use vstd::prelude::*;
use vstd::string::StringExecFns;

verus! {

/// What the engine knows about one loaded document.
pub struct SceneData {
    pub element_tags: Vec<u32>,
}

impl SceneData {
    /// How many top-level elements the document has.
    pub fn num_elements(&self) -> (r: usize)
        ensures
            r == self.element_tags@.len(),
    {
        self.element_tags.len()
    }
}

/// One reference-counted object in the engine's store. A freed object stays
/// in place, dead, so handles can be talked about by stable index.
pub struct NativeObject {
    pub refcount: u64,
    pub alive: bool,
    pub scene: SceneData,
}

/// The mathematical model of one object.
pub struct ObjectModel {
    pub refcount: nat,
    pub alive: bool,
    pub tags: Seq<u32>,
}

/// The mathematical model of the engine: its object store and its
/// instrumentation counters.
pub struct EngineModel {
    pub objects: Seq<ObjectModel>,
    pub retain_calls: nat,
    pub release_calls: nat,
    pub free_calls: nat,
    pub progress_calls: nat,
}

/// The engine. One value stands for one loaded engine instance; every
/// operation that touches the object graph goes through it.
pub struct Engine {
    pub objects: Vec<NativeObject>,
    pub retain_calls: u64,
    pub release_calls: u64,
    pub free_calls: u64,
    pub progress_calls: u64,
}

impl View for NativeObject {
    type V = ObjectModel;

    open spec fn view(&self) -> ObjectModel {
        ObjectModel {
            refcount: self.refcount as nat,
            alive: self.alive,
            tags: self.scene.element_tags@,
        }
    }
}

impl View for Engine {
    type V = EngineModel;

    open spec fn view(&self) -> EngineModel {
        EngineModel {
            objects: Seq::new(self.objects@.len(), |i: int| self.objects@[i]@),
            retain_calls: self.retain_calls as nat,
            release_calls: self.release_calls as nat,
            free_calls: self.free_calls as nat,
            progress_calls: self.progress_calls as nat,
        }
    }
}

/// The object with this id exists and has not been freed.
pub open spec fn object_live(m: EngineModel, id: int) -> bool {
    &&& 0 <= id < m.objects.len()
    &&& m.objects[id].alive
    &&& m.objects[id].refcount >= 1
}

/// What a retain call does to the model: the object's count goes up by one,
/// the retain counter goes up by one, nothing else moves.
pub open spec fn spec_retain(m: EngineModel, id: int) -> EngineModel {
    EngineModel {
        objects: m.objects.update(
            id,
            ObjectModel {
                refcount: m.objects[id].refcount + 1,
                alive: m.objects[id].alive,
                tags: m.objects[id].tags,
            },
        ),
        retain_calls: m.retain_calls + 1,
        release_calls: m.release_calls,
        free_calls: m.free_calls,
        progress_calls: m.progress_calls,
    }
}

/// What a release call does to the model: the count goes down by one; when
/// it reaches zero the object is freed, exactly then does the free counter
/// move.
pub open spec fn spec_release(m: EngineModel, id: int) -> EngineModel {
    let freed = m.objects[id].refcount <= 1;
    EngineModel {
        objects: m.objects.update(
            id,
            ObjectModel {
                refcount: (m.objects[id].refcount - 1) as nat,
                alive: !freed && m.objects[id].alive,
                tags: m.objects[id].tags,
            },
        ),
        retain_calls: m.retain_calls,
        release_calls: m.release_calls + 1,
        free_calls: if freed {
            m.free_calls + 1
        } else {
            m.free_calls
        },
        progress_calls: m.progress_calls,
    }
}

impl Engine {
    /// A fresh engine with an empty object store and zeroed counters.
    pub fn new() -> (r: Engine)
        ensures
            r@.objects.len() == 0,
            r@.retain_calls == 0,
            r@.release_calls == 0,
            r@.free_calls == 0,
            r@.progress_calls == 0,
    {
        let e = Engine {
            objects: Vec::new(),
            retain_calls: 0,
            release_calls: 0,
            free_calls: 0,
            progress_calls: 0,
        };
        proof {
            assert(e@.objects =~= Seq::<ObjectModel>::empty());
        }
        e
    }

    /// Whether the engine was built thread-safe: the one-time capability
    /// query made before handles are shared across threads.
    pub fn is_thread_safe(&self) -> (r: bool)
        ensures
            r == true,
    {
        true
    }

    /// Increments an object's reference count: the native retain call.
    pub fn retain_scene(&mut self, id: usize)
        requires
            object_live(old(self)@, id as int),
            old(self).objects@[id as int].refcount < u64::MAX,
            old(self).retain_calls < u64::MAX,
        ensures
            final(self)@ == spec_retain(old(self)@, id as int),
    {
        let obj = &mut self.objects[id];
        obj.refcount = obj.refcount + 1;
        self.retain_calls = self.retain_calls + 1;
        proof {
            assert(self@.objects =~= spec_retain(old(self)@, id as int).objects);
        }
    }

    /// Decrements an object's reference count and frees the object when the
    /// count reaches zero: the native release call.
    pub fn free_scene(&mut self, id: usize)
        requires
            object_live(old(self)@, id as int),
            old(self).release_calls < u64::MAX,
            old(self).free_calls < u64::MAX,
        ensures
            final(self)@ == spec_release(old(self)@, id as int),
    {
        let obj = &mut self.objects[id];
        obj.refcount = obj.refcount - 1;
        if obj.refcount == 0 {
            obj.alive = false;
            self.free_calls = self.free_calls + 1;
        }
        self.release_calls = self.release_calls + 1;
        proof {
            assert(self@.objects =~= spec_release(old(self)@, id as int).objects);
        }
    }
}

/// The model after n retain calls on one object.
pub open spec fn retain_n(m: EngineModel, id: int, n: nat) -> EngineModel
    decreases n,
{
    if n == 0 {
        m
    } else {
        spec_retain(retain_n(m, id, (n - 1) as nat), id)
    }
}

/// The model after n release calls on one object.
pub open spec fn release_n(m: EngineModel, id: int, n: nat) -> EngineModel
    decreases n,
{
    if n == 0 {
        m
    } else {
        spec_release(release_n(m, id, (n - 1) as nat), id)
    }
}

/// Retaining n times raises the count by n and frees nothing.
pub proof fn lemma_retain_n(m: EngineModel, id: int, n: nat)
    requires
        object_live(m, id),
    ensures
        object_live(retain_n(m, id, n), id),
        retain_n(m, id, n).objects.len() == m.objects.len(),
        retain_n(m, id, n).objects[id].refcount == m.objects[id].refcount + n,
        retain_n(m, id, n).objects[id].alive,
        retain_n(m, id, n).objects[id].tags == m.objects[id].tags,
        retain_n(m, id, n).retain_calls == m.retain_calls + n,
        retain_n(m, id, n).release_calls == m.release_calls,
        retain_n(m, id, n).free_calls == m.free_calls,
    decreases n,
{
    if n > 0 {
        lemma_retain_n(m, id, (n - 1) as nat);
    }
}

/// Releasing exactly as many times as the count frees the object exactly
/// once: the count reaches zero, the object dies on the last release and on
/// no earlier one, and the free counter moves by exactly one.
pub proof fn lemma_release_to_zero(m: EngineModel, id: int)
    requires
        object_live(m, id),
    ensures
        release_n(m, id, m.objects[id].refcount).objects.len() == m.objects.len(),
        !release_n(m, id, m.objects[id].refcount).objects[id].alive,
        release_n(m, id, m.objects[id].refcount).objects[id].refcount == 0,
        release_n(m, id, m.objects[id].refcount).free_calls == m.free_calls + 1,
        release_n(m, id, m.objects[id].refcount).release_calls == m.release_calls
            + m.objects[id].refcount,
        release_n(m, id, m.objects[id].refcount).retain_calls == m.retain_calls,
    decreases m.objects[id].refcount,
{
    let c = m.objects[id].refcount;
    if c == 1 {
        assert(release_n(m, id, 1) == spec_release(release_n(m, id, 0), id));
    } else {
        let m1 = spec_release(m, id);
        assert(object_live(m1, id));
        lemma_release_to_zero(m1, id);
        lemma_release_n_shift(m, id, (c - 1) as nat);
    }
}

/// Releasing n + 1 times from `m` is releasing n times from the model after
/// one release.
proof fn lemma_release_n_shift(m: EngineModel, id: int, n: nat)
    ensures
        release_n(m, id, n + 1) == release_n(spec_release(m, id), id, n),
    decreases n,
{
    if n == 0 {
        assert(release_n(m, id, 1) == spec_release(release_n(m, id, 0), id));
        assert(release_n(spec_release(m, id), id, 0) == spec_release(m, id));
    } else {
        lemma_release_n_shift(m, id, (n - 1) as nat);
        assert(release_n(m, id, n + 1) == spec_release(release_n(m, id, n), id));
        assert(release_n(spec_release(m, id), id, n) == spec_release(
            release_n(spec_release(m, id), id, (n - 1) as nat),
            id,
        ));
    }
}

/// The ownership law: an object held by one handle, duplicated n times and
/// then released n + 1 times, is freed exactly once — the free counter
/// moves by exactly one over the whole sequence, and never before the last
/// release.
pub proof fn lemma_duplicate_then_drop_frees_once(m: EngineModel, id: int, n: nat)
    requires
        object_live(m, id),
        m.objects[id].refcount == 1,
    ensures
        release_n(retain_n(m, id, n), id, n + 1).free_calls == m.free_calls + 1,
        !release_n(retain_n(m, id, n), id, n + 1).objects[id].alive,
        release_n(retain_n(m, id, n), id, n + 1).release_calls == m.release_calls + n + 1,
        release_n(retain_n(m, id, n), id, n + 1).retain_calls == m.retain_calls + n,
        forall|k: nat|
            k < n + 1 ==> object_live(#[trigger] release_n(retain_n(m, id, n), id, k), id),
    decreases n,
{
    let md = retain_n(m, id, n);
    lemma_retain_n(m, id, n);
    lemma_release_to_zero(md, id);
    assert forall|k: nat| k < n + 1 implies object_live(
        #[trigger] release_n(md, id, k),
        id,
    ) by {
        lemma_release_partial(md, id, k);
    }
}

/// Releasing fewer times than the count leaves the object live.
proof fn lemma_release_partial(m: EngineModel, id: int, k: nat)
    requires
        object_live(m, id),
        k < m.objects[id].refcount,
    ensures
        object_live(release_n(m, id, k), id),
        release_n(m, id, k).objects.len() == m.objects.len(),
        release_n(m, id, k).objects[id].refcount == m.objects[id].refcount - k,
    decreases k,
{
    if k > 0 {
        lemma_release_partial(m, id, (k - 1) as nat);
    }
}


/// The byte the document header carries at the given offset.
pub open spec fn magic_byte(i: int) -> u8 {
    if i == 0 {
        0x46
    } else if i == 1 {
        0x42
    } else if i == 2 {
        0x58
    } else {
        0x00
    }
}

/// Whether the data starts with the document magic, as far as it reaches.
pub open spec fn magic_prefix_ok(data: Seq<u8>) -> bool {
    forall|i: int| 0 <= i < 4 && i < data.len() ==> data[i] == magic_byte(i)
}

/// The number a little-endian byte quadruple encodes.
pub open spec fn le32(b0: u8, b1: u8, b2: u8, b3: u8) -> u32 {
    (b0 + b1 * 0x100 + b2 * 0x10000 + b3 * 0x1000000) as u32
}

/// The element count the header declares.
pub open spec fn doc_count(data: Seq<u8>) -> u32
    recommends
        data.len() >= 8,
{
    le32(data[4], data[5], data[6], data[7])
}

/// How many bytes a complete document with this header takes: the 8-byte
/// header plus one 4-byte record per element.
pub open spec fn doc_size(data: Seq<u8>) -> int {
    8 + 4 * doc_count(data)
}

/// What is wrong with the data as a document; `NoError` when it is well
/// formed.
pub open spec fn doc_error(data: Seq<u8>) -> ErrorType {
    if data.len() == 0 {
        ErrorType::EmptyFile
    } else if !magic_prefix_ok(data) {
        ErrorType::UnrecognizedFileFormat
    } else if data.len() < 8 {
        ErrorType::TruncatedFile
    } else if data.len() < doc_size(data) {
        ErrorType::TruncatedFile
    } else {
        ErrorType::NoError
    }
}

/// The tag of the i-th element record.
pub open spec fn doc_tag(data: Seq<u8>, i: int) -> u32 {
    le32(data[8 + 4 * i], data[9 + 4 * i], data[10 + 4 * i], data[11 + 4 * i])
}

/// All element tags of a well-formed document, in order.
pub open spec fn doc_tags(data: Seq<u8>) -> Seq<u32> {
    Seq::new(doc_count(data) as nat, |i: int| doc_tag(data, i))
}

/// The first index in `[i, upto)` at which the plan answers `Cancel`;
/// `upto` when it never does.
pub open spec fn cancel_scan(plan: Seq<ProgressResult>, i: int, upto: int) -> int
    decreases upto - i,
{
    if i >= upto {
        upto
    } else if plan_answer(plan, i) is Cancel {
        i
    } else {
        cancel_scan(plan, i + 1, upto)
    }
}

/// The first of the first `upto` progress invocations the plan cancels;
/// `upto` when it cancels none of them.
pub open spec fn cancel_point(plan: Seq<ProgressResult>, upto: int) -> int {
    cancel_scan(plan, 0, upto)
}

/// Scanning one invocation further: a scan that found no cancel either
/// stops at the new invocation or still finds none.
pub proof fn lemma_cancel_scan_extend(plan: Seq<ProgressResult>, i: int, upto: int)
    requires
        0 <= i <= upto,
        cancel_scan(plan, i, upto) == upto,
    ensures
        cancel_scan(plan, i, upto + 1) == if plan_answer(plan, upto) is Cancel {
            upto
        } else {
            upto + 1
        },
    decreases upto - i,
{
    if i == upto {
        assert(cancel_scan(plan, upto + 1, upto + 1) == upto + 1);
    } else {
        lemma_cancel_scan_extend(plan, i + 1, upto);
    }
}

/// A cancel at the first position not yet scanned pins the scan of any
/// longer range to that position.
pub proof fn lemma_cancel_scan_found(plan: Seq<ProgressResult>, i: int, k: int, upto: int)
    requires
        0 <= i <= k < upto,
        cancel_scan(plan, i, k) == k,
        plan_answer(plan, k) is Cancel,
    ensures
        cancel_scan(plan, i, upto) == k,
    decreases k - i,
{
    if i < k {
        lemma_cancel_scan_found(plan, i + 1, k, upto);
    }
}

/// A range with no cancel answer scans to its end.
pub proof fn lemma_cancel_scan_none(plan: Seq<ProgressResult>, i: int, k: int)
    requires
        0 <= i <= k,
        forall|j: int| i <= j < k ==> !(plan_answer(plan, j) is Cancel),
    ensures
        cancel_scan(plan, i, k) == k,
    decreases k - i,
{
    if i < k {
        lemma_cancel_scan_none(plan, i + 1, k);
    }
}

/// The record fails the delimiter check every engine entry point makes
/// first: its zero guards are not zero, so it was not initialized properly.
pub open spec fn opts_uninitialized(o: RawLoadOpts) -> bool {
    o._begin_zero != 0 || o._end_zero != 0
}

/// The record asks for an unsafe option without acknowledging unsafety.
pub open spec fn opts_unsafe_violation(o: RawLoadOpts) -> bool {
    &&& !o.allow_unsafe
    &&& (o.index_error_handling is UnsafeIgnore || o.unicode_error_handling is UnsafeIgnore)
}

/// The kind of failure a load call reports before any progress is made:
/// option-record misuse first, then document shape. `NoError` if parsing
/// can proceed.
pub open spec fn load_error_kind(data: Seq<u8>, o: RawLoadOpts) -> ErrorType {
    if opts_uninitialized(o) {
        ErrorType::UninitializedOptions
    } else if opts_unsafe_violation(o) {
        ErrorType::UnsafeOptions
    } else {
        doc_error(data)
    }
}

/// How often a load of this document consults the progress callback when
/// nothing cancels: once before each element record, once at the end.
pub open spec fn progress_points(data: Seq<u8>) -> int {
    doc_count(data) + 1
}

/// Whether the registered progress plan cancels this load.
pub open spec fn load_cancelled(data: Seq<u8>, o: RawLoadOpts) -> bool {
    &&& load_error_kind(data, o) == ErrorType::NoError
    &&& o.progress_cb.fn_ is Some
    &&& cancel_point(o.progress_cb.plan@, progress_points(data)) < progress_points(data)
}

/// How often the load consults the progress callback: never before parsing
/// starts or without a registered callback, and never again after the
/// invocation that cancelled.
pub open spec fn load_progress_invocations(data: Seq<u8>, o: RawLoadOpts) -> int {
    if load_error_kind(data, o) != ErrorType::NoError {
        0
    } else if o.progress_cb.fn_ is None {
        0
    } else if load_cancelled(data, o) {
        cancel_point(o.progress_cb.plan@, progress_points(data)) + 1
    } else {
        progress_points(data)
    }
}

/// What kind a load call reports overall.
pub open spec fn load_outcome_kind(data: Seq<u8>, o: RawLoadOpts) -> ErrorType {
    if load_error_kind(data, o) != ErrorType::NoError {
        load_error_kind(data, o)
    } else if load_cancelled(data, o) {
        ErrorType::Cancelled
    } else {
        ErrorType::NoError
    }
}

/// The description text the engine files for each failure kind.
pub open spec fn spec_kind_description(t: ErrorType) -> Seq<char> {
    match t {
        ErrorType::NoError => ""@,
        ErrorType::Unknown => "Unknown error"@,
        ErrorType::FileNotFound => "File not found"@,
        ErrorType::EmptyFile => "Empty file"@,
        ErrorType::ExternalFileNotFound => "External file not found"@,
        ErrorType::OutOfMemory => "Out of memory"@,
        ErrorType::MemoryLimit => "Memory limit exceeded"@,
        ErrorType::AllocationLimit => "Allocation limit exceeded"@,
        ErrorType::TruncatedFile => "Truncated file"@,
        ErrorType::Io => "IO error"@,
        ErrorType::Cancelled => "Cancelled"@,
        ErrorType::UnrecognizedFileFormat => "Unrecognized file format"@,
        ErrorType::UninitializedOptions => "Uninitialized options"@,
        ErrorType::ZeroVertexSize => "Zero vertex size"@,
        ErrorType::TruncatedVertexStream => "Truncated vertex stream"@,
        ErrorType::InvalidUtf8 => "Invalid UTF-8"@,
        ErrorType::FeatureDisabled => "Feature disabled"@,
        ErrorType::BadNurbs => "Bad NURBS geometry"@,
        ErrorType::BadIndex => "Bad index"@,
        ErrorType::NodeDepthLimit => "Node depth limit exceeded"@,
        ErrorType::ThreadedAsciiParse => "Threaded ASCII parse"@,
        ErrorType::UnsafeOptions => "Unsafe options not allowed"@,
        ErrorType::DuplicateOverride => "Duplicate override"@,
    }
}

/// Renders the description the engine files for each failure kind.
pub fn kind_description(t: ErrorType) -> (r: String)
    ensures
        r@ == spec_kind_description(t),
{
    match t {
        ErrorType::NoError => String::from_str(""),
        ErrorType::Unknown => String::from_str("Unknown error"),
        ErrorType::FileNotFound => String::from_str("File not found"),
        ErrorType::EmptyFile => String::from_str("Empty file"),
        ErrorType::ExternalFileNotFound => String::from_str("External file not found"),
        ErrorType::OutOfMemory => String::from_str("Out of memory"),
        ErrorType::MemoryLimit => String::from_str("Memory limit exceeded"),
        ErrorType::AllocationLimit => String::from_str("Allocation limit exceeded"),
        ErrorType::TruncatedFile => String::from_str("Truncated file"),
        ErrorType::Io => String::from_str("IO error"),
        ErrorType::Cancelled => String::from_str("Cancelled"),
        ErrorType::UnrecognizedFileFormat => String::from_str("Unrecognized file format"),
        ErrorType::UninitializedOptions => String::from_str("Uninitialized options"),
        ErrorType::ZeroVertexSize => String::from_str("Zero vertex size"),
        ErrorType::TruncatedVertexStream => String::from_str("Truncated vertex stream"),
        ErrorType::InvalidUtf8 => String::from_str("Invalid UTF-8"),
        ErrorType::FeatureDisabled => String::from_str("Feature disabled"),
        ErrorType::BadNurbs => String::from_str("Bad NURBS geometry"),
        ErrorType::BadIndex => String::from_str("Bad index"),
        ErrorType::NodeDepthLimit => String::from_str("Node depth limit exceeded"),
        ErrorType::ThreadedAsciiParse => String::from_str("Threaded ASCII parse"),
        ErrorType::UnsafeOptions => String::from_str("Unsafe options not allowed"),
        ErrorType::DuplicateOverride => String::from_str("Duplicate override"),
    }
}

/// Reads the little-endian number at the given offset.
fn read_u32_le(data: &[u8], off: usize) -> (r: u32)
    requires
        off + 4 <= data@.len(),
    ensures
        r == le32(data@[off as int], data@[off + 1], data@[off + 2], data@[off + 3]),
{
    let b0 = data[off] as u32;
    let b1 = data[off + 1] as u32;
    let b2 = data[off + 2] as u32;
    let b3 = data[off + 3] as u32;
    b0 + b1 * 0x100 + b2 * 0x10000 + b3 * 0x1000000
}

/// The answer the plan gives on invocation k.
fn plan_answer_at(plan: &Vec<ProgressResult>, k: usize) -> (r: ProgressResult)
    ensures
        r == plan_answer(plan@, k as int),
{
    if k < plan.len() {
        plan[k]
    } else {
        ProgressResult::Continue
    }
}


impl Engine {
    /// The marshalled load entry point: takes the data and one flat options
    /// record, fills the caller's error record, and returns the id of the
    /// freshly allocated document object — null (`None`) exactly when the
    /// error record holds a failure kind.
    ///
    /// On any failure no object is allocated and none is leaked; the
    /// progress callback, once it has answered `Cancel`, is never consulted
    /// again.
    pub fn load_memory_core(&mut self, data: &[u8], opts: &RawLoadOpts, error: &mut Error) -> (r:
        Option<usize>)
        requires
            old(self).progress_calls <= u64::MAX - 0x1_0000_0000,
        ensures
            final(self)@.retain_calls == old(self)@.retain_calls,
            final(self)@.release_calls == old(self)@.release_calls,
            final(self)@.free_calls == old(self)@.free_calls,
            final(self)@.progress_calls == old(self)@.progress_calls + load_progress_invocations(
                data@,
                *opts,
            ),
            final(error).wf(),
            final(error).type_ == load_outcome_kind(data@, *opts),
            final(error).description@ == spec_kind_description(load_outcome_kind(data@, *opts)),
            load_outcome_kind(data@, *opts) == ErrorType::NoError ==> {
                &&& r matches Some(id) && id == old(self)@.objects.len()
                &&& final(self)@.objects == old(self)@.objects.push(
                    ObjectModel { refcount: 1, alive: true, tags: doc_tags(data@) },
                )
            },
            load_outcome_kind(data@, *opts) != ErrorType::NoError ==> {
                &&& r is None
                &&& final(self)@.objects == old(self)@.objects
            },
    {
        let ghost m0 = self@;
        if opts._begin_zero != 0 || opts._end_zero != 0 {
            *error = Error::new(
                ErrorType::UninitializedOptions,
                kind_description(ErrorType::UninitializedOptions),
                String::new(),
            );
            return None;
        }
        let index_unsafe = matches!(opts.index_error_handling, IndexErrorHandling::UnsafeIgnore);
        let unicode_unsafe = matches!(
            opts.unicode_error_handling,
            UnicodeErrorHandling::UnsafeIgnore,
        );
        if !opts.allow_unsafe && (index_unsafe || unicode_unsafe) {
            *error = Error::new(
                ErrorType::UnsafeOptions,
                kind_description(ErrorType::UnsafeOptions),
                String::new(),
            );
            return None;
        }
        let n = data.len();
        if n == 0 {
            *error = Error::new(
                ErrorType::EmptyFile,
                kind_description(ErrorType::EmptyFile),
                String::new(),
            );
            return None;
        }
        let magic_ok = !(n >= 1 && data[0] != 0x46) && !(n >= 2 && data[1] != 0x42) && !(n >= 3
            && data[2] != 0x58) && !(n >= 4 && data[3] != 0x00);
        proof {
            if magic_ok {
                assert forall|i: int| 0 <= i < 4 && i < data@.len() implies data@[i] == magic_byte(
                    i,
                ) by {
                    if i == 0 {
                    } else if i == 1 {
                    } else if i == 2 {
                    }
                }
            } else {
                if n >= 1 && data@[0] != 0x46 {
                    assert(data@[0] != magic_byte(0));
                } else if n >= 2 && data@[1] != 0x42 {
                    assert(data@[1] != magic_byte(1));
                } else if n >= 3 && data@[2] != 0x58 {
                    assert(data@[2] != magic_byte(2));
                } else {
                    assert(n >= 4 && data@[3] != 0x00);
                    assert(data@[3] != magic_byte(3));
                }
                assert(!magic_prefix_ok(data@));
            }
        }
        if !magic_ok {
            *error = Error::new(
                ErrorType::UnrecognizedFileFormat,
                kind_description(ErrorType::UnrecognizedFileFormat),
                String::new(),
            );
            return None;
        }
        if n < 8 {
            *error = Error::new(
                ErrorType::TruncatedFile,
                kind_description(ErrorType::TruncatedFile),
                String::new(),
            );
            return None;
        }
        let count = read_u32_le(data, 4);
        let needed: u64 = 8 + 4 * (count as u64);
        if (n as u64) < needed {
            *error = Error::new(
                ErrorType::TruncatedFile,
                kind_description(ErrorType::TruncatedFile),
                String::new(),
            );
            return None;
        }
        proof {
            assert(doc_error(data@) == ErrorType::NoError);
        }
        let cb_on = opts.progress_cb.fn_.is_some();
        let ghost plan = opts.progress_cb.plan@;
        let mut tags: Vec<u32> = Vec::new();
        let mut i: u32 = 0;
        proof {
            assert(doc_tags(data@).take(0) =~= tags@);
        }
        while i < count
            invariant
                i <= count,
                m0 == old(self)@,
                count == doc_count(data@),
                doc_error(data@) == ErrorType::NoError,
                !opts_uninitialized(*opts),
                !opts_unsafe_violation(*opts),
                data@.len() <= usize::MAX,
                data@.len() >= 8 + 4 * (count as int),
                tags@ == doc_tags(data@).take(i as int),
                cb_on == (opts.progress_cb.fn_ is Some),
                plan == opts.progress_cb.plan@,
                cb_on ==> cancel_scan(plan, 0, i as int) == i as int,
                self@.objects == m0.objects,
                self@.retain_calls == m0.retain_calls,
                self@.release_calls == m0.release_calls,
                self@.free_calls == m0.free_calls,
                self@.progress_calls == m0.progress_calls + if cb_on {
                    i as int
                } else {
                    0
                },
                m0.progress_calls <= u64::MAX - 0x1_0000_0000,
            decreases count - i,
        {
            if cb_on {
                self.progress_calls = self.progress_calls + 1;
                let answer = plan_answer_at(&opts.progress_cb.plan, i as usize);
                if matches!(answer, ProgressResult::Cancel) {
                    proof {
                        lemma_cancel_scan_found(
                            plan,
                            0,
                            i as int,
                            progress_points(data@),
                        );
                    }
                    *error = Error::new(
                        ErrorType::Cancelled,
                        kind_description(ErrorType::Cancelled),
                        String::new(),
                    );
                    return None;
                }
                proof {
                    lemma_cancel_scan_extend(plan, 0, i as int);
                }
            }
            proof {
                assert(8 + 4 * (i as int) + 4 <= data@.len());
            }
            let off: usize = 8 + 4 * (i as usize);
            let tag = read_u32_le(data, off);
            tags.push(tag);
            proof {
                assert(doc_tag(data@, i as int) == tag);
                assert(tags@ =~= doc_tags(data@).take(i as int + 1));
            }
            i = i + 1;
        }
        if cb_on {
            self.progress_calls = self.progress_calls + 1;
            let answer = plan_answer_at(&opts.progress_cb.plan, count as usize);
            if matches!(answer, ProgressResult::Cancel) {
                proof {
                    lemma_cancel_scan_found(
                        plan,
                        0,
                        count as int,
                        progress_points(data@),
                    );
                }
                *error = Error::new(
                    ErrorType::Cancelled,
                    kind_description(ErrorType::Cancelled),
                    String::new(),
                );
                return None;
            }
            proof {
                lemma_cancel_scan_extend(plan, 0, count as int);
            }
        }
        let id = self.objects.len();
        self.objects.push(NativeObject { refcount: 1, alive: true, scene: SceneData { element_tags: tags } });
        *error = Error::default();
        proof {
            reveal_strlit("");
            assert(error.description@ =~= spec_kind_description(ErrorType::NoError));
            assert(doc_tags(data@).take(count as int) =~= doc_tags(data@));
            assert(self@.objects =~= m0.objects.push(
                ObjectModel { refcount: 1, alive: true, tags: doc_tags(data@) },
            ));
        }
        Some(id)
    }
}


impl Engine {
    /// A panic-channel read of one element tag: an out-of-range index is a
    /// caller bug, reported through the panic record, never an error
    /// record. Returns zero when the panic flag is set.
    pub fn catch_element_tag(&self, panic: &mut Panic, id: usize, index: usize) -> (r: u32)
        requires
            object_live(self@, id as int),
        ensures
            index < self@.objects[id as int].tags.len() ==> {
                &&& *final(panic) == *old(panic)
                &&& r == self@.objects[id as int].tags[index as int]
            },
            index >= self@.objects[id as int].tags.len() ==> {
                &&& final(panic).did_panic
                &&& final(panic).wf()
                &&& final(panic).spec_message() == "Element index out of range"@
                &&& r == 0
            },
    {
        let scene = &self.objects[id].scene;
        if index < scene.element_tags.len() {
            scene.element_tags[index]
        } else {
            panic.set(String::from_str("Element index out of range"));
            proof {
                reveal_strlit("Element index out of range");
            }
            0
        }
    }

    /// A panic-channel copy of all element tags into a caller-supplied
    /// output buffer: an undersized buffer is a caller bug, reported
    /// through the panic record with the buffer left untouched. Returns the
    /// number of tags written, zero when the panic flag is set.
    pub fn catch_copy_element_tags(&self, panic: &mut Panic, id: usize, dst: &mut Vec<u32>) -> (r:
        usize)
        requires
            object_live(self@, id as int),
        ensures
            old(dst)@.len() >= self@.objects[id as int].tags.len() ==> {
                &&& *final(panic) == *old(panic)
                &&& r == self@.objects[id as int].tags.len()
                &&& final(dst)@ == self@.objects[id as int].tags + old(dst)@.skip(
                    self@.objects[id as int].tags.len() as int,
                )
            },
            old(dst)@.len() < self@.objects[id as int].tags.len() ==> {
                &&& final(panic).did_panic
                &&& final(panic).wf()
                &&& final(panic).spec_message() == "Output buffer too small"@
                &&& r == 0
                &&& final(dst)@ == old(dst)@
            },
    {
        let scene = &self.objects[id].scene;
        let count = scene.element_tags.len();
        if dst.len() < count {
            panic.set(String::from_str("Output buffer too small"));
            proof {
                reveal_strlit("Output buffer too small");
            }
            return 0;
        }
        let ghost tags = self@.objects[id as int].tags;
        let ghost d0 = dst@;
        let mut i: usize = 0;
        while i < count
            invariant
                i <= count,
                count == tags.len(),
                scene.element_tags@ == tags,
                tags == self@.objects[id as int].tags,
                object_live(self@, id as int),
                dst@.len() == d0.len(),
                d0.len() >= count,
                forall|j: int| 0 <= j < i ==> dst@[j] == tags[j],
                forall|j: int| i <= j < d0.len() ==> dst@[j] == d0[j],
            decreases count - i,
        {
            let tag = scene.element_tags[i];
            proof {
                assert(tag == tags[i as int]);
            }
            let slot = &mut dst[i];
            *slot = tag;
            i = i + 1;
        }
        proof {
            assert(dst@ =~= tags + d0.skip(count as int));
        }
        count
    }
}

} // verus!
