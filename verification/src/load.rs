//! The loader entry points: configuration in, handle or error record out.
//!
//! Each entry point builds an arena, translates the configuration into one
//! flat record, makes the single engine call the arena was built for, and
//! unwraps the result: a non-null object with a clean error record becomes
//! an owning handle; a null object with a populated record becomes the
//! typed error. The arena and the flat record die with the call.

use crate::arena::Arena;
use crate::callbacks::{ProgressCb, ProgressResult};
use crate::callbacks::plan_answer;
use crate::engine::{
    Engine, cancel_point, doc_error, doc_tags, lemma_cancel_scan_found, lemma_cancel_scan_none,
    load_outcome_kind, load_progress_invocations, opts_uninitialized, opts_unsafe_violation,
    progress_points, spec_kind_description,
};
use crate::engine::{ObjectModel, kind_description};
use crate::error::{Error, ErrorType};
use crate::opts::{LoadOpts, RawLoadOpts};
use crate::roots::{SceneRoot, valid_root};
use crate::stream::StreamInterface;
use vstd::prelude::*;

verus! {

/// The plan a configured progress callback answers from.
pub open spec fn progress_plan_of(cb: ProgressCb) -> Seq<ProgressResult> {
    match cb {
        ProgressCb::Unset => Seq::<ProgressResult>::empty(),
        ProgressCb::Plan(plan) => plan@,
        ProgressCb::Raw(raw) => raw.inner().plan@,
    }
}

/// Whether the configuration registers a progress callback at all.
pub open spec fn progress_registered(cb: ProgressCb) -> bool {
    match cb {
        ProgressCb::Unset => false,
        ProgressCb::Plan(plan) => true,
        ProgressCb::Raw(raw) => raw.inner().fn_ is Some,
    }
}

/// The configuration asks for an unsafe option without acknowledging
/// unsafety.
pub open spec fn load_opts_unsafe_violation(o: LoadOpts) -> bool {
    &&& !o.allow_unsafe.inner()
    &&& (o.index_error_handling is UnsafeIgnore || o.unicode_error_handling is UnsafeIgnore)
}

/// Whether loading this data under this configuration is cancelled by the
/// progress callback.
pub open spec fn load_opts_cancelled(data: Seq<u8>, o: LoadOpts) -> bool {
    &&& !load_opts_unsafe_violation(o)
    &&& doc_error(data) == ErrorType::NoError
    &&& progress_registered(o.progress_cb)
    &&& cancel_point(progress_plan_of(o.progress_cb), progress_points(data)) < progress_points(
        data,
    )
}

/// The kind a load of this data under this configuration reports:
/// configuration misuse first, then document shape, then cooperative
/// cancellation; `NoError` exactly when a handle is owed.
pub open spec fn load_opts_outcome(data: Seq<u8>, o: LoadOpts) -> ErrorType {
    if load_opts_unsafe_violation(o) {
        ErrorType::UnsafeOptions
    } else if doc_error(data) != ErrorType::NoError {
        doc_error(data)
    } else if load_opts_cancelled(data, o) {
        ErrorType::Cancelled
    } else {
        ErrorType::NoError
    }
}

/// How often a load of this data under this configuration consults the
/// progress callback: never after the answer `Cancel`.
pub open spec fn load_opts_progress_invocations(data: Seq<u8>, o: LoadOpts) -> int {
    if load_opts_unsafe_violation(o) || doc_error(data) != ErrorType::NoError {
        0
    } else if !progress_registered(o.progress_cb) {
        0
    } else if load_opts_cancelled(data, o) {
        cancel_point(progress_plan_of(o.progress_cb), progress_points(data)) + 1
    } else {
        progress_points(data)
    }
}

/// The raw record's outcome is the configuration's outcome once the record
/// is the configuration's translation.
proof fn lemma_translated_outcome(data: Seq<u8>, o: LoadOpts, raw: RawLoadOpts, arena: Arena)
    requires
        crate::opts::load_opts_translated(o, raw, arena),
    ensures
        load_outcome_kind(data, raw) == load_opts_outcome(data, o),
        load_progress_invocations(data, raw) == load_opts_progress_invocations(data, o),
{
    assert(!opts_uninitialized(raw));
    assert(opts_unsafe_violation(raw) == load_opts_unsafe_violation(o));
    match o.progress_cb {
        ProgressCb::Unset => {},
        ProgressCb::Plan(plan) => {},
        ProgressCb::Raw(raw_cb) => {},
    }
}

/// Loads a document already in memory, through the raw, already-translated
/// record: fills a fresh error record through the engine's out-parameter
/// and maps {null, populated record} to the typed error and {non-null,
/// clean record} to an owning handle.
pub fn load_memory_raw(engine: &mut Engine, data: &[u8], opts: &RawLoadOpts) -> (r: Result<
    SceneRoot,
    Error,
>)
    requires
        old(engine).progress_calls <= u64::MAX - 0x1_0000_0000,
    ensures
        final(engine)@.retain_calls == old(engine)@.retain_calls,
        final(engine)@.release_calls == old(engine)@.release_calls,
        final(engine)@.free_calls == old(engine)@.free_calls,
        final(engine)@.progress_calls == old(engine)@.progress_calls + load_progress_invocations(
            data@,
            *opts,
        ),
        load_outcome_kind(data@, *opts) == ErrorType::NoError ==> {
            &&& r matches Ok(root) && root.spec_id() == old(engine)@.objects.len() && valid_root(
                final(engine)@,
                root,
            )
            &&& final(engine)@.objects == old(engine)@.objects.push(
                ObjectModel { refcount: 1, alive: true, tags: doc_tags(data@) },
            )
        },
        load_outcome_kind(data@, *opts) != ErrorType::NoError ==> {
            &&& r matches Err(e) && e.type_ == load_outcome_kind(data@, *opts) && e.wf()
                && e.description@ == spec_kind_description(load_outcome_kind(data@, *opts))
            &&& final(engine)@.objects == old(engine)@.objects
        },
{
    let mut error = Error::default();
    let result = engine.load_memory_core(data, opts, &mut error);
    if !matches!(error.type_, ErrorType::NoError) {
        return Err(error);
    }
    match result {
        Some(id) => Ok(SceneRoot::wrap(id)),
        None => {
            proof {
                assert(false);
            }
            Err(error)
        },
    }
}

/// Loads a document already in memory: translates the configuration into
/// the arena-backed flat record, makes the one engine call the arena was
/// built for, and returns an owning handle or the typed error.
pub fn load_memory(engine: &mut Engine, data: &[u8], opts: LoadOpts) -> (r: Result<
    SceneRoot,
    Error,
>)
    requires
        old(engine).progress_calls <= u64::MAX - 0x1_0000_0000,
    ensures
        final(engine)@.retain_calls == old(engine)@.retain_calls,
        final(engine)@.release_calls == old(engine)@.release_calls,
        final(engine)@.free_calls == old(engine)@.free_calls,
        final(engine)@.progress_calls == old(engine)@.progress_calls
            + load_opts_progress_invocations(data@, opts),
        load_opts_outcome(data@, opts) == ErrorType::NoError ==> {
            &&& r matches Ok(root) && root.spec_id() == old(engine)@.objects.len() && valid_root(
                final(engine)@,
                root,
            )
            &&& final(engine)@.objects == old(engine)@.objects.push(
                ObjectModel { refcount: 1, alive: true, tags: doc_tags(data@) },
            )
        },
        load_opts_outcome(data@, opts) != ErrorType::NoError ==> {
            &&& r matches Err(e) && e.type_ == load_opts_outcome(data@, opts) && e.wf()
                && e.description@ == spec_kind_description(load_opts_outcome(data@, opts))
            &&& final(engine)@.objects == old(engine)@.objects
        },
{
    let mut arena = Arena::new();
    let opts_raw = opts.from_rust(&mut arena);
    proof {
        lemma_translated_outcome(data@, opts, opts_raw, arena);
    }
    load_memory_raw(engine, data, &opts_raw)
}

/// Loads a document from a stream: reads the source to its end, closes it
/// exactly once, and loads the gathered bytes. A failed read surfaces as
/// the I/O error kind; otherwise the outcome is that of loading the
/// stream's bytes from memory.
pub fn load_stream<S: StreamInterface>(engine: &mut Engine, stream: &mut S, opts: LoadOpts) -> (r:
    Result<SceneRoot, Error>)
    requires
        old(engine).progress_calls <= u64::MAX - 0x1_0000_0000,
    ensures
        final(engine)@.retain_calls == old(engine)@.retain_calls,
        final(engine)@.release_calls == old(engine)@.release_calls,
        final(engine)@.free_calls == old(engine)@.free_calls,
        ({
            let data = old(stream).spec_data();
            ||| {
                &&& r matches Err(e) && e.type_ == ErrorType::Io && e.wf()
                &&& final(engine)@ == old(engine)@
            }
            ||| {
                &&& final(engine)@.progress_calls == old(engine)@.progress_calls
                    + load_opts_progress_invocations(data, opts)
                &&& load_opts_outcome(data, opts) == ErrorType::NoError ==> {
                    &&& r matches Ok(root) && root.spec_id() == old(engine)@.objects.len()
                        && valid_root(final(engine)@, root)
                    &&& final(engine)@.objects == old(engine)@.objects.push(
                        ObjectModel { refcount: 1, alive: true, tags: doc_tags(data) },
                    )
                }
                &&& (load_opts_outcome(data, opts) != ErrorType::NoError ==> {
                    &&& r matches Err(e) && e.type_ == load_opts_outcome(data, opts) && e.wf()
                    &&& final(engine)@.objects == old(engine)@.objects
                })
            }
        }),
{
    let mut buf: Vec<u8> = Vec::new();
    let ghost full = old(stream).spec_data();
    let ok = read_to_end(stream, &mut buf);
    stream.close();
    if !ok {
        let e = Error::new(ErrorType::Io, kind_description(ErrorType::Io), String::new());
        return Err(e);
    }
    proof {
        assert(buf@ =~= full);
    }
    load_memory(engine, buf.as_slice(), opts)
}

/// Loads a document from a byte prefix already peeked plus the stream that
/// carries the rest: the document is the prefix followed by the stream's
/// bytes.
pub fn load_stream_prefix<S: StreamInterface>(
    engine: &mut Engine,
    stream: &mut S,
    prefix: &[u8],
    opts: LoadOpts,
) -> (r: Result<SceneRoot, Error>)
    requires
        old(engine).progress_calls <= u64::MAX - 0x1_0000_0000,
    ensures
        final(engine)@.retain_calls == old(engine)@.retain_calls,
        final(engine)@.release_calls == old(engine)@.release_calls,
        final(engine)@.free_calls == old(engine)@.free_calls,
        ({
            let data = prefix@ + old(stream).spec_data();
            ||| {
                &&& r matches Err(e) && e.type_ == ErrorType::Io && e.wf()
                &&& final(engine)@ == old(engine)@
            }
            ||| {
                &&& final(engine)@.progress_calls == old(engine)@.progress_calls
                    + load_opts_progress_invocations(data, opts)
                &&& load_opts_outcome(data, opts) == ErrorType::NoError ==> {
                    &&& r matches Ok(root) && root.spec_id() == old(engine)@.objects.len()
                        && valid_root(final(engine)@, root)
                    &&& final(engine)@.objects == old(engine)@.objects.push(
                        ObjectModel { refcount: 1, alive: true, tags: doc_tags(data) },
                    )
                }
                &&& (load_opts_outcome(data, opts) != ErrorType::NoError ==> {
                    &&& r matches Err(e) && e.type_ == load_opts_outcome(data, opts) && e.wf()
                    &&& final(engine)@.objects == old(engine)@.objects
                })
            }
        }),
{
    let mut buf = copy_bytes(prefix);
    let ghost full = prefix@ + old(stream).spec_data();
    let ok = read_to_end(stream, &mut buf);
    stream.close();
    if !ok {
        let e = Error::new(ErrorType::Io, kind_description(ErrorType::Io), String::new());
        return Err(e);
    }
    proof {
        assert(buf@ == full);
    }
    load_memory(engine, buf.as_slice(), opts)
}

/// Copies a byte slice into an owned buffer.
fn copy_bytes(src: &[u8]) -> (r: Vec<u8>)
    ensures
        r@ == src@,
{
    let mut out: Vec<u8> = Vec::new();
    let mut i: usize = 0;
    while i < src.len()
        invariant
            i <= src@.len(),
            out@.len() == i,
            forall|j: int| 0 <= j < i ==> out@[j] == src@[j],
        decreases src@.len() - i,
    {
        out.push(src[i]);
        i = i + 1;
    }
    proof {
        assert(out@ =~= src@);
    }
    out
}

/// Reads a stream to its end, appending to the buffer; false on the first
/// failed read, with whatever was gathered so far kept in the buffer.
fn read_to_end<S: StreamInterface>(stream: &mut S, buf: &mut Vec<u8>) -> (ok: bool)
    ensures
        ok ==> final(buf)@ == old(buf)@ + old(stream).spec_data(),
{
    let ghost g0 = stream.spec_data();
    let ghost b0 = buf@;
    proof {
        assert(b0 + g0.take(0) =~= b0);
    }
    loop
        invariant
            b0 == old(buf)@,
            g0 == old(stream).spec_data(),
            buf@ + stream.spec_data() == b0 + g0,
        decreases stream.spec_data().len(),
    {
        let ghost before = stream.spec_data();
        match stream.read_upto(4096) {
            Some(mut chunk) => {
                if chunk.len() == 0 {
                    proof {
                        assert(buf@ =~= b0 + g0);
                    }
                    return true;
                }
                let ghost c = chunk@;
                buf.append(&mut chunk);
                proof {
                    assert((buf@) + before.skip(c.len() as int) =~= b0 + g0);
                }
            },
            None => {
                return false;
            },
        }
    }
}


/// The cancellation law: when the registered progress callback answers
/// `Cancel` for the first time on its k-th invocation (counting from
/// zero), and the document itself is loadable, the load fails with the
/// `Cancelled` kind and the callback is consulted exactly k + 1 times —
/// never again after the cancelling answer.
pub proof fn lemma_progress_cancel_stops(data: Seq<u8>, o: LoadOpts, k: int)
    requires
        !load_opts_unsafe_violation(o),
        doc_error(data) == ErrorType::NoError,
        progress_registered(o.progress_cb),
        0 <= k < progress_points(data),
        plan_answer(progress_plan_of(o.progress_cb), k) is Cancel,
        forall|j: int| 0 <= j < k ==> !(plan_answer(progress_plan_of(o.progress_cb), j) is Cancel),
    ensures
        load_opts_outcome(data, o) == ErrorType::Cancelled,
        load_opts_progress_invocations(data, o) == k + 1,
{
    let plan = progress_plan_of(o.progress_cb);
    lemma_cancel_scan_none(plan, 0, k);
    lemma_cancel_scan_found(plan, 0, k, progress_points(data));
}

/// The complement: a plan that never answers `Cancel` within the load's
/// progress points lets the load run to completion, with the callback
/// consulted once per element record and once at the end.
pub proof fn lemma_progress_continue_completes(data: Seq<u8>, o: LoadOpts)
    requires
        !load_opts_unsafe_violation(o),
        doc_error(data) == ErrorType::NoError,
        forall|j: int|
            0 <= j < progress_points(data) ==> !(plan_answer(
                progress_plan_of(o.progress_cb),
                j,
            ) is Cancel),
    ensures
        load_opts_outcome(data, o) == ErrorType::NoError,
        progress_registered(o.progress_cb) ==> load_opts_progress_invocations(data, o)
            == progress_points(data),
{
    lemma_cancel_scan_none(progress_plan_of(o.progress_cb), 0, progress_points(data));
}

} // verus!
