//! Owning handles to reference-counted engine objects.
//!
//! A `SceneRoot` owns one share of a loaded document: duplicating it
//! retains, releasing it releases, and the engine frees the object when the
//! last share is gone. The handle is only constructed by a successful load,
//! so a live handle always points at a live object; releasing consumes the
//! handle, so Rust's move rules make a double release unwritable.

use crate::engine::{Engine, EngineModel, SceneData, object_live, spec_release, spec_retain};
use crate::error::{Fatal, Panic, fatal_from_panic};
use vstd::prelude::*;

verus! {

/// An owning handle to one engine-side document object.
pub struct SceneRoot {
    id: usize,
}

impl SceneRoot {
    /// Which object the handle owns a share of, for contracts.
    pub closed spec fn spec_id(&self) -> int {
        self.id as int
    }

    /// Wraps a freshly allocated object id; internal, called only on a
    /// verified non-null result whose error record came back clean.
    pub(crate) fn wrap(id: usize) -> (r: SceneRoot)
        ensures
            r.spec_id() == id,
    {
        SceneRoot { id }
    }
}

/// The handle points at a live object of this engine: every handle the
/// library hands out satisfies this until it is released.
pub open spec fn valid_root(m: EngineModel, root: SceneRoot) -> bool {
    object_live(m, root.spec_id())
}

/// Duplicates a handle: one native retain call, and a new handle sharing
/// ownership of the same object.
pub fn duplicate(engine: &mut Engine, root: &SceneRoot) -> (r: SceneRoot)
    requires
        valid_root(old(engine)@, *root),
        old(engine)@.objects[root.spec_id()].refcount < u64::MAX,
        old(engine)@.retain_calls < u64::MAX,
    ensures
        final(engine)@ == spec_retain(old(engine)@, root.spec_id()),
        r.spec_id() == root.spec_id(),
        valid_root(final(engine)@, r),
        valid_root(final(engine)@, *root),
{
    let id = root.id;
    engine.retain_scene(id);
    SceneRoot { id }
}

/// Releases a handle: one native release call. Consuming the handle is what
/// rules out a second release of the same share.
pub fn release(engine: &mut Engine, root: SceneRoot)
    requires
        valid_root(old(engine)@, root),
        old(engine)@.release_calls < u64::MAX,
        old(engine)@.free_calls < u64::MAX,
    ensures
        final(engine)@ == spec_release(old(engine)@, root.spec_id()),
{
    engine.free_scene(root.id);
}

/// Borrows the document behind a handle; valid exactly as long as the
/// borrow of the engine lasts.
pub fn borrow_scene<'a>(engine: &'a Engine, root: &SceneRoot) -> (r: &'a SceneData)
    requires
        valid_root(engine@, *root),
    ensures
        r.element_tags@ == engine@.objects[root.spec_id()].tags,
{
    &engine.objects[root.id].scene
}

/// How many top-level elements the document behind a handle has.
pub fn element_count(engine: &Engine, root: &SceneRoot) -> (r: usize)
    requires
        valid_root(engine@, *root),
    ensures
        r == engine@.objects[root.spec_id()].tags.len(),
{
    borrow_scene(engine, root).num_elements()
}

/// Reads one element tag through the panic channel and checks the panic
/// record afterwards: an out-of-range index comes back as the fatal,
/// non-recoverable failure, carrying the decoded panic message.
pub fn get_element_tag(engine: &Engine, root: &SceneRoot, index: usize) -> (r: Result<u32, Fatal>)
    requires
        valid_root(engine@, *root),
    ensures
        index < engine@.objects[root.spec_id()].tags.len() ==> (r matches Ok(tag) && tag
            == engine@.objects[root.spec_id()].tags[index as int]),
        index >= engine@.objects[root.spec_id()].tags.len() ==> (r matches Err(f) && f.message@
            == "get_element_tag()"@ + " "@ + "Element index out of range"@),
{
    let mut panic = Panic::default();
    let tag = engine.catch_element_tag(&mut panic, root.id, index);
    if panic.did_panic {
        return Err(fatal_from_panic("get_element_tag()", &panic));
    }
    Ok(tag)
}

/// Copies all element tags into a caller-supplied buffer through the panic
/// channel and checks the panic record afterwards: an undersized buffer
/// comes back as the fatal, non-recoverable failure, carrying the decoded
/// panic message, with the buffer left untouched.
pub fn copy_element_tags(engine: &Engine, root: &SceneRoot, dst: &mut Vec<u32>) -> (r: Result<
    usize,
    Fatal,
>)
    requires
        valid_root(engine@, *root),
    ensures
        old(dst)@.len() >= engine@.objects[root.spec_id()].tags.len() ==> {
            &&& r matches Ok(count) && count == engine@.objects[root.spec_id()].tags.len()
            &&& final(dst)@ == engine@.objects[root.spec_id()].tags + old(dst)@.skip(
                engine@.objects[root.spec_id()].tags.len() as int,
            )
        },
        old(dst)@.len() < engine@.objects[root.spec_id()].tags.len() ==> {
            &&& r matches Err(f) && f.message@ == "copy_element_tags()"@ + " "@
                + "Output buffer too small"@
            &&& final(dst)@ == old(dst)@
        },
{
    let mut panic = Panic::default();
    let count = engine.catch_copy_element_tags(&mut panic, root.id, dst);
    if panic.did_panic {
        return Err(fatal_from_panic("copy_element_tags()", &panic));
    }
    Ok(count)
}


/// A fatal failure raised from a panic record carries the decoded panic
/// message in full: the failure text ends with the message.
pub proof fn lemma_fatal_text_contains_message(operation: Seq<char>, message: Seq<char>)
    ensures
        (operation + " "@ + message).len() >= message.len(),
        (operation + " "@ + message).subrange(
            (operation + " "@).len() as int,
            (operation + " "@ + message).len() as int,
        ) =~= message,
{
}

/// The message the engine files for an undersized output buffer is never
/// empty.
pub proof fn lemma_undersized_buffer_message_nonempty()
    ensures
        "Output buffer too small"@.len() > 0,
{
    reveal_strlit("Output buffer too small");
}

} // verus!
