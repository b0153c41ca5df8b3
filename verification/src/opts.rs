//! The configuration surface and its translation into flat ABI records.
//!
//! Each options value is a tree of plain fields, option nodes, callback
//! registrations and raw escapes. `from_rust` resolves every field
//! independently into one fixed-layout record, moving owned buffers into the
//! arena it is handed; the record and the arena must both stay in scope
//! across the single engine call they were built for.

use crate::abi::{
    AbiFn, AbiPtr, RawAllocator, RawBlob, RawCloseMemoryCb, RawList, RawOpenFileCb,
    RawPropOverrideDesc, RawString, RawThreadPool, Unsafe,
};
use crate::arena::{Arena, ArenaBuf, arena_extends};
use crate::callbacks::{CloseMemoryCb, OpenFileCb, ProgressCb, RawProgressCb};
use crate::kinds::{
    BakeStepHandling, SubdivisionBoundary,
    FileFormat, GeometryTransformHandling, IndexErrorHandling, InheritModeHandling, MirrorAxis,
    PivotHandling, SpaceConversion, UnicodeErrorHandling,
};
use crate::records::CoordinateAxes;
use crate::options::{
    BlobOpt, ListOpt, StringOpt, blob_translated, lemma_blob_translated_stable,
    lemma_real_list_translated_stable, lemma_string_translated_stable,
    lemma_u32_list_translated_stable, real_list_translated, string_translated,
    transform_override_list_translated, u32_list_translated,
};
use crate::reals::{Real, Transform, TransformOverride, Vec4};
use vstd::prelude::*;

verus! {

/// Which allocator the engine uses: the C library's, this crate's global
/// one, the system one, or an already-ABI-shaped descriptor.
pub enum Allocator {
    Libc,
    Global,
    System,
    Raw(Unsafe<RawAllocator>),
}

impl Default for Allocator {
    fn default() -> (r: Self)
        ensures
            r is Global,
    {
        Allocator::Global
    }
}

impl Allocator {
    /// Translates the selection into the descriptor the engine calls back
    /// into: the C library's allocator is all-null, the other built-in
    /// selections name their trampolines.
    pub fn from_rust(self) -> (r: RawAllocator)
        ensures
            self is Libc ==> r == (RawAllocator {
                alloc_fn: None,
                realloc_fn: None,
                free_fn: None,
                free_allocator_fn: None,
                user: AbiPtr::Null,
            }),
            self is Global ==> r == (RawAllocator {
                alloc_fn: Some(AbiFn::GlobalAlloc),
                realloc_fn: Some(AbiFn::GlobalRealloc),
                free_fn: Some(AbiFn::GlobalFree),
                free_allocator_fn: None,
                user: AbiPtr::Null,
            }),
            self is System ==> r == (RawAllocator {
                alloc_fn: Some(AbiFn::SystemAlloc),
                realloc_fn: Some(AbiFn::SystemRealloc),
                free_fn: Some(AbiFn::SystemFree),
                free_allocator_fn: None,
                user: AbiPtr::Null,
            }),
            self matches Allocator::Raw(raw) ==> r == raw.inner(),
    {
        match self {
            Allocator::Libc => RawAllocator::default(),
            Allocator::Global => RawAllocator {
                alloc_fn: Some(AbiFn::GlobalAlloc),
                realloc_fn: Some(AbiFn::GlobalRealloc),
                free_fn: Some(AbiFn::GlobalFree),
                free_allocator_fn: None,
                user: AbiPtr::Null,
            },
            Allocator::System => RawAllocator {
                alloc_fn: Some(AbiFn::SystemAlloc),
                realloc_fn: Some(AbiFn::SystemRealloc),
                free_fn: Some(AbiFn::SystemFree),
                free_allocator_fn: None,
                user: AbiPtr::Null,
            },
            Allocator::Raw(raw) => raw.take(),
        }
    }
}

/// Which thread pool the engine drives: none, or an already-ABI-shaped
/// descriptor. The wrapper only supplies the descriptor; it never schedules
/// tasks itself.
pub enum ThreadPool {
    Unset,
    Raw(Unsafe<RawThreadPool>),
}

impl Default for ThreadPool {
    fn default() -> (r: Self)
        ensures
            r is Unset,
    {
        ThreadPool::Unset
    }
}

impl ThreadPool {
    /// Translates the selection into the descriptor handed to the engine.
    pub fn from_rust(self) -> (r: RawThreadPool)
        ensures
            self is Unset ==> r == (RawThreadPool {
                init_fn: None,
                run_fn: None,
                wait_fn: None,
                free_fn: None,
                user: AbiPtr::Null,
            }),
            self matches ThreadPool::Raw(raw) ==> r == raw.inner(),
    {
        match self {
            ThreadPool::Unset => RawThreadPool::default(),
            ThreadPool::Raw(raw) => raw.take(),
        }
    }
}

/// Allocator selection plus its limits.
pub struct AllocatorOpts {
    pub allocator: Allocator,
    pub memory_limit: usize,
    pub allocation_limit: usize,
    pub huge_threshold: usize,
    pub max_chunk_size: usize,
}

impl Default for AllocatorOpts {
    fn default() -> (r: Self)
        ensures
            r.allocator is Global,
            r.memory_limit == 0,
            r.allocation_limit == 0,
            r.huge_threshold == 0,
            r.max_chunk_size == 0,
    {
        AllocatorOpts {
            allocator: Allocator::Global,
            memory_limit: 0,
            allocation_limit: 0,
            huge_threshold: 0,
            max_chunk_size: 0,
        }
    }
}

/// The flat form of `AllocatorOpts`.
#[derive(Clone, Copy, PartialEq, Eq, Structural, Debug)]
pub struct RawAllocatorOpts {
    pub allocator: RawAllocator,
    pub memory_limit: usize,
    pub allocation_limit: usize,
    pub huge_threshold: usize,
    pub max_chunk_size: usize,
}

impl Default for RawAllocatorOpts {
    fn default() -> (r: Self)
        ensures
            r.allocator.alloc_fn is None,
            r.allocator.realloc_fn is None,
            r.allocator.free_fn is None,
            r.allocator.free_allocator_fn is None,
            r.allocator.user == AbiPtr::Null,
            r.memory_limit == 0,
            r.allocation_limit == 0,
            r.huge_threshold == 0,
            r.max_chunk_size == 0,
    {
        RawAllocatorOpts {
            allocator: RawAllocator::default(),
            memory_limit: 0,
            allocation_limit: 0,
            huge_threshold: 0,
            max_chunk_size: 0,
        }
    }
}

/// How `AllocatorOpts` translate: the selection resolves to its descriptor
/// and every limit is copied verbatim.
pub open spec fn allocator_opts_translated(src: AllocatorOpts, r: RawAllocatorOpts) -> bool {
    &&& match src.allocator {
        Allocator::Libc => r.allocator == (RawAllocator {
            alloc_fn: None,
            realloc_fn: None,
            free_fn: None,
            free_allocator_fn: None,
            user: AbiPtr::Null,
        }),
        Allocator::Global => r.allocator == (RawAllocator {
            alloc_fn: Some(AbiFn::GlobalAlloc),
            realloc_fn: Some(AbiFn::GlobalRealloc),
            free_fn: Some(AbiFn::GlobalFree),
            free_allocator_fn: None,
            user: AbiPtr::Null,
        }),
        Allocator::System => r.allocator == (RawAllocator {
            alloc_fn: Some(AbiFn::SystemAlloc),
            realloc_fn: Some(AbiFn::SystemRealloc),
            free_fn: Some(AbiFn::SystemFree),
            free_allocator_fn: None,
            user: AbiPtr::Null,
        }),
        Allocator::Raw(raw) => r.allocator == raw.inner(),
    }
    &&& r.memory_limit == src.memory_limit
    &&& r.allocation_limit == src.allocation_limit
    &&& r.huge_threshold == src.huge_threshold
    &&& r.max_chunk_size == src.max_chunk_size
}

impl AllocatorOpts {
    /// Translates the allocator options into their flat form.
    pub fn from_rust(self) -> (r: RawAllocatorOpts)
        ensures
            allocator_opts_translated(self, r),
    {
        RawAllocatorOpts {
            allocator: self.allocator.from_rust(),
            memory_limit: self.memory_limit,
            allocation_limit: self.allocation_limit,
            huge_threshold: self.huge_threshold,
            max_chunk_size: self.max_chunk_size,
        }
    }
}

/// Thread-pool selection plus its limits.
pub struct ThreadOpts {
    pub pool: ThreadPool,
    pub num_tasks: usize,
    pub memory_limit: usize,
}

impl Default for ThreadOpts {
    fn default() -> (r: Self)
        ensures
            r.pool is Unset,
            r.num_tasks == 0,
            r.memory_limit == 0,
    {
        ThreadOpts { pool: ThreadPool::Unset, num_tasks: 0, memory_limit: 0 }
    }
}

/// The flat form of `ThreadOpts`.
#[derive(Clone, Copy, PartialEq, Eq, Structural, Debug)]
pub struct RawThreadOpts {
    pub pool: RawThreadPool,
    pub num_tasks: usize,
    pub memory_limit: usize,
}

impl Default for RawThreadOpts {
    fn default() -> (r: Self)
        ensures
            r.pool.init_fn is None,
            r.pool.run_fn is None,
            r.pool.wait_fn is None,
            r.pool.free_fn is None,
            r.pool.user == AbiPtr::Null,
            r.num_tasks == 0,
            r.memory_limit == 0,
    {
        RawThreadOpts { pool: RawThreadPool::default(), num_tasks: 0, memory_limit: 0 }
    }
}

/// How `ThreadOpts` translate.
pub open spec fn thread_opts_translated(src: ThreadOpts, r: RawThreadOpts) -> bool {
    &&& match src.pool {
        ThreadPool::Unset => r.pool == (RawThreadPool {
            init_fn: None,
            run_fn: None,
            wait_fn: None,
            free_fn: None,
            user: AbiPtr::Null,
        }),
        ThreadPool::Raw(raw) => r.pool == raw.inner(),
    }
    &&& r.num_tasks == src.num_tasks
    &&& r.memory_limit == src.memory_limit
}

impl ThreadOpts {
    /// Translates the thread options into their flat form.
    pub fn from_rust(self) -> (r: RawThreadOpts)
        ensures
            thread_opts_translated(self, r),
    {
        RawThreadOpts {
            pool: self.pool.from_rust(),
            num_tasks: self.num_tasks,
            memory_limit: self.memory_limit,
        }
    }
}

/// Options for presenting an in-memory buffer to the engine as a stream.
pub struct OpenMemoryOpts {
    pub allocator: AllocatorOpts,
    pub no_copy: Unsafe<bool>,
    pub close_cb: CloseMemoryCb,
}

impl Default for OpenMemoryOpts {
    fn default() -> (r: Self)
        ensures
            r.allocator.allocator is Global,
            r.allocator.memory_limit == 0,
            r.allocator.allocation_limit == 0,
            r.allocator.huge_threshold == 0,
            r.allocator.max_chunk_size == 0,
            r.no_copy.inner() == false,
            r.close_cb is Unset,
    {
        OpenMemoryOpts {
            allocator: AllocatorOpts::default(),
            no_copy: Unsafe::new(false),
            close_cb: CloseMemoryCb::Unset,
        }
    }
}

/// The flat form of `OpenMemoryOpts`. The zero guards delimit the record so
/// the engine can reject an uninitialized one.
pub struct RawOpenMemoryOpts {
    pub _begin_zero: u32,
    pub allocator: RawAllocatorOpts,
    pub no_copy: bool,
    pub close_cb: RawCloseMemoryCb,
    pub _end_zero: u32,
}

/// How `OpenMemoryOpts` translate.
pub open spec fn open_memory_opts_translated(src: OpenMemoryOpts, r: RawOpenMemoryOpts) -> bool {
    &&& r._begin_zero == 0
    &&& allocator_opts_translated(src.allocator, r.allocator)
    &&& r.no_copy == src.no_copy.inner()
    &&& match src.close_cb {
        CloseMemoryCb::Unset => r.close_cb.fn_ is None,
        CloseMemoryCb::Raw(raw) => r.close_cb == raw.inner(),
    }
    &&& r._end_zero == 0
}

impl OpenMemoryOpts {
    /// Translates the open-memory options into their flat form.
    pub fn from_rust(self) -> (r: RawOpenMemoryOpts)
        ensures
            open_memory_opts_translated(self, r),
    {
        RawOpenMemoryOpts {
            _begin_zero: 0,
            allocator: self.allocator.from_rust(),
            no_copy: self.no_copy.take(),
            close_cb: self.close_cb.from_rust(),
            _end_zero: 0,
        }
    }
}

/// One property override a caller asks animation evaluation to apply.
pub struct PropOverrideDesc {
    pub element_id: u32,
    pub prop_name: StringOpt,
    pub value: Vec4,
    pub value_str: StringOpt,
    pub value_int: i64,
}

impl Default for PropOverrideDesc {
    fn default() -> (r: Self)
        ensures
            r.element_id == 0,
            r.prop_name is Unset,
            r.value == Vec4::spec_zero(),
            r.value_str is Unset,
            r.value_int == 0,
    {
        PropOverrideDesc {
            element_id: 0,
            prop_name: StringOpt::Unset,
            value: Vec4::default(),
            value_str: StringOpt::Unset,
            value_int: 0,
        }
    }
}

/// How one property override translates: plain fields verbatim, both string
/// fields per the option-node rules.
pub open spec fn prop_override_translated(
    src: PropOverrideDesc,
    r: RawPropOverrideDesc,
    arena: Arena,
) -> bool {
    &&& r.element_id == src.element_id
    &&& string_translated(src.prop_name, r.prop_name, arena)
    &&& r.value == src.value
    &&& string_translated(src.value_str, r.value_str, arena)
    &&& r.value_int == src.value_int
}

/// A translated property override stays translated while the arena only
/// grows.
pub proof fn lemma_prop_override_translated_stable(
    src: PropOverrideDesc,
    r: RawPropOverrideDesc,
    pre: Arena,
    post: Arena,
)
    requires
        prop_override_translated(src, r, pre),
        arena_extends(post, pre),
    ensures
        prop_override_translated(src, r, post),
{
    lemma_string_translated_stable(src.prop_name, r.prop_name, pre, post);
    lemma_string_translated_stable(src.value_str, r.value_str, pre, post);
}

impl PropOverrideDesc {
    /// Translates one property override, moving owned strings into the
    /// arena.
    pub fn from_rust(self, arena: &mut Arena) -> (r: RawPropOverrideDesc)
        ensures
            arena_extends(*final(arena), *old(arena)),
            prop_override_translated(self, r, *final(arena)),
    {
        let element_id = self.element_id;
        let value = self.value;
        let value_int = self.value_int;
        let prop_name = self.prop_name.from_rust(arena);
        let ghost mid = *arena;
        let value_str = self.value_str.from_rust(arena);
        proof {
            lemma_string_translated_stable(self.prop_name, prop_name, mid, *arena);
        }
        RawPropOverrideDesc { element_id, prop_name, value, value_str, value_int }
    }
}


/// What a correctly translated list of property overrides looks like: every
/// element is translated, in order, into one arena buffer. Borrowing does
/// not apply here — a list of structs is translated element by element
/// because each element holds option nodes of its own.
pub open spec fn prop_override_list_translated(
    items: Seq<PropOverrideDesc>,
    r: RawList<RawPropOverrideDesc>,
    arena: Arena,
) -> bool {
    if items.len() == 0 {
        r.data == AbiPtr::Null && r.count == 0
    } else {
        &&& r.count == items.len()
        &&& exists|i: usize|
            {
                &&& i < arena@.len()
                &&& #[trigger] arena@[i as int] matches ArenaBuf::PropOverrides(raws)
                    && raws@.len() == items.len() && (forall|j: int|
                    0 <= j < items.len() ==> #[trigger] prop_override_translated(
                        items[j],
                        raws@[j],
                        arena,
                    ))
                &&& r.data == (AbiPtr::Arena { buf: i })
            }
    }
}

/// A translated property-override list stays translated while the arena
/// only grows.
pub proof fn lemma_prop_override_list_translated_stable(
    items: Seq<PropOverrideDesc>,
    r: RawList<RawPropOverrideDesc>,
    pre: Arena,
    post: Arena,
)
    requires
        prop_override_list_translated(items, r, pre),
        arena_extends(post, pre),
    ensures
        prop_override_list_translated(items, r, post),
{
    if items.len() > 0 {
        let i = choose|i: usize|
            {
                &&& i < pre@.len()
                &&& #[trigger] pre@[i as int] matches ArenaBuf::PropOverrides(raws)
                    && raws@.len() == items.len() && (forall|j: int|
                    0 <= j < items.len() ==> #[trigger] prop_override_translated(
                        items[j],
                        raws@[j],
                        pre,
                    ))
                &&& r.data == (AbiPtr::Arena { buf: i })
            };
        assert(post@[i as int] == pre@[i as int]);
        if let ArenaBuf::PropOverrides(raws) = pre@[i as int] {
            assert forall|j: int| 0 <= j < items.len() implies #[trigger] prop_override_translated(
                items[j],
                raws@[j],
                post,
            ) by {
                lemma_prop_override_translated_stable(items[j], raws@[j], pre, post);
            }
            assert({
                &&& i < post@.len()
                &&& post@[i as int] matches ArenaBuf::PropOverrides(raws) && raws@.len()
                    == items.len() && (forall|j: int|
                    0 <= j < items.len() ==> #[trigger] prop_override_translated(
                        items[j],
                        raws@[j],
                        post,
                    ))
                &&& r.data == (AbiPtr::Arena { buf: i })
            });
        }
    }
}

/// Translates a vector of property overrides element by element, in order,
/// and stores the translated records as one arena buffer.
fn translate_prop_overrides(items: Vec<PropOverrideDesc>, arena: &mut Arena) -> (r: RawList<
    RawPropOverrideDesc,
>)
    ensures
        arena_extends(*final(arena), *old(arena)),
        prop_override_list_translated(items@, r, *final(arena)),
{
    let ghost orig = items@;
    let ghost arena0 = *arena;
    let mut src = items;
    let mut raws: Vec<RawPropOverrideDesc> = Vec::new();
    proof {
        assert(orig.skip(0) =~= orig);
    }
    while src.len() > 0
        invariant
            raws@.len() + src@.len() == orig.len(),
            src@ == orig.skip(raws@.len() as int),
            arena_extends(*arena, arena0),
            forall|j: int|
                0 <= j < raws@.len() ==> #[trigger] prop_override_translated(
                    orig[j],
                    raws@[j],
                    *arena,
                ),
        decreases src@.len(),
    {
        let ghost k = raws@.len() as int;
        let item = src.remove(0);
        proof {
            assert(item == orig[k]);
            assert(src@ =~= orig.skip(k + 1));
        }
        let ghost pre = *arena;
        let raw = item.from_rust(arena);
        proof {
            assert forall|j: int|
                0 <= j < raws@.len() implies #[trigger] prop_override_translated(
                orig[j],
                raws@[j],
                *arena,
            ) by {
                lemma_prop_override_translated_stable(orig[j], raws@[j], pre, *arena);
            }
            crate::arena::lemma_arena_extends_trans(arena0, pre, *arena);
        }
        raws.push(raw);
    }
    let count = raws.len();
    if count == 0 {
        RawList::null()
    } else {
        let n = arena.len();
        let ghost pre2 = *arena;
        let ghost raws_view = raws@;
        let r = arena.push_prop_overrides(raws);
        proof {
            assert(arena@[n as int] == ArenaBuf::PropOverrides(raws));
            assert forall|j: int|
                0 <= j < orig.len() implies #[trigger] prop_override_translated(
                orig[j],
                raws_view[j],
                *arena,
            ) by {
                lemma_prop_override_translated_stable(orig[j], raws_view[j], pre2, *arena);
            }
            crate::arena::lemma_arena_extends_trans(arena0, pre2, *arena);
            assert({
                &&& n < arena@.len()
                &&& arena@[n as int] matches ArenaBuf::PropOverrides(raws) && raws@.len()
                    == orig.len() && (forall|j: int|
                    0 <= j < orig.len() ==> #[trigger] prop_override_translated(
                        orig[j],
                        raws@[j],
                        *arena,
                    ))
                &&& r.data == (AbiPtr::Arena { buf: n })
            });
        }
        r
    }
}

impl ListOpt<PropOverrideDesc> {
    /// Translates this field: every variant that carries elements has them
    /// translated, in order, into the arena.
    pub fn from_rust(self, arena: &mut Arena) -> (r: RawList<RawPropOverrideDesc>)
        ensures
            arena_extends(*final(arena), *old(arena)),
            self is Unset ==> r.data == AbiPtr::Null && r.count == 0 && *final(arena) == *old(
                arena,
            ),
            self matches ListOpt::Ref(c) ==> prop_override_list_translated(
                c.items@,
                r,
                *final(arena),
            ),
            self matches ListOpt::Mut(c) ==> prop_override_list_translated(
                c.items@,
                r,
                *final(arena),
            ),
            self matches ListOpt::Owned(v) ==> prop_override_list_translated(
                v@,
                r,
                *final(arena),
            ),
    {
        match self {
            ListOpt::Unset => RawList::null(),
            ListOpt::Ref(c) => translate_prop_overrides(c.items, arena),
            ListOpt::Mut(c) => translate_prop_overrides(c.items, arena),
            ListOpt::Owned(v) => translate_prop_overrides(v, arena),
        }
    }
}

/// The full configuration of one load call.
pub struct LoadOpts {
    pub temp_allocator: AllocatorOpts,
    pub result_allocator: AllocatorOpts,
    pub thread_opts: ThreadOpts,
    pub ignore_geometry: bool,
    pub ignore_animation: bool,
    pub ignore_embedded: bool,
    pub ignore_all_content: bool,
    pub evaluate_skinning: bool,
    pub evaluate_caches: bool,
    pub load_external_files: bool,
    pub ignore_missing_external_files: bool,
    pub skip_skin_vertices: bool,
    pub skip_mesh_parts: bool,
    pub clean_skin_weights: bool,
    pub use_blender_pbr_material: bool,
    pub disable_quirks: bool,
    pub strict: bool,
    pub force_single_thread_ascii_parsing: bool,
    pub allow_unsafe: Unsafe<bool>,
    pub index_error_handling: IndexErrorHandling,
    pub connect_broken_elements: bool,
    pub allow_nodes_out_of_root: bool,
    pub allow_missing_vertex_position: bool,
    pub allow_empty_faces: bool,
    pub generate_missing_normals: bool,
    pub open_main_file_with_default: bool,
    pub path_separator: u8,
    pub node_depth_limit: u32,
    pub file_size_estimate: u64,
    pub read_buffer_size: usize,
    pub filename: StringOpt,
    pub raw_filename: BlobOpt,
    pub progress_cb: ProgressCb,
    pub progress_interval_hint: u64,
    pub open_file_cb: OpenFileCb,
    pub geometry_transform_handling: GeometryTransformHandling,
    pub inherit_mode_handling: InheritModeHandling,
    pub pivot_handling: PivotHandling,
    pub space_conversion: SpaceConversion,
    pub handedness_conversion_axis: MirrorAxis,
    pub handedness_conversion_retain_winding: bool,
    pub reverse_winding: bool,
    pub target_axes: CoordinateAxes,
    pub target_unit_meters: Real,
    pub target_camera_axes: CoordinateAxes,
    pub target_light_axes: CoordinateAxes,
    pub geometry_transform_helper_name: StringOpt,
    pub scale_helper_name: StringOpt,
    pub normalize_normals: bool,
    pub normalize_tangents: bool,
    pub use_root_transform: bool,
    pub root_transform: Transform,
    pub key_clamp_threshold: Real,
    pub unicode_error_handling: UnicodeErrorHandling,
    pub retain_vertex_attrib_w: bool,
    pub retain_dom: bool,
    pub file_format: FileFormat,
    pub file_format_lookahead: usize,
    pub no_format_from_content: bool,
    pub no_format_from_extension: bool,
    pub obj_search_mtl_by_filename: bool,
    pub obj_merge_objects: bool,
    pub obj_merge_groups: bool,
    pub obj_split_groups: bool,
    pub obj_mtl_path: StringOpt,
    pub obj_mtl_data: BlobOpt,
    pub obj_unit_meters: Real,
    pub obj_axes: CoordinateAxes,
}

impl Default for LoadOpts {
    fn default() -> (r: Self)
        ensures
            r.index_error_handling == IndexErrorHandling::Clamp,
            r.unicode_error_handling == UnicodeErrorHandling::ReplacementCharacter,
            r.geometry_transform_handling == GeometryTransformHandling::Preserve,
            r.inherit_mode_handling == InheritModeHandling::Preserve,
            r.pivot_handling == PivotHandling::Retain,
            r.space_conversion == SpaceConversion::TransformRoot,
            r.handedness_conversion_axis == MirrorAxis::NoMirror,
            r.file_format == FileFormat::Unknown,
            r.filename is Unset,
            r.raw_filename is Unset,
            r.progress_cb is Unset,
            r.open_file_cb is Unset,
            r.allow_unsafe.inner() == false,
            r.obj_mtl_path is Unset,
            r.obj_mtl_data is Unset,
            r.temp_allocator.allocator is Global,
            r.result_allocator.allocator is Global,
            r.thread_opts.pool is Unset,
            r.ignore_geometry == false,
            r.ignore_animation == false,
            r.ignore_embedded == false,
            r.ignore_all_content == false,
            r.evaluate_skinning == false,
            r.evaluate_caches == false,
            r.load_external_files == false,
            r.ignore_missing_external_files == false,
            r.skip_skin_vertices == false,
            r.skip_mesh_parts == false,
            r.clean_skin_weights == false,
            r.use_blender_pbr_material == false,
            r.disable_quirks == false,
            r.strict == false,
            r.force_single_thread_ascii_parsing == false,
            r.connect_broken_elements == false,
            r.allow_nodes_out_of_root == false,
            r.allow_missing_vertex_position == false,
            r.allow_empty_faces == false,
            r.generate_missing_normals == false,
            r.open_main_file_with_default == false,
            r.path_separator == 0,
            r.node_depth_limit == 0,
            r.file_size_estimate == 0,
            r.read_buffer_size == 0,
            r.progress_interval_hint == 0,
            r.handedness_conversion_retain_winding == false,
            r.reverse_winding == false,
            r.target_unit_meters.bits == 0,
            r.normalize_normals == false,
            r.normalize_tangents == false,
            r.use_root_transform == false,
            r.key_clamp_threshold.bits == 0,
            r.retain_vertex_attrib_w == false,
            r.retain_dom == false,
            r.file_format_lookahead == 0,
            r.no_format_from_content == false,
            r.no_format_from_extension == false,
            r.obj_search_mtl_by_filename == false,
            r.obj_merge_objects == false,
            r.obj_merge_groups == false,
            r.obj_split_groups == false,
            r.obj_unit_meters.bits == 0,
    {
        LoadOpts {
            temp_allocator: AllocatorOpts::default(),
            result_allocator: AllocatorOpts::default(),
            thread_opts: ThreadOpts::default(),
            ignore_geometry: false,
            ignore_animation: false,
            ignore_embedded: false,
            ignore_all_content: false,
            evaluate_skinning: false,
            evaluate_caches: false,
            load_external_files: false,
            ignore_missing_external_files: false,
            skip_skin_vertices: false,
            skip_mesh_parts: false,
            clean_skin_weights: false,
            use_blender_pbr_material: false,
            disable_quirks: false,
            strict: false,
            force_single_thread_ascii_parsing: false,
            allow_unsafe: Unsafe::new(false),
            index_error_handling: IndexErrorHandling::default(),
            connect_broken_elements: false,
            allow_nodes_out_of_root: false,
            allow_missing_vertex_position: false,
            allow_empty_faces: false,
            generate_missing_normals: false,
            open_main_file_with_default: false,
            path_separator: 0,
            node_depth_limit: 0,
            file_size_estimate: 0,
            read_buffer_size: 0,
            filename: StringOpt::Unset,
            raw_filename: BlobOpt::Unset,
            progress_cb: ProgressCb::Unset,
            progress_interval_hint: 0,
            open_file_cb: OpenFileCb::Unset,
            geometry_transform_handling: GeometryTransformHandling::default(),
            inherit_mode_handling: InheritModeHandling::default(),
            pivot_handling: PivotHandling::default(),
            space_conversion: SpaceConversion::default(),
            handedness_conversion_axis: MirrorAxis::default(),
            handedness_conversion_retain_winding: false,
            reverse_winding: false,
            target_axes: CoordinateAxes::default(),
            target_unit_meters: Real { bits: 0 },
            target_camera_axes: CoordinateAxes::default(),
            target_light_axes: CoordinateAxes::default(),
            geometry_transform_helper_name: StringOpt::Unset,
            scale_helper_name: StringOpt::Unset,
            normalize_normals: false,
            normalize_tangents: false,
            use_root_transform: false,
            root_transform: Transform::default(),
            key_clamp_threshold: Real { bits: 0 },
            unicode_error_handling: UnicodeErrorHandling::default(),
            retain_vertex_attrib_w: false,
            retain_dom: false,
            file_format: FileFormat::default(),
            file_format_lookahead: 0,
            no_format_from_content: false,
            no_format_from_extension: false,
            obj_search_mtl_by_filename: false,
            obj_merge_objects: false,
            obj_merge_groups: false,
            obj_split_groups: false,
            obj_mtl_path: StringOpt::Unset,
            obj_mtl_data: BlobOpt::Unset,
            obj_unit_meters: Real { bits: 0 },
            obj_axes: CoordinateAxes::default(),
        }
    }
}

/// The flat form of `LoadOpts`: the single record the engine entry point
/// takes. The zero guards delimit the record so the engine can reject an
/// uninitialized one.
pub struct RawLoadOpts {
    pub _begin_zero: u32,
    pub temp_allocator: RawAllocatorOpts,
    pub result_allocator: RawAllocatorOpts,
    pub thread_opts: RawThreadOpts,
    pub ignore_geometry: bool,
    pub ignore_animation: bool,
    pub ignore_embedded: bool,
    pub ignore_all_content: bool,
    pub evaluate_skinning: bool,
    pub evaluate_caches: bool,
    pub load_external_files: bool,
    pub ignore_missing_external_files: bool,
    pub skip_skin_vertices: bool,
    pub skip_mesh_parts: bool,
    pub clean_skin_weights: bool,
    pub use_blender_pbr_material: bool,
    pub disable_quirks: bool,
    pub strict: bool,
    pub force_single_thread_ascii_parsing: bool,
    pub allow_unsafe: bool,
    pub index_error_handling: IndexErrorHandling,
    pub connect_broken_elements: bool,
    pub allow_nodes_out_of_root: bool,
    pub allow_missing_vertex_position: bool,
    pub allow_empty_faces: bool,
    pub generate_missing_normals: bool,
    pub open_main_file_with_default: bool,
    pub path_separator: u8,
    pub node_depth_limit: u32,
    pub file_size_estimate: u64,
    pub read_buffer_size: usize,
    pub filename: RawString,
    pub raw_filename: RawBlob,
    pub progress_cb: RawProgressCb,
    pub progress_interval_hint: u64,
    pub open_file_cb: RawOpenFileCb,
    pub geometry_transform_handling: GeometryTransformHandling,
    pub inherit_mode_handling: InheritModeHandling,
    pub pivot_handling: PivotHandling,
    pub space_conversion: SpaceConversion,
    pub handedness_conversion_axis: MirrorAxis,
    pub handedness_conversion_retain_winding: bool,
    pub reverse_winding: bool,
    pub target_axes: CoordinateAxes,
    pub target_unit_meters: Real,
    pub target_camera_axes: CoordinateAxes,
    pub target_light_axes: CoordinateAxes,
    pub geometry_transform_helper_name: RawString,
    pub scale_helper_name: RawString,
    pub normalize_normals: bool,
    pub normalize_tangents: bool,
    pub use_root_transform: bool,
    pub root_transform: Transform,
    pub key_clamp_threshold: Real,
    pub unicode_error_handling: UnicodeErrorHandling,
    pub retain_vertex_attrib_w: bool,
    pub retain_dom: bool,
    pub file_format: FileFormat,
    pub file_format_lookahead: usize,
    pub no_format_from_content: bool,
    pub no_format_from_extension: bool,
    pub obj_search_mtl_by_filename: bool,
    pub obj_merge_objects: bool,
    pub obj_merge_groups: bool,
    pub obj_split_groups: bool,
    pub obj_mtl_path: RawString,
    pub obj_mtl_data: RawBlob,
    pub obj_unit_meters: Real,
    pub obj_axes: CoordinateAxes,
    pub _end_zero: u32,
}

/// How a whole load configuration translates: every plain field copied
/// verbatim, every option node per its tag, every callback registered.
pub open spec fn load_opts_translated(src: LoadOpts, r: RawLoadOpts, arena: Arena) -> bool {
    &&& r._begin_zero == 0
    &&& allocator_opts_translated(src.temp_allocator, r.temp_allocator)
    &&& allocator_opts_translated(src.result_allocator, r.result_allocator)
    &&& thread_opts_translated(src.thread_opts, r.thread_opts)
    &&& r.ignore_geometry == src.ignore_geometry
    &&& r.ignore_animation == src.ignore_animation
    &&& r.ignore_embedded == src.ignore_embedded
    &&& r.ignore_all_content == src.ignore_all_content
    &&& r.evaluate_skinning == src.evaluate_skinning
    &&& r.evaluate_caches == src.evaluate_caches
    &&& r.load_external_files == src.load_external_files
    &&& r.ignore_missing_external_files == src.ignore_missing_external_files
    &&& r.skip_skin_vertices == src.skip_skin_vertices
    &&& r.skip_mesh_parts == src.skip_mesh_parts
    &&& r.clean_skin_weights == src.clean_skin_weights
    &&& r.use_blender_pbr_material == src.use_blender_pbr_material
    &&& r.disable_quirks == src.disable_quirks
    &&& r.strict == src.strict
    &&& r.force_single_thread_ascii_parsing == src.force_single_thread_ascii_parsing
    &&& r.allow_unsafe == src.allow_unsafe.inner()
    &&& r.index_error_handling == src.index_error_handling
    &&& r.connect_broken_elements == src.connect_broken_elements
    &&& r.allow_nodes_out_of_root == src.allow_nodes_out_of_root
    &&& r.allow_missing_vertex_position == src.allow_missing_vertex_position
    &&& r.allow_empty_faces == src.allow_empty_faces
    &&& r.generate_missing_normals == src.generate_missing_normals
    &&& r.open_main_file_with_default == src.open_main_file_with_default
    &&& r.path_separator == src.path_separator
    &&& r.node_depth_limit == src.node_depth_limit
    &&& r.file_size_estimate == src.file_size_estimate
    &&& r.read_buffer_size == src.read_buffer_size
    &&& string_translated(src.filename, r.filename, arena)
    &&& blob_translated(src.raw_filename, r.raw_filename, arena)
    &&& match src.progress_cb {
        ProgressCb::Unset => r.progress_cb.fn_ is None && r.progress_cb.plan@.len() == 0,
        ProgressCb::Plan(plan) => r.progress_cb.fn_ == Some(AbiFn::ProgressHook)
            && r.progress_cb.plan@ == plan@,
        ProgressCb::Raw(raw) => r.progress_cb == raw.inner(),
    }
    &&& r.progress_interval_hint == src.progress_interval_hint
    &&& match src.open_file_cb {
        OpenFileCb::Unset => r.open_file_cb.fn_ is None,
        OpenFileCb::Raw(raw) => r.open_file_cb == raw.inner(),
    }
    &&& r.geometry_transform_handling == src.geometry_transform_handling
    &&& r.inherit_mode_handling == src.inherit_mode_handling
    &&& r.pivot_handling == src.pivot_handling
    &&& r.space_conversion == src.space_conversion
    &&& r.handedness_conversion_axis == src.handedness_conversion_axis
    &&& r.handedness_conversion_retain_winding == src.handedness_conversion_retain_winding
    &&& r.reverse_winding == src.reverse_winding
    &&& r.target_axes == src.target_axes
    &&& r.target_unit_meters == src.target_unit_meters
    &&& r.target_camera_axes == src.target_camera_axes
    &&& r.target_light_axes == src.target_light_axes
    &&& string_translated(src.geometry_transform_helper_name, r.geometry_transform_helper_name, arena)
    &&& string_translated(src.scale_helper_name, r.scale_helper_name, arena)
    &&& r.normalize_normals == src.normalize_normals
    &&& r.normalize_tangents == src.normalize_tangents
    &&& r.use_root_transform == src.use_root_transform
    &&& r.root_transform == src.root_transform
    &&& r.key_clamp_threshold == src.key_clamp_threshold
    &&& r.unicode_error_handling == src.unicode_error_handling
    &&& r.retain_vertex_attrib_w == src.retain_vertex_attrib_w
    &&& r.retain_dom == src.retain_dom
    &&& r.file_format == src.file_format
    &&& r.file_format_lookahead == src.file_format_lookahead
    &&& r.no_format_from_content == src.no_format_from_content
    &&& r.no_format_from_extension == src.no_format_from_extension
    &&& r.obj_search_mtl_by_filename == src.obj_search_mtl_by_filename
    &&& r.obj_merge_objects == src.obj_merge_objects
    &&& r.obj_merge_groups == src.obj_merge_groups
    &&& r.obj_split_groups == src.obj_split_groups
    &&& string_translated(src.obj_mtl_path, r.obj_mtl_path, arena)
    &&& blob_translated(src.obj_mtl_data, r.obj_mtl_data, arena)
    &&& r.obj_unit_meters == src.obj_unit_meters
    &&& r.obj_axes == src.obj_axes
    &&& r._end_zero == 0
}

impl LoadOpts {
    /// Translates the whole configuration into the flat record, moving
    /// owned buffers into the arena. The record is valid only while the
    /// arena and any borrowed inputs stay live.
    pub fn from_rust(self, arena: &mut Arena) -> (r: RawLoadOpts)
        ensures
            arena_extends(*final(arena), *old(arena)),
            load_opts_translated(self, r, *final(arena)),
    {
        let filename = self.filename.from_rust(arena);
        let ghost a1 = *arena;
        let raw_filename = self.raw_filename.from_rust(arena);
        proof {
            lemma_string_translated_stable(self.filename, filename, a1, *arena);
        }
        let ghost a2 = *arena;
        let geometry_transform_helper_name = self.geometry_transform_helper_name.from_rust(arena);
        proof {
            lemma_string_translated_stable(self.filename, filename, a2, *arena);
            lemma_blob_translated_stable(self.raw_filename, raw_filename, a2, *arena);
        }
        let ghost a3 = *arena;
        let scale_helper_name = self.scale_helper_name.from_rust(arena);
        proof {
            lemma_string_translated_stable(self.filename, filename, a3, *arena);
            lemma_blob_translated_stable(self.raw_filename, raw_filename, a3, *arena);
            lemma_string_translated_stable(self.geometry_transform_helper_name, geometry_transform_helper_name, a3, *arena);
        }
        let ghost a4 = *arena;
        let obj_mtl_path = self.obj_mtl_path.from_rust(arena);
        proof {
            lemma_string_translated_stable(self.filename, filename, a4, *arena);
            lemma_blob_translated_stable(self.raw_filename, raw_filename, a4, *arena);
            lemma_string_translated_stable(self.geometry_transform_helper_name, geometry_transform_helper_name, a4, *arena);
            lemma_string_translated_stable(self.scale_helper_name, scale_helper_name, a4, *arena);
        }
        let ghost a5 = *arena;
        let obj_mtl_data = self.obj_mtl_data.from_rust(arena);
        proof {
            lemma_string_translated_stable(self.filename, filename, a5, *arena);
            lemma_blob_translated_stable(self.raw_filename, raw_filename, a5, *arena);
            lemma_string_translated_stable(self.geometry_transform_helper_name, geometry_transform_helper_name, a5, *arena);
            lemma_string_translated_stable(self.scale_helper_name, scale_helper_name, a5, *arena);
            lemma_string_translated_stable(self.obj_mtl_path, obj_mtl_path, a5, *arena);
        }
        RawLoadOpts {
            _begin_zero: 0,
            temp_allocator: self.temp_allocator.from_rust(),
            result_allocator: self.result_allocator.from_rust(),
            thread_opts: self.thread_opts.from_rust(),
            ignore_geometry: self.ignore_geometry,
            ignore_animation: self.ignore_animation,
            ignore_embedded: self.ignore_embedded,
            ignore_all_content: self.ignore_all_content,
            evaluate_skinning: self.evaluate_skinning,
            evaluate_caches: self.evaluate_caches,
            load_external_files: self.load_external_files,
            ignore_missing_external_files: self.ignore_missing_external_files,
            skip_skin_vertices: self.skip_skin_vertices,
            skip_mesh_parts: self.skip_mesh_parts,
            clean_skin_weights: self.clean_skin_weights,
            use_blender_pbr_material: self.use_blender_pbr_material,
            disable_quirks: self.disable_quirks,
            strict: self.strict,
            force_single_thread_ascii_parsing: self.force_single_thread_ascii_parsing,
            allow_unsafe: self.allow_unsafe.take(),
            index_error_handling: self.index_error_handling,
            connect_broken_elements: self.connect_broken_elements,
            allow_nodes_out_of_root: self.allow_nodes_out_of_root,
            allow_missing_vertex_position: self.allow_missing_vertex_position,
            allow_empty_faces: self.allow_empty_faces,
            generate_missing_normals: self.generate_missing_normals,
            open_main_file_with_default: self.open_main_file_with_default,
            path_separator: self.path_separator,
            node_depth_limit: self.node_depth_limit,
            file_size_estimate: self.file_size_estimate,
            read_buffer_size: self.read_buffer_size,
            filename,
            raw_filename,
            progress_cb: self.progress_cb.from_rust(),
            progress_interval_hint: self.progress_interval_hint,
            open_file_cb: self.open_file_cb.from_rust(),
            geometry_transform_handling: self.geometry_transform_handling,
            inherit_mode_handling: self.inherit_mode_handling,
            pivot_handling: self.pivot_handling,
            space_conversion: self.space_conversion,
            handedness_conversion_axis: self.handedness_conversion_axis,
            handedness_conversion_retain_winding: self.handedness_conversion_retain_winding,
            reverse_winding: self.reverse_winding,
            target_axes: self.target_axes,
            target_unit_meters: self.target_unit_meters,
            target_camera_axes: self.target_camera_axes,
            target_light_axes: self.target_light_axes,
            geometry_transform_helper_name,
            scale_helper_name,
            normalize_normals: self.normalize_normals,
            normalize_tangents: self.normalize_tangents,
            use_root_transform: self.use_root_transform,
            root_transform: self.root_transform,
            key_clamp_threshold: self.key_clamp_threshold,
            unicode_error_handling: self.unicode_error_handling,
            retain_vertex_attrib_w: self.retain_vertex_attrib_w,
            retain_dom: self.retain_dom,
            file_format: self.file_format,
            file_format_lookahead: self.file_format_lookahead,
            no_format_from_content: self.no_format_from_content,
            no_format_from_extension: self.no_format_from_extension,
            obj_search_mtl_by_filename: self.obj_search_mtl_by_filename,
            obj_merge_objects: self.obj_merge_objects,
            obj_merge_groups: self.obj_merge_groups,
            obj_split_groups: self.obj_split_groups,
            obj_mtl_path,
            obj_mtl_data,
            obj_unit_meters: self.obj_unit_meters,
            obj_axes: self.obj_axes,
            _end_zero: 0,
        }
    }
}

/// How an optional property-override list translates, per its tag.
pub open spec fn prop_override_opt_translated(
    src: ListOpt<PropOverrideDesc>,
    r: RawList<RawPropOverrideDesc>,
    arena: Arena,
) -> bool {
    match src {
        ListOpt::Unset => r.data == AbiPtr::Null && r.count == 0,
        ListOpt::Ref(c) => prop_override_list_translated(c.items@, r, arena),
        ListOpt::Mut(c) => prop_override_list_translated(c.items@, r, arena),
        ListOpt::Owned(v) => prop_override_list_translated(v@, r, arena),
    }
}

/// A translated optional property-override list stays translated while the
/// arena only grows.
pub proof fn lemma_prop_override_opt_translated_stable(
    src: ListOpt<PropOverrideDesc>,
    r: RawList<RawPropOverrideDesc>,
    pre: Arena,
    post: Arena,
)
    requires
        prop_override_opt_translated(src, r, pre),
        arena_extends(post, pre),
    ensures
        prop_override_opt_translated(src, r, post),
{
    match src {
        ListOpt::Unset => {},
        ListOpt::Ref(c) => lemma_prop_override_list_translated_stable(c.items@, r, pre, post),
        ListOpt::Mut(c) => lemma_prop_override_list_translated_stable(c.items@, r, pre, post),
        ListOpt::Owned(v) => lemma_prop_override_list_translated_stable(v@, r, pre, post),
    }
}

/// The configuration of one animation-descriptor creation call.
pub struct AnimOpts {
    pub layer_ids: ListOpt<u32>,
    pub override_layer_weights: ListOpt<Real>,
    pub prop_overrides: ListOpt<PropOverrideDesc>,
    pub transform_overrides: ListOpt<TransformOverride>,
    pub ignore_connections: bool,
    pub result_allocator: AllocatorOpts,
}

impl Default for AnimOpts {
    fn default() -> (r: Self)
        ensures
            r.layer_ids is Unset,
            r.override_layer_weights is Unset,
            r.prop_overrides is Unset,
            r.transform_overrides is Unset,
            r.ignore_connections == false,
            r.result_allocator.allocator is Global,
    {
        AnimOpts {
            layer_ids: ListOpt::Unset,
            override_layer_weights: ListOpt::Unset,
            prop_overrides: ListOpt::Unset,
            transform_overrides: ListOpt::Unset,
            ignore_connections: false,
            result_allocator: AllocatorOpts::default(),
        }
    }
}

/// The flat form of `AnimOpts`.
pub struct RawAnimOpts {
    pub _begin_zero: u32,
    pub layer_ids: RawList<u32>,
    pub override_layer_weights: RawList<Real>,
    pub prop_overrides: RawList<RawPropOverrideDesc>,
    pub transform_overrides: RawList<TransformOverride>,
    pub ignore_connections: bool,
    pub result_allocator: RawAllocatorOpts,
    pub _end_zero: u32,
}

/// How `AnimOpts` translate.
pub open spec fn anim_opts_translated(src: AnimOpts, r: RawAnimOpts, arena: Arena) -> bool {
    &&& r._begin_zero == 0
    &&& u32_list_translated(src.layer_ids, r.layer_ids, arena)
    &&& real_list_translated(src.override_layer_weights, r.override_layer_weights, arena)
    &&& prop_override_opt_translated(src.prop_overrides, r.prop_overrides, arena)
    &&& transform_override_list_translated(
        src.transform_overrides,
        r.transform_overrides,
        arena,
    )
    &&& r.ignore_connections == src.ignore_connections
    &&& allocator_opts_translated(src.result_allocator, r.result_allocator)
    &&& r._end_zero == 0
}

impl AnimOpts {
    /// Translates the animation options into their flat form, moving owned
    /// lists into the arena and translating each property override in
    /// order.
    pub fn from_rust(self, arena: &mut Arena) -> (r: RawAnimOpts)
        ensures
            arena_extends(*final(arena), *old(arena)),
            anim_opts_translated(self, r, *final(arena)),
    {
        let layer_ids = self.layer_ids.from_rust(arena);
        let ghost a1 = *arena;
        let override_layer_weights = self.override_layer_weights.from_rust(arena);
        proof {
            lemma_u32_list_translated_stable(self.layer_ids, layer_ids, a1, *arena);
        }
        let ghost a2 = *arena;
        let prop_overrides = self.prop_overrides.from_rust(arena);
        proof {
            lemma_u32_list_translated_stable(self.layer_ids, layer_ids, a2, *arena);
            lemma_real_list_translated_stable(
                self.override_layer_weights,
                override_layer_weights,
                a2,
                *arena,
            );
        }
        let ghost a3 = *arena;
        let transform_overrides = self.transform_overrides.from_rust(arena);
        proof {
            lemma_u32_list_translated_stable(self.layer_ids, layer_ids, a3, *arena);
            lemma_real_list_translated_stable(
                self.override_layer_weights,
                override_layer_weights,
                a3,
                *arena,
            );
            lemma_prop_override_opt_translated_stable(
                self.prop_overrides,
                prop_overrides,
                a3,
                *arena,
            );
        }
        RawAnimOpts {
            _begin_zero: 0,
            layer_ids,
            override_layer_weights,
            prop_overrides,
            transform_overrides,
            ignore_connections: self.ignore_connections,
            result_allocator: self.result_allocator.from_rust(),
            _end_zero: 0,
        }
    }
}

/// The configuration of one scene-evaluation call.
pub struct EvaluateOpts {
    pub temp_allocator: AllocatorOpts,
    pub result_allocator: AllocatorOpts,
    pub evaluate_skinning: bool,
    pub evaluate_caches: bool,
    pub load_external_files: bool,
    pub open_file_cb: OpenFileCb,
}

impl Default for EvaluateOpts {
    fn default() -> (r: Self)
        ensures
            r.temp_allocator.allocator is Global,
            r.result_allocator.allocator is Global,
            r.evaluate_skinning == false,
            r.evaluate_caches == false,
            r.load_external_files == false,
            r.open_file_cb is Unset,
    {
        EvaluateOpts {
            temp_allocator: AllocatorOpts::default(),
            result_allocator: AllocatorOpts::default(),
            evaluate_skinning: false,
            evaluate_caches: false,
            load_external_files: false,
            open_file_cb: OpenFileCb::Unset,
        }
    }
}

/// The flat form of `EvaluateOpts`.
pub struct RawEvaluateOpts {
    pub _begin_zero: u32,
    pub temp_allocator: RawAllocatorOpts,
    pub result_allocator: RawAllocatorOpts,
    pub evaluate_skinning: bool,
    pub evaluate_caches: bool,
    pub load_external_files: bool,
    pub open_file_cb: RawOpenFileCb,
    pub _end_zero: u32,
}

/// How `EvaluateOpts` translate.
pub open spec fn evaluate_opts_translated(src: EvaluateOpts, r: RawEvaluateOpts) -> bool {
    &&& r._begin_zero == 0
    &&& allocator_opts_translated(src.temp_allocator, r.temp_allocator)
    &&& allocator_opts_translated(src.result_allocator, r.result_allocator)
    &&& r.evaluate_skinning == src.evaluate_skinning
    &&& r.evaluate_caches == src.evaluate_caches
    &&& r.load_external_files == src.load_external_files
    &&& match src.open_file_cb {
        OpenFileCb::Unset => r.open_file_cb.fn_ is None,
        OpenFileCb::Raw(raw) => r.open_file_cb == raw.inner(),
    }
    &&& r._end_zero == 0
}

impl EvaluateOpts {
    /// Translates these options into their flat form.
    pub fn from_rust(self) -> (r: RawEvaluateOpts)
        ensures
            evaluate_opts_translated(self, r),
    {
        RawEvaluateOpts {
            _begin_zero: 0,
            temp_allocator: self.temp_allocator.from_rust(),
            result_allocator: self.result_allocator.from_rust(),
            evaluate_skinning: self.evaluate_skinning,
            evaluate_caches: self.evaluate_caches,
            load_external_files: self.load_external_files,
            open_file_cb: self.open_file_cb.from_rust(),
            _end_zero: 0,
        }
    }
}

/// The configuration of one animation-baking call.
pub struct BakeOpts {
    pub temp_allocator: AllocatorOpts,
    pub result_allocator: AllocatorOpts,
    pub trim_start_time: bool,
    pub resample_rate: Real,
    pub minimum_sample_rate: Real,
    pub maximum_sample_rate: Real,
    pub bake_transform_props: bool,
    pub skip_node_transforms: bool,
    pub no_resample_rotation: bool,
    pub ignore_layer_weight_animation: bool,
    pub max_keyframe_segments: usize,
    pub step_handling: BakeStepHandling,
    pub step_custom_duration: Real,
    pub step_custom_epsilon: Real,
    pub key_reduction_enabled: bool,
    pub key_reduction_rotation: bool,
    pub key_reduction_threshold: Real,
    pub key_reduction_passes: usize,
}

impl Default for BakeOpts {
    fn default() -> (r: Self)
        ensures
            r.temp_allocator.allocator is Global,
            r.result_allocator.allocator is Global,
            r.trim_start_time == false,
            r.resample_rate.bits == 0,
            r.minimum_sample_rate.bits == 0,
            r.maximum_sample_rate.bits == 0,
            r.bake_transform_props == false,
            r.skip_node_transforms == false,
            r.no_resample_rotation == false,
            r.ignore_layer_weight_animation == false,
            r.max_keyframe_segments == 0,
            r.step_custom_duration.bits == 0,
            r.step_custom_epsilon.bits == 0,
            r.key_reduction_enabled == false,
            r.key_reduction_rotation == false,
            r.key_reduction_threshold.bits == 0,
            r.key_reduction_passes == 0,
    {
        BakeOpts {
            temp_allocator: AllocatorOpts::default(),
            result_allocator: AllocatorOpts::default(),
            trim_start_time: false,
            resample_rate: Real { bits: 0 },
            minimum_sample_rate: Real { bits: 0 },
            maximum_sample_rate: Real { bits: 0 },
            bake_transform_props: false,
            skip_node_transforms: false,
            no_resample_rotation: false,
            ignore_layer_weight_animation: false,
            max_keyframe_segments: 0,
            step_handling: BakeStepHandling::default(),
            step_custom_duration: Real { bits: 0 },
            step_custom_epsilon: Real { bits: 0 },
            key_reduction_enabled: false,
            key_reduction_rotation: false,
            key_reduction_threshold: Real { bits: 0 },
            key_reduction_passes: 0,
        }
    }
}

/// The flat form of `BakeOpts`.
pub struct RawBakeOpts {
    pub _begin_zero: u32,
    pub temp_allocator: RawAllocatorOpts,
    pub result_allocator: RawAllocatorOpts,
    pub trim_start_time: bool,
    pub resample_rate: Real,
    pub minimum_sample_rate: Real,
    pub maximum_sample_rate: Real,
    pub bake_transform_props: bool,
    pub skip_node_transforms: bool,
    pub no_resample_rotation: bool,
    pub ignore_layer_weight_animation: bool,
    pub max_keyframe_segments: usize,
    pub step_handling: BakeStepHandling,
    pub step_custom_duration: Real,
    pub step_custom_epsilon: Real,
    pub key_reduction_enabled: bool,
    pub key_reduction_rotation: bool,
    pub key_reduction_threshold: Real,
    pub key_reduction_passes: usize,
    pub _end_zero: u32,
}

/// How `BakeOpts` translate.
pub open spec fn bake_opts_translated(src: BakeOpts, r: RawBakeOpts) -> bool {
    &&& r._begin_zero == 0
    &&& allocator_opts_translated(src.temp_allocator, r.temp_allocator)
    &&& allocator_opts_translated(src.result_allocator, r.result_allocator)
    &&& r.trim_start_time == src.trim_start_time
    &&& r.resample_rate == src.resample_rate
    &&& r.minimum_sample_rate == src.minimum_sample_rate
    &&& r.maximum_sample_rate == src.maximum_sample_rate
    &&& r.bake_transform_props == src.bake_transform_props
    &&& r.skip_node_transforms == src.skip_node_transforms
    &&& r.no_resample_rotation == src.no_resample_rotation
    &&& r.ignore_layer_weight_animation == src.ignore_layer_weight_animation
    &&& r.max_keyframe_segments == src.max_keyframe_segments
    &&& r.step_handling == src.step_handling
    &&& r.step_custom_duration == src.step_custom_duration
    &&& r.step_custom_epsilon == src.step_custom_epsilon
    &&& r.key_reduction_enabled == src.key_reduction_enabled
    &&& r.key_reduction_rotation == src.key_reduction_rotation
    &&& r.key_reduction_threshold == src.key_reduction_threshold
    &&& r.key_reduction_passes == src.key_reduction_passes
    &&& r._end_zero == 0
}

impl BakeOpts {
    /// Translates these options into their flat form.
    pub fn from_rust(self) -> (r: RawBakeOpts)
        ensures
            bake_opts_translated(self, r),
    {
        RawBakeOpts {
            _begin_zero: 0,
            temp_allocator: self.temp_allocator.from_rust(),
            result_allocator: self.result_allocator.from_rust(),
            trim_start_time: self.trim_start_time,
            resample_rate: self.resample_rate,
            minimum_sample_rate: self.minimum_sample_rate,
            maximum_sample_rate: self.maximum_sample_rate,
            bake_transform_props: self.bake_transform_props,
            skip_node_transforms: self.skip_node_transforms,
            no_resample_rotation: self.no_resample_rotation,
            ignore_layer_weight_animation: self.ignore_layer_weight_animation,
            max_keyframe_segments: self.max_keyframe_segments,
            step_handling: self.step_handling,
            step_custom_duration: self.step_custom_duration,
            step_custom_epsilon: self.step_custom_epsilon,
            key_reduction_enabled: self.key_reduction_enabled,
            key_reduction_rotation: self.key_reduction_rotation,
            key_reduction_threshold: self.key_reduction_threshold,
            key_reduction_passes: self.key_reduction_passes,
            _end_zero: 0,
        }
    }
}

/// The configuration of one curve-tessellation call.
pub struct TessellateCurveOpts {
    pub temp_allocator: AllocatorOpts,
    pub result_allocator: AllocatorOpts,
    pub span_subdivision: usize,
}

impl Default for TessellateCurveOpts {
    fn default() -> (r: Self)
        ensures
            r.temp_allocator.allocator is Global,
            r.result_allocator.allocator is Global,
            r.span_subdivision == 0,
    {
        TessellateCurveOpts {
            temp_allocator: AllocatorOpts::default(),
            result_allocator: AllocatorOpts::default(),
            span_subdivision: 0,
        }
    }
}

/// The flat form of `TessellateCurveOpts`.
pub struct RawTessellateCurveOpts {
    pub _begin_zero: u32,
    pub temp_allocator: RawAllocatorOpts,
    pub result_allocator: RawAllocatorOpts,
    pub span_subdivision: usize,
    pub _end_zero: u32,
}

/// How `TessellateCurveOpts` translate.
pub open spec fn tessellate_curve_opts_translated(src: TessellateCurveOpts, r: RawTessellateCurveOpts) -> bool {
    &&& r._begin_zero == 0
    &&& allocator_opts_translated(src.temp_allocator, r.temp_allocator)
    &&& allocator_opts_translated(src.result_allocator, r.result_allocator)
    &&& r.span_subdivision == src.span_subdivision
    &&& r._end_zero == 0
}

impl TessellateCurveOpts {
    /// Translates these options into their flat form.
    pub fn from_rust(self) -> (r: RawTessellateCurveOpts)
        ensures
            tessellate_curve_opts_translated(self, r),
    {
        RawTessellateCurveOpts {
            _begin_zero: 0,
            temp_allocator: self.temp_allocator.from_rust(),
            result_allocator: self.result_allocator.from_rust(),
            span_subdivision: self.span_subdivision,
            _end_zero: 0,
        }
    }
}

/// The configuration of one surface-tessellation call.
pub struct TessellateSurfaceOpts {
    pub temp_allocator: AllocatorOpts,
    pub result_allocator: AllocatorOpts,
    pub span_subdivision_u: usize,
    pub span_subdivision_v: usize,
    pub skip_mesh_parts: bool,
}

impl Default for TessellateSurfaceOpts {
    fn default() -> (r: Self)
        ensures
            r.temp_allocator.allocator is Global,
            r.result_allocator.allocator is Global,
            r.span_subdivision_u == 0,
            r.span_subdivision_v == 0,
            r.skip_mesh_parts == false,
    {
        TessellateSurfaceOpts {
            temp_allocator: AllocatorOpts::default(),
            result_allocator: AllocatorOpts::default(),
            span_subdivision_u: 0,
            span_subdivision_v: 0,
            skip_mesh_parts: false,
        }
    }
}

/// The flat form of `TessellateSurfaceOpts`.
pub struct RawTessellateSurfaceOpts {
    pub _begin_zero: u32,
    pub temp_allocator: RawAllocatorOpts,
    pub result_allocator: RawAllocatorOpts,
    pub span_subdivision_u: usize,
    pub span_subdivision_v: usize,
    pub skip_mesh_parts: bool,
    pub _end_zero: u32,
}

/// How `TessellateSurfaceOpts` translate.
pub open spec fn tessellate_surface_opts_translated(src: TessellateSurfaceOpts, r: RawTessellateSurfaceOpts) -> bool {
    &&& r._begin_zero == 0
    &&& allocator_opts_translated(src.temp_allocator, r.temp_allocator)
    &&& allocator_opts_translated(src.result_allocator, r.result_allocator)
    &&& r.span_subdivision_u == src.span_subdivision_u
    &&& r.span_subdivision_v == src.span_subdivision_v
    &&& r.skip_mesh_parts == src.skip_mesh_parts
    &&& r._end_zero == 0
}

impl TessellateSurfaceOpts {
    /// Translates these options into their flat form.
    pub fn from_rust(self) -> (r: RawTessellateSurfaceOpts)
        ensures
            tessellate_surface_opts_translated(self, r),
    {
        RawTessellateSurfaceOpts {
            _begin_zero: 0,
            temp_allocator: self.temp_allocator.from_rust(),
            result_allocator: self.result_allocator.from_rust(),
            span_subdivision_u: self.span_subdivision_u,
            span_subdivision_v: self.span_subdivision_v,
            skip_mesh_parts: self.skip_mesh_parts,
            _end_zero: 0,
        }
    }
}

/// The configuration of one mesh-subdivision call.
pub struct SubdivideOpts {
    pub temp_allocator: AllocatorOpts,
    pub result_allocator: AllocatorOpts,
    pub boundary: SubdivisionBoundary,
    pub uv_boundary: SubdivisionBoundary,
    pub ignore_normals: bool,
    pub interpolate_normals: bool,
    pub interpolate_tangents: bool,
    pub evaluate_source_vertices: bool,
    pub max_source_vertices: usize,
    pub evaluate_skin_weights: bool,
    pub max_skin_weights: usize,
    pub skin_deformer_index: usize,
}

impl Default for SubdivideOpts {
    fn default() -> (r: Self)
        ensures
            r.temp_allocator.allocator is Global,
            r.result_allocator.allocator is Global,
            r.ignore_normals == false,
            r.interpolate_normals == false,
            r.interpolate_tangents == false,
            r.evaluate_source_vertices == false,
            r.max_source_vertices == 0,
            r.evaluate_skin_weights == false,
            r.max_skin_weights == 0,
            r.skin_deformer_index == 0,
    {
        SubdivideOpts {
            temp_allocator: AllocatorOpts::default(),
            result_allocator: AllocatorOpts::default(),
            boundary: SubdivisionBoundary::default(),
            uv_boundary: SubdivisionBoundary::default(),
            ignore_normals: false,
            interpolate_normals: false,
            interpolate_tangents: false,
            evaluate_source_vertices: false,
            max_source_vertices: 0,
            evaluate_skin_weights: false,
            max_skin_weights: 0,
            skin_deformer_index: 0,
        }
    }
}

/// The flat form of `SubdivideOpts`.
pub struct RawSubdivideOpts {
    pub _begin_zero: u32,
    pub temp_allocator: RawAllocatorOpts,
    pub result_allocator: RawAllocatorOpts,
    pub boundary: SubdivisionBoundary,
    pub uv_boundary: SubdivisionBoundary,
    pub ignore_normals: bool,
    pub interpolate_normals: bool,
    pub interpolate_tangents: bool,
    pub evaluate_source_vertices: bool,
    pub max_source_vertices: usize,
    pub evaluate_skin_weights: bool,
    pub max_skin_weights: usize,
    pub skin_deformer_index: usize,
    pub _end_zero: u32,
}

/// How `SubdivideOpts` translate.
pub open spec fn subdivide_opts_translated(src: SubdivideOpts, r: RawSubdivideOpts) -> bool {
    &&& r._begin_zero == 0
    &&& allocator_opts_translated(src.temp_allocator, r.temp_allocator)
    &&& allocator_opts_translated(src.result_allocator, r.result_allocator)
    &&& r.boundary == src.boundary
    &&& r.uv_boundary == src.uv_boundary
    &&& r.ignore_normals == src.ignore_normals
    &&& r.interpolate_normals == src.interpolate_normals
    &&& r.interpolate_tangents == src.interpolate_tangents
    &&& r.evaluate_source_vertices == src.evaluate_source_vertices
    &&& r.max_source_vertices == src.max_source_vertices
    &&& r.evaluate_skin_weights == src.evaluate_skin_weights
    &&& r.max_skin_weights == src.max_skin_weights
    &&& r.skin_deformer_index == src.skin_deformer_index
    &&& r._end_zero == 0
}

impl SubdivideOpts {
    /// Translates these options into their flat form.
    pub fn from_rust(self) -> (r: RawSubdivideOpts)
        ensures
            subdivide_opts_translated(self, r),
    {
        RawSubdivideOpts {
            _begin_zero: 0,
            temp_allocator: self.temp_allocator.from_rust(),
            result_allocator: self.result_allocator.from_rust(),
            boundary: self.boundary,
            uv_boundary: self.uv_boundary,
            ignore_normals: self.ignore_normals,
            interpolate_normals: self.interpolate_normals,
            interpolate_tangents: self.interpolate_tangents,
            evaluate_source_vertices: self.evaluate_source_vertices,
            max_source_vertices: self.max_source_vertices,
            evaluate_skin_weights: self.evaluate_skin_weights,
            max_skin_weights: self.max_skin_weights,
            skin_deformer_index: self.skin_deformer_index,
            _end_zero: 0,
        }
    }
}

/// The configuration of one geometry-cache load call.
pub struct GeometryCacheOpts {
    pub temp_allocator: AllocatorOpts,
    pub result_allocator: AllocatorOpts,
    pub open_file_cb: OpenFileCb,
    pub frames_per_second: Real,
    pub mirror_axis: MirrorAxis,
    pub use_scale_factor: bool,
    pub scale_factor: Real,
}

impl Default for GeometryCacheOpts {
    fn default() -> (r: Self)
        ensures
            r.temp_allocator.allocator is Global,
            r.result_allocator.allocator is Global,
            r.open_file_cb is Unset,
            r.frames_per_second.bits == 0,
            r.use_scale_factor == false,
            r.scale_factor.bits == 0,
    {
        GeometryCacheOpts {
            temp_allocator: AllocatorOpts::default(),
            result_allocator: AllocatorOpts::default(),
            open_file_cb: OpenFileCb::Unset,
            frames_per_second: Real { bits: 0 },
            mirror_axis: MirrorAxis::default(),
            use_scale_factor: false,
            scale_factor: Real { bits: 0 },
        }
    }
}

/// The flat form of `GeometryCacheOpts`.
pub struct RawGeometryCacheOpts {
    pub _begin_zero: u32,
    pub temp_allocator: RawAllocatorOpts,
    pub result_allocator: RawAllocatorOpts,
    pub open_file_cb: RawOpenFileCb,
    pub frames_per_second: Real,
    pub mirror_axis: MirrorAxis,
    pub use_scale_factor: bool,
    pub scale_factor: Real,
    pub _end_zero: u32,
}

/// How `GeometryCacheOpts` translate.
pub open spec fn geometry_cache_opts_translated(src: GeometryCacheOpts, r: RawGeometryCacheOpts) -> bool {
    &&& r._begin_zero == 0
    &&& allocator_opts_translated(src.temp_allocator, r.temp_allocator)
    &&& allocator_opts_translated(src.result_allocator, r.result_allocator)
    &&& match src.open_file_cb {
        OpenFileCb::Unset => r.open_file_cb.fn_ is None,
        OpenFileCb::Raw(raw) => r.open_file_cb == raw.inner(),
    }
    &&& r.frames_per_second == src.frames_per_second
    &&& r.mirror_axis == src.mirror_axis
    &&& r.use_scale_factor == src.use_scale_factor
    &&& r.scale_factor == src.scale_factor
    &&& r._end_zero == 0
}

impl GeometryCacheOpts {
    /// Translates these options into their flat form.
    pub fn from_rust(self) -> (r: RawGeometryCacheOpts)
        ensures
            geometry_cache_opts_translated(self, r),
    {
        RawGeometryCacheOpts {
            _begin_zero: 0,
            temp_allocator: self.temp_allocator.from_rust(),
            result_allocator: self.result_allocator.from_rust(),
            open_file_cb: self.open_file_cb.from_rust(),
            frames_per_second: self.frames_per_second,
            mirror_axis: self.mirror_axis,
            use_scale_factor: self.use_scale_factor,
            scale_factor: self.scale_factor,
            _end_zero: 0,
        }
    }
}

/// The configuration of one geometry-cache data read.
pub struct GeometryCacheDataOpts {
    pub open_file_cb: OpenFileCb,
    pub additive: bool,
    pub use_weight: bool,
    pub weight: Real,
    pub ignore_transform: bool,
}

impl Default for GeometryCacheDataOpts {
    fn default() -> (r: Self)
        ensures
            r.open_file_cb is Unset,
            r.additive == false,
            r.use_weight == false,
            r.weight.bits == 0,
            r.ignore_transform == false,
    {
        GeometryCacheDataOpts {
            open_file_cb: OpenFileCb::Unset,
            additive: false,
            use_weight: false,
            weight: Real { bits: 0 },
            ignore_transform: false,
        }
    }
}

/// The flat form of `GeometryCacheDataOpts`.
pub struct RawGeometryCacheDataOpts {
    pub _begin_zero: u32,
    pub open_file_cb: RawOpenFileCb,
    pub additive: bool,
    pub use_weight: bool,
    pub weight: Real,
    pub ignore_transform: bool,
    pub _end_zero: u32,
}

/// How `GeometryCacheDataOpts` translate.
pub open spec fn geometry_cache_data_opts_translated(src: GeometryCacheDataOpts, r: RawGeometryCacheDataOpts) -> bool {
    &&& r._begin_zero == 0
    &&& match src.open_file_cb {
        OpenFileCb::Unset => r.open_file_cb.fn_ is None,
        OpenFileCb::Raw(raw) => r.open_file_cb == raw.inner(),
    }
    &&& r.additive == src.additive
    &&& r.use_weight == src.use_weight
    &&& r.weight == src.weight
    &&& r.ignore_transform == src.ignore_transform
    &&& r._end_zero == 0
}

impl GeometryCacheDataOpts {
    /// Translates these options into their flat form.
    pub fn from_rust(self) -> (r: RawGeometryCacheDataOpts)
        ensures
            geometry_cache_data_opts_translated(self, r),
    {
        RawGeometryCacheDataOpts {
            _begin_zero: 0,
            open_file_cb: self.open_file_cb.from_rust(),
            additive: self.additive,
            use_weight: self.use_weight,
            weight: self.weight,
            ignore_transform: self.ignore_transform,
            _end_zero: 0,
        }
    }
}

} // verus!
