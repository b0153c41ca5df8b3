//! Safety and marshalling layer between idiomatic callers and a flat,
//! C-ABI object-graph engine.
//!
//! The layer translates rich configuration values (borrowed data, owned
//! buffers, callbacks, optional fields) into a single flat ABI record backed
//! by an arena, manages reference-counted engine-side object graphs through
//! owning handles, and bridges the engine's two failure channels (recoverable
//! errors and programmer-error panics) into typed results.

pub mod abi;
pub mod arena;
pub mod callbacks;
pub mod engine;
pub mod error;
pub mod flags;
pub mod kinds;
pub mod load;
pub mod options;
pub mod opts;
pub mod records;
pub mod roots;
pub mod stream;
pub mod reals;

pub use abi::{
    AbiFn, AbiPtr, OptionRef, RawAllocator, RawBlob, RawCloseMemoryCb, RawList, RawOpenFileCb,
    RawPropOverrideDesc, RawStream, RawString, RawThreadPool, Unsafe,
};
pub use arena::{Arena, ArenaBuf, arena_extends};
pub use callbacks::{
    CloseMemoryCb, OpenFileCb, OpenFileInfo, Progress, ProgressCb, ProgressResult, RawProgressCb,
    Stream, plan_answer,
};
pub use engine::{
    Engine, EngineModel, NativeObject, ObjectModel, SceneData, cancel_point, doc_count, doc_error,
    doc_tag, doc_tags, kind_description, le32, lemma_duplicate_then_drop_frees_once,
    lemma_release_to_zero, lemma_retain_n, load_error_kind, load_outcome_kind,
    load_progress_invocations, magic_prefix_ok, object_live, opts_uninitialized,
    opts_unsafe_violation, progress_points, release_n, retain_n, spec_kind_description,
    spec_release, spec_retain,
};
pub use error::{
    Error, ErrorFrame, ErrorType, Fatal, MAX_ERROR_INFO, MAX_ERROR_STACK, MAX_PANIC_MESSAGE,
    Panic, error_text, fatal_from_panic, format_error, frames_text, u32_text, u32_to_text,
};
pub use flags::{BakedKeyFlags, PropFlags, TopoFlags, TransformFlags, flags_text, format_flags};
pub use kinds::{
    ApertureFormat, ApertureMode, AspectMode, BakeStepHandling, BlendMode, CacheDataEncoding,
    CacheDataFormat, CacheFileFormat, CacheInterpretation, ConstraintAimUpType,
    ConstraintIkPoleType, ConstraintType, CoordinateAxis, DomValueType, ElementType, Exporter,
    FileFormat, GateFit, GeometryTransformHandling, IndexErrorHandling, InheritMode,
    InheritModeHandling, Interpolation, LightAreaShape, LightDecay, LightType, LodDisplay,
    MarkerType, MaterialFbxMap, MaterialFeature, MaterialPbrMap, MirrorAxis, NurbsTopology,
    PivotHandling, ProjectionMode, PropType, RotationOrder, ShaderTextureType, ShaderType,
    SkinningMethod, SnapMode, SpaceConversion, SubdivisionBoundary, SubdivisionDisplayMode,
    TextureType, ThumbnailFormat, TimeMode, TimeProtocol, UnicodeErrorHandling, WarningType,
    WrapMode, OpenFileType,
};
pub use records::{
    Application, BakedAnimMetadata, CoordinateAxes, Edge, Face, FaceGroup, InflateRetain,
    LineSegment, MaterialFeatureInfo, MaterialFeatures, MeshPart, ShaderPropBinding,
    SubdivisionWeightRange, TextureFile, ThreadPoolInfo, TopoEdge, Warning,
};
pub use options::{
    BlobOpt, CallerBytes, CallerSlice, CallerStr, ListOpt, StringOpt, blob_translated,
    lemma_borrowed_blob_zero_copy, lemma_borrowed_string_zero_copy, lemma_empty_blob_is_null,
    lemma_empty_list_is_null, lemma_empty_string_is_null, lemma_owned_blob_arena_backed,
    lemma_owned_string_arena_backed, lemma_unset_blob_is_null, lemma_unset_list_is_null,
    lemma_unset_string_is_null, real_list_translated, transform_override_list_translated,
    u32_list_translated,
};
pub use load::{
    lemma_progress_cancel_stops, lemma_progress_continue_completes, load_memory, load_memory_raw, load_opts_cancelled, load_opts_outcome,
    load_opts_progress_invocations, load_opts_unsafe_violation, load_stream, load_stream_prefix,
    progress_plan_of, progress_registered,
};
pub use opts::{
    Allocator, AllocatorOpts, AnimOpts, BakeOpts, EvaluateOpts, GeometryCacheDataOpts,
    GeometryCacheOpts, LoadOpts, OpenMemoryOpts, PropOverrideDesc, RawAllocatorOpts, RawAnimOpts,
    RawBakeOpts, RawEvaluateOpts, RawGeometryCacheDataOpts, RawGeometryCacheOpts, RawLoadOpts,
    RawOpenMemoryOpts, RawSubdivideOpts, RawTessellateCurveOpts, RawTessellateSurfaceOpts,
    RawThreadOpts, SubdivideOpts, TessellateCurveOpts, TessellateSurfaceOpts, ThreadOpts,
    ThreadPool, allocator_opts_translated, anim_opts_translated, bake_opts_translated,
    evaluate_opts_translated, geometry_cache_data_opts_translated, geometry_cache_opts_translated,
    load_opts_translated, open_memory_opts_translated, prop_override_list_translated,
    prop_override_opt_translated, prop_override_translated, subdivide_opts_translated,
    tessellate_curve_opts_translated, tessellate_surface_opts_translated, thread_opts_translated,
};
pub use roots::{
    SceneRoot, borrow_scene, copy_element_tags, duplicate, element_count, get_element_tag,
    lemma_fatal_text_contains_message, lemma_undersized_buffer_message_nonempty, release,
    valid_root,
};
pub use stream::{MemoryStream, OpenedMemory, SKIP_CHUNK, StreamInterface, open_memory};
pub use reals::{Quat, Real, Transform, TransformOverride, Vec2, Vec3, Vec4};
