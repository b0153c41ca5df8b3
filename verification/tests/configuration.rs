use ufbx::{
    AbiFn, AbiPtr, Allocator, AllocatorOpts, AnimOpts, Arena, ArenaBuf, BakeOpts, CallerStr,
    EvaluateOpts, ListOpt, MemoryStream, OpenMemoryOpts, OptionRef, PropOverrideDesc, RawAllocator,
    RawStream, Real, StreamInterface, StringOpt, SubdivideOpts, TessellateCurveOpts,
    TessellateSurfaceOpts, ThreadOpts, ThreadPool, Unsafe, Vec4,
};

#[test]
fn allocator_selections_pick_their_trampolines() {
    let libc = Allocator::Libc.from_rust();
    assert!(libc.alloc_fn.is_none());
    assert!(libc.free_fn.is_none());
    assert_eq!(libc.user, AbiPtr::Null);

    let global = Allocator::Global.from_rust();
    assert_eq!(global.alloc_fn, Some(AbiFn::GlobalAlloc));
    assert_eq!(global.realloc_fn, Some(AbiFn::GlobalRealloc));
    assert_eq!(global.free_fn, Some(AbiFn::GlobalFree));
    assert!(global.free_allocator_fn.is_none());

    let system = Allocator::System.from_rust();
    assert_eq!(system.alloc_fn, Some(AbiFn::SystemAlloc));
}

#[test]
fn raw_escape_allocator_passes_through_verbatim() {
    let descriptor = RawAllocator {
        alloc_fn: Some(AbiFn::Addr { addr: 0xABCD }),
        realloc_fn: None,
        free_fn: Some(AbiFn::Addr { addr: 0xEF01 }),
        free_allocator_fn: None,
        user: AbiPtr::Borrowed { addr: 99 },
    };
    let raw = Allocator::Raw(Unsafe::new(descriptor)).from_rust();
    assert_eq!(raw, descriptor);
}

#[test]
fn allocator_opts_copy_limits_verbatim() {
    let opts = AllocatorOpts {
        allocator: Allocator::System,
        memory_limit: 1024,
        allocation_limit: 8,
        huge_threshold: 16,
        max_chunk_size: 4096,
    };
    let raw = opts.from_rust();
    assert_eq!(raw.memory_limit, 1024);
    assert_eq!(raw.allocation_limit, 8);
    assert_eq!(raw.huge_threshold, 16);
    assert_eq!(raw.max_chunk_size, 4096);
}

#[test]
fn thread_opts_translate() {
    let raw = ThreadOpts { pool: ThreadPool::Unset, num_tasks: 12, memory_limit: 7 }.from_rust();
    assert!(raw.pool.init_fn.is_none());
    assert_eq!(raw.num_tasks, 12);
    assert_eq!(raw.memory_limit, 7);
}

#[test]
fn open_memory_opts_translate() {
    let raw = OpenMemoryOpts {
        no_copy: Unsafe::new(true),
        ..Default::default()
    }
    .from_rust();
    assert_eq!(raw._begin_zero, 0);
    assert!(raw.no_copy);
    assert!(raw.close_cb.fn_.is_none());
    assert_eq!(raw._end_zero, 0);
}

#[test]
fn prop_override_translates_strings_into_arena() {
    let mut arena = Arena::new();
    let desc = PropOverrideDesc {
        element_id: 3,
        prop_name: StringOpt::Owned(String::from("Visibility")),
        value: Vec4::default(),
        value_str: StringOpt::Ref(CallerStr { addr: 50, text: String::from("on") }),
        value_int: -4,
    };
    let raw = desc.from_rust(&mut arena);
    assert_eq!(raw.element_id, 3);
    assert_eq!(raw.value_int, -4);
    assert_eq!(raw.prop_name.length, 10);
    assert!(matches!(raw.prop_name.data, AbiPtr::Arena { .. }));
    assert_eq!(raw.value_str.data, AbiPtr::Borrowed { addr: 50 });
}

#[test]
fn anim_opts_translate_override_list_in_order() {
    let mut arena = Arena::new();
    let opts = AnimOpts {
        layer_ids: ListOpt::Owned(vec![2u32, 1]),
        prop_overrides: ListOpt::Owned(vec![
            PropOverrideDesc {
                element_id: 1,
                prop_name: StringOpt::Owned(String::from("a")),
                ..Default::default()
            },
            PropOverrideDesc {
                element_id: 2,
                prop_name: StringOpt::Owned(String::from("b")),
                ..Default::default()
            },
        ]),
        ignore_connections: true,
        ..Default::default()
    };
    let raw = opts.from_rust(&mut arena);
    assert_eq!(raw._begin_zero, 0);
    assert!(raw.ignore_connections);
    assert_eq!(raw.prop_overrides.count, 2);
    let buf = match raw.prop_overrides.data {
        AbiPtr::Arena { buf } => buf,
        other => panic!("expected an arena pointer, got {:?}", other),
    };
    match arena.buf_at(buf) {
        ArenaBuf::PropOverrides(raws) => {
            assert_eq!(raws.len(), 2);
            assert_eq!(raws[0].element_id, 1);
            assert_eq!(raws[1].element_id, 2);
            assert_eq!(raws[0].prop_name.length, 1);
        }
        _ => panic!("expected a property-override buffer"),
    }
}

#[test]
fn simple_opts_translate_field_by_field() {
    let raw = EvaluateOpts { evaluate_skinning: true, ..Default::default() }.from_rust();
    assert!(raw.evaluate_skinning);
    assert_eq!(raw._begin_zero, 0);

    let raw = BakeOpts {
        resample_rate: Real { bits: 0x4039000000000000 },
        max_keyframe_segments: 32,
        ..Default::default()
    }
    .from_rust();
    assert_eq!(raw.resample_rate.bits, 0x4039000000000000);
    assert_eq!(raw.max_keyframe_segments, 32);

    let raw = TessellateCurveOpts { span_subdivision: 4, ..Default::default() }.from_rust();
    assert_eq!(raw.span_subdivision, 4);

    let raw = TessellateSurfaceOpts {
        span_subdivision_u: 2,
        span_subdivision_v: 3,
        ..Default::default()
    }
    .from_rust();
    assert_eq!(raw.span_subdivision_u, 2);
    assert_eq!(raw.span_subdivision_v, 3);

    let raw = SubdivideOpts { ignore_normals: true, ..Default::default() }.from_rust();
    assert!(raw.ignore_normals);
}

#[test]
fn option_ref_reports_nullness() {
    let some = OptionRef { ptr: AbiPtr::Arena { buf: 0 } };
    assert!(some.is_some());
    assert!(!some.is_none());
    let none = OptionRef { ptr: AbiPtr::Null };
    assert!(none.is_none());
    assert!(!none.is_some());
}

#[test]
fn memory_stream_reads_and_skips() {
    let mut stream = MemoryStream::new(vec![1u8, 2, 3, 4, 5, 6]);
    let first = stream.read_upto(2).expect("read failed");
    assert_eq!(first, vec![1, 2]);
    assert!(stream.skip(3));
    let rest = stream.read_upto(10).expect("read failed");
    assert_eq!(rest, vec![6]);
    let end = stream.read_upto(10).expect("read failed");
    assert!(end.is_empty());
}

#[test]
fn memory_stream_skip_past_end_fails() {
    let mut stream = MemoryStream::new(vec![1u8, 2]);
    assert!(!stream.skip(5));
}

#[test]
fn raw_stream_default_is_empty_descriptor() {
    let raw = RawStream::default();
    assert!(raw.read_fn.is_none());
    assert!(raw.skip_fn.is_none());
    assert!(raw.close_fn.is_none());
    assert_eq!(raw.user, AbiPtr::Null);
}

#[test]
fn open_memory_registers_close_callback_state() {
    let opened = ufbx::open_memory(vec![1u8, 2, 3], OpenMemoryOpts::default());
    assert_eq!(opened.close_cb_calls(), 0);
}

#[test]
fn close_memory_callback_runs_at_most_once() {
    let raw_cb = ufbx::RawCloseMemoryCb {
        fn_: Some(AbiFn::Addr { addr: 0x99 }),
        user: AbiPtr::Borrowed { addr: 7 },
    };
    let opts = OpenMemoryOpts {
        close_cb: ufbx::CloseMemoryCb::Raw(Unsafe::new(raw_cb)),
        ..Default::default()
    };
    let mut opened = ufbx::open_memory(vec![1u8, 2], opts);
    let chunk = opened.read_upto(8).expect("read failed");
    assert_eq!(chunk, vec![1, 2]);
    opened.close();
    assert_eq!(opened.close_cb_calls(), 1);
    // A second close must not run the callback again.
    opened.close();
    assert_eq!(opened.close_cb_calls(), 1);
}

#[test]
fn close_memory_callback_never_runs_when_unset() {
    let mut opened = ufbx::open_memory(vec![5u8], OpenMemoryOpts::default());
    opened.close();
    opened.close();
    assert_eq!(opened.close_cb_calls(), 0);
}
