use ufbx::{
    AbiPtr, Arena, ArenaBuf, BlobOpt, CallerBytes, CallerSlice, CallerStr, ListOpt, LoadOpts,
    StringOpt,
};

fn doc_header(count: u32) -> Vec<u8> {
    let mut data = vec![0x46u8, 0x42, 0x58, 0x00];
    data.extend_from_slice(&count.to_le_bytes());
    data
}

#[test]
fn unset_fields_translate_to_null() {
    let mut arena = Arena::new();
    let raw = LoadOpts::default().from_rust(&mut arena);
    assert_eq!(raw._begin_zero, 0);
    assert_eq!(raw._end_zero, 0);
    assert_eq!(raw.filename.data, AbiPtr::Null);
    assert_eq!(raw.filename.length, 0);
    assert_eq!(raw.raw_filename.data, AbiPtr::Null);
    assert_eq!(raw.raw_filename.size, 0);
    assert_eq!(raw.geometry_transform_helper_name.data, AbiPtr::Null);
    assert_eq!(raw.scale_helper_name.data, AbiPtr::Null);
    assert_eq!(raw.obj_mtl_path.data, AbiPtr::Null);
    assert_eq!(raw.obj_mtl_data.data, AbiPtr::Null);
    assert!(raw.progress_cb.fn_.is_none());
    assert!(raw.open_file_cb.fn_.is_none());
    assert!(!raw.allow_unsafe);
    assert_eq!(arena.len(), 0);
}

#[test]
fn owned_string_moves_into_arena() {
    let mut arena = Arena::new();
    let opts = LoadOpts {
        filename: StringOpt::Owned(String::from("model.fbx")),
        ..Default::default()
    };
    let raw = opts.from_rust(&mut arena);
    assert_eq!(raw.filename.length, 9);
    assert_eq!(arena.len(), 1);
    match raw.filename.data {
        AbiPtr::Arena { buf } => match arena.buf_at(buf) {
            ArenaBuf::Text(t) => assert_eq!(t.as_str(), "model.fbx"),
            _ => panic!("expected a text buffer"),
        },
        other => panic!("expected an arena pointer, got {:?}", other),
    }
}

#[test]
fn owned_blob_moves_into_arena() {
    let mut arena = Arena::new();
    let opts = LoadOpts {
        raw_filename: BlobOpt::Owned(vec![1u8, 2, 3]),
        ..Default::default()
    };
    let raw = opts.from_rust(&mut arena);
    assert_eq!(raw.raw_filename.size, 3);
    match raw.raw_filename.data {
        AbiPtr::Arena { buf } => match arena.buf_at(buf) {
            ArenaBuf::Bytes(b) => assert_eq!(b.as_slice(), &[1u8, 2, 3]),
            _ => panic!("expected a byte buffer"),
        },
        other => panic!("expected an arena pointer, got {:?}", other),
    }
}

#[test]
fn borrowed_string_is_zero_copy() {
    let mut arena = Arena::new();
    let opts = LoadOpts {
        filename: StringOpt::Ref(CallerStr { addr: 0x1234, text: String::from("scene.fbx") }),
        ..Default::default()
    };
    let raw = opts.from_rust(&mut arena);
    assert_eq!(raw.filename.data, AbiPtr::Borrowed { addr: 0x1234 });
    assert_eq!(raw.filename.length, 9);
    assert_eq!(arena.len(), 0);
}

#[test]
fn borrowed_blob_is_zero_copy() {
    let mut arena = Arena::new();
    let raw = BlobOpt::Ref(CallerBytes { addr: 77, bytes: vec![9u8, 8] }).from_rust(&mut arena);
    assert_eq!(raw.data, AbiPtr::Borrowed { addr: 77 });
    assert_eq!(raw.size, 2);
    assert_eq!(arena.len(), 0);
}

#[test]
fn empty_values_translate_to_null_not_dangling() {
    let mut arena = Arena::new();
    let raw_owned = StringOpt::Owned(String::new()).from_rust(&mut arena);
    assert_eq!(raw_owned.data, AbiPtr::Null);
    assert_eq!(raw_owned.length, 0);

    let raw_ref = StringOpt::Ref(CallerStr { addr: 5, text: String::new() }).from_rust(&mut arena);
    assert_eq!(raw_ref.data, AbiPtr::Null);
    assert_eq!(raw_ref.length, 0);

    let raw_blob = BlobOpt::Owned(Vec::new()).from_rust(&mut arena);
    assert_eq!(raw_blob.data, AbiPtr::Null);
    assert_eq!(raw_blob.size, 0);

    let raw_list = ListOpt::<u32>::Owned(Vec::new()).from_rust(&mut arena);
    assert_eq!(raw_list.data, AbiPtr::Null);
    assert_eq!(raw_list.count, 0);

    let raw_ref_list =
        ListOpt::<u32>::Ref(CallerSlice { addr: 9, items: Vec::new() }).from_rust(&mut arena);
    assert_eq!(raw_ref_list.data, AbiPtr::Null);
    assert_eq!(raw_ref_list.count, 0);

    assert_eq!(arena.len(), 0);
}

#[test]
fn owned_list_moves_into_arena() {
    let mut arena = Arena::new();
    let raw = ListOpt::<u32>::Owned(vec![4u32, 5, 6]).from_rust(&mut arena);
    assert_eq!(raw.count, 3);
    match raw.data {
        AbiPtr::Arena { buf } => match arena.buf_at(buf) {
            ArenaBuf::U32s(v) => assert_eq!(v.as_slice(), &[4u32, 5, 6]),
            _ => panic!("expected a list buffer"),
        },
        other => panic!("expected an arena pointer, got {:?}", other),
    }
}

#[test]
fn borrowed_list_is_zero_copy() {
    let mut arena = Arena::new();
    let raw =
        ListOpt::<u32>::Ref(CallerSlice { addr: 41, items: vec![7u32] }).from_rust(&mut arena);
    assert_eq!(raw.data, AbiPtr::Borrowed { addr: 41 });
    assert_eq!(raw.count, 1);
    assert_eq!(arena.len(), 0);
}

#[test]
fn arena_keeps_earlier_buffers_across_later_pushes() {
    let mut arena = Arena::new();
    let first = StringOpt::Owned(String::from("first")).from_rust(&mut arena);
    let _second = StringOpt::Owned(String::from("second")).from_rust(&mut arena);
    let _third = BlobOpt::Owned(vec![1u8]).from_rust(&mut arena);
    assert_eq!(arena.len(), 3);
    match first.data {
        AbiPtr::Arena { buf } => match arena.buf_at(buf) {
            ArenaBuf::Text(t) => assert_eq!(t.as_str(), "first"),
            _ => panic!("expected a text buffer"),
        },
        other => panic!("expected an arena pointer, got {:?}", other),
    }
}

#[test]
fn header_helper_is_well_formed() {
    let data = doc_header(0);
    assert_eq!(data.len(), 8);
    assert_eq!(&data[..4], &[0x46, 0x42, 0x58, 0x00]);
}
