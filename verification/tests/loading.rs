use ufbx::{
    Engine, ErrorType, LoadOpts, MemoryStream, ProgressCb, ProgressResult, RawLoadOpts,
    element_count, load_memory, load_memory_raw, load_stream, load_stream_prefix,
};

fn doc_bytes(tags: &[u32]) -> Vec<u8> {
    let mut data = vec![0x46u8, 0x42, 0x58, 0x00];
    data.extend_from_slice(&(tags.len() as u32).to_le_bytes());
    for tag in tags {
        data.extend_from_slice(&tag.to_le_bytes());
    }
    data
}

#[test]
fn load_minimal_document_with_zero_elements() {
    let mut engine = Engine::new();
    let data = doc_bytes(&[]);
    let root = load_memory(&mut engine, &data, LoadOpts::default()).expect("expected a handle");
    assert_eq!(element_count(&engine, &root), 0);
    assert_eq!(engine.free_calls, 0);
    assert_eq!(engine.objects.len(), 1);
}

#[test]
fn load_document_with_elements() {
    let mut engine = Engine::new();
    let data = doc_bytes(&[10, 20, 30]);
    let root = load_memory(&mut engine, &data, LoadOpts::default()).expect("expected a handle");
    assert_eq!(element_count(&engine, &root), 3);
}

#[test]
fn truncated_header_reports_truncated_file_without_leak() {
    let mut engine = Engine::new();
    let data = vec![0x46u8, 0x42, 0x58];
    let err = load_memory(&mut engine, &data, LoadOpts::default())
        .err()
        .expect("expected truncation to fail");
    assert_eq!(err.type_, ErrorType::TruncatedFile);
    assert_eq!(err.description.as_str(), "Truncated file");
    assert_eq!(engine.objects.len(), 0);
    assert_eq!(engine.free_calls, 0);
}

#[test]
fn truncated_records_report_truncated_file() {
    let mut engine = Engine::new();
    let mut data = doc_bytes(&[1, 2]);
    data.truncate(10);
    let err = load_memory(&mut engine, &data, LoadOpts::default()).err().unwrap();
    assert_eq!(err.type_, ErrorType::TruncatedFile);
}

#[test]
fn empty_buffer_reports_empty_file() {
    let mut engine = Engine::new();
    let err = load_memory(&mut engine, &[], LoadOpts::default()).err().unwrap();
    assert_eq!(err.type_, ErrorType::EmptyFile);
    assert_eq!(err.description.as_str(), "Empty file");
}

#[test]
fn wrong_magic_reports_unrecognized_format() {
    let mut engine = Engine::new();
    let err = load_memory(&mut engine, b"GLTF\x00\x00\x00\x00", LoadOpts::default())
        .err()
        .unwrap();
    assert_eq!(err.type_, ErrorType::UnrecognizedFileFormat);
}

#[test]
fn unacknowledged_unsafe_options_are_rejected() {
    let mut engine = Engine::new();
    let data = doc_bytes(&[]);
    let opts = LoadOpts {
        index_error_handling: ufbx::IndexErrorHandling::UnsafeIgnore,
        ..Default::default()
    };
    let err = load_memory(&mut engine, &data, opts).err().unwrap();
    assert_eq!(err.type_, ErrorType::UnsafeOptions);
    assert_eq!(err.description.as_str(), "Unsafe options not allowed");
}

#[test]
fn acknowledged_unsafe_options_are_accepted() {
    let mut engine = Engine::new();
    let data = doc_bytes(&[]);
    let opts = LoadOpts {
        index_error_handling: ufbx::IndexErrorHandling::UnsafeIgnore,
        allow_unsafe: ufbx::Unsafe::new(true),
        ..Default::default()
    };
    assert!(load_memory(&mut engine, &data, opts).is_ok());
}

#[test]
fn uninitialized_raw_record_is_rejected() {
    let mut engine = Engine::new();
    let data = doc_bytes(&[]);
    let mut raw = {
        let mut arena = ufbx::Arena::new();
        LoadOpts::default().from_rust(&mut arena)
    };
    raw._begin_zero = 17;
    let err = load_memory_raw(&mut engine, &data, &raw).err().unwrap();
    assert_eq!(err.type_, ErrorType::UninitializedOptions);
}

#[test]
fn progress_callback_runs_once_per_element_plus_final() {
    let mut engine = Engine::new();
    let data = doc_bytes(&[7, 8]);
    let opts = LoadOpts { progress_cb: ProgressCb::Plan(Vec::new()), ..Default::default() };
    let root = load_memory(&mut engine, &data, opts).expect("expected a handle");
    assert_eq!(element_count(&engine, &root), 2);
    assert_eq!(engine.progress_calls, 3);
}

#[test]
fn progress_cancel_fails_with_cancelled_and_stops() {
    let mut engine = Engine::new();
    // Five elements; the plan cancels on the second invocation (k = 1), so
    // the callback must run exactly twice and the load must fail.
    let data = doc_bytes(&[1, 2, 3, 4, 5]);
    let plan = vec![ProgressResult::Continue, ProgressResult::Cancel, ProgressResult::Cancel];
    let opts = LoadOpts { progress_cb: ProgressCb::Plan(plan), ..Default::default() };
    let err = load_memory(&mut engine, &data, opts).err().expect("expected cancellation");
    assert_eq!(err.type_, ErrorType::Cancelled);
    assert_eq!(err.description.as_str(), "Cancelled");
    assert_eq!(engine.progress_calls, 2);
    assert_eq!(engine.objects.len(), 0);
}

#[test]
fn progress_cancel_on_final_invocation_still_cancels() {
    let mut engine = Engine::new();
    let data = doc_bytes(&[1]);
    // Invocation 0 covers the element, invocation 1 is the final report.
    let plan = vec![ProgressResult::Continue, ProgressResult::Cancel];
    let opts = LoadOpts { progress_cb: ProgressCb::Plan(plan), ..Default::default() };
    let err = load_memory(&mut engine, &data, opts).err().unwrap();
    assert_eq!(err.type_, ErrorType::Cancelled);
    assert_eq!(engine.progress_calls, 2);
}

#[test]
fn no_callback_means_no_progress_invocations() {
    let mut engine = Engine::new();
    let data = doc_bytes(&[1, 2, 3]);
    load_memory(&mut engine, &data, LoadOpts::default()).expect("expected a handle");
    assert_eq!(engine.progress_calls, 0);
}

#[test]
fn load_stream_reads_whole_source() {
    let mut engine = Engine::new();
    let data = doc_bytes(&[5, 6]);
    let mut stream = MemoryStream::new(data);
    let root = load_stream(&mut engine, &mut stream, LoadOpts::default())
        .expect("expected a handle");
    assert_eq!(element_count(&engine, &root), 2);
}

#[test]
fn load_stream_prefix_prepends_peeked_bytes() {
    let mut engine = Engine::new();
    let data = doc_bytes(&[9]);
    let (head, tail) = data.split_at(6);
    let mut stream = MemoryStream::new(tail.to_vec());
    let root = load_stream_prefix(&mut engine, &mut stream, head, LoadOpts::default())
        .expect("expected a handle");
    assert_eq!(element_count(&engine, &root), 1);
}

#[test]
fn trailing_bytes_after_records_are_tolerated() {
    let mut engine = Engine::new();
    let mut data = doc_bytes(&[3]);
    data.push(0xFF);
    assert!(load_memory(&mut engine, &data, LoadOpts::default()).is_ok());
}

#[test]
fn raw_record_out_parameter_flow() {
    let mut engine = Engine::new();
    let data = doc_bytes(&[]);
    let mut arena = ufbx::Arena::new();
    let raw: RawLoadOpts = LoadOpts::default().from_rust(&mut arena);
    assert!(load_memory_raw(&mut engine, &data, &raw).is_ok());
}

#[test]
fn element_count_and_tags_decode_little_endian() {
    let mut engine = Engine::new();
    // One element whose tag bytes are 0x04 0x03 0x02 0x01 in the file.
    let mut data = vec![0x46u8, 0x42, 0x58, 0x00, 0x01, 0x00, 0x00, 0x00];
    data.extend_from_slice(&[0x04, 0x03, 0x02, 0x01]);
    let root = load_memory(&mut engine, &data, LoadOpts::default()).expect("expected a handle");
    assert_eq!(element_count(&engine, &root), 1);
    assert_eq!(ufbx::get_element_tag(&engine, &root, 0).unwrap(), 0x01020304);
}
