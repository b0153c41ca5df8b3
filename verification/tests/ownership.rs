use ufbx::{Engine, LoadOpts, duplicate, element_count, load_memory, release};

fn doc_bytes(tags: &[u32]) -> Vec<u8> {
    let mut data = vec![0x46u8, 0x42, 0x58, 0x00];
    data.extend_from_slice(&(tags.len() as u32).to_le_bytes());
    for tag in tags {
        data.extend_from_slice(&tag.to_le_bytes());
    }
    data
}

#[test]
fn duplicate_then_drop_frees_exactly_once() {
    let mut engine = Engine::new();
    let data = doc_bytes(&[1, 2]);
    let root = load_memory(&mut engine, &data, LoadOpts::default()).expect("expected a handle");

    // Duplicate the handle three times, then drop all four.
    let dup1 = duplicate(&mut engine, &root);
    let dup2 = duplicate(&mut engine, &root);
    let dup3 = duplicate(&mut engine, &dup1);
    assert_eq!(engine.retain_calls, 3);
    assert_eq!(engine.free_calls, 0);

    release(&mut engine, dup2);
    assert_eq!(engine.free_calls, 0);
    release(&mut engine, root);
    assert_eq!(engine.free_calls, 0);
    release(&mut engine, dup3);
    assert_eq!(engine.free_calls, 0);
    release(&mut engine, dup1);

    assert_eq!(engine.free_calls, 1);
    assert_eq!(engine.release_calls, 4);
    assert_eq!(engine.retain_calls, 3);
    assert!(!engine.objects[0].alive);
}

#[test]
fn single_handle_drop_frees_once() {
    let mut engine = Engine::new();
    let data = doc_bytes(&[]);
    let root = load_memory(&mut engine, &data, LoadOpts::default()).unwrap();
    release(&mut engine, root);
    assert_eq!(engine.free_calls, 1);
    assert_eq!(engine.release_calls, 1);
    assert_eq!(engine.retain_calls, 0);
}

#[test]
fn duplicated_handle_reads_same_object() {
    let mut engine = Engine::new();
    let data = doc_bytes(&[11, 22, 33, 44]);
    let root = load_memory(&mut engine, &data, LoadOpts::default()).unwrap();
    let dup = duplicate(&mut engine, &root);
    assert_eq!(element_count(&engine, &root), 4);
    assert_eq!(element_count(&engine, &dup), 4);
    release(&mut engine, root);
    // The object survives while the duplicate is alive.
    assert_eq!(element_count(&engine, &dup), 4);
    assert!(engine.objects[0].alive);
    release(&mut engine, dup);
    assert!(!engine.objects[0].alive);
}

#[test]
fn two_documents_are_independent() {
    let mut engine = Engine::new();
    let first = load_memory(&mut engine, &doc_bytes(&[1]), LoadOpts::default()).unwrap();
    let second = load_memory(&mut engine, &doc_bytes(&[2, 3]), LoadOpts::default()).unwrap();
    assert_eq!(element_count(&engine, &first), 1);
    assert_eq!(element_count(&engine, &second), 2);
    release(&mut engine, first);
    assert_eq!(engine.free_calls, 1);
    assert_eq!(element_count(&engine, &second), 2);
    release(&mut engine, second);
    assert_eq!(engine.free_calls, 2);
}

#[test]
fn engine_reports_thread_safety_capability() {
    let engine = Engine::new();
    assert!(engine.is_thread_safe());
}
