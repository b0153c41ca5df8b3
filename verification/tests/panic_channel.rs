use ufbx::{
    Engine, LoadOpts, Panic, copy_element_tags, get_element_tag, load_memory,
};

fn doc_bytes(tags: &[u32]) -> Vec<u8> {
    let mut data = vec![0x46u8, 0x42, 0x58, 0x00];
    data.extend_from_slice(&(tags.len() as u32).to_le_bytes());
    for tag in tags {
        data.extend_from_slice(&tag.to_le_bytes());
    }
    data
}

#[test]
fn undersized_buffer_sets_panic_with_nonempty_message() {
    let mut engine = Engine::new();
    let data = doc_bytes(&[1, 2, 3]);
    let root = load_memory(&mut engine, &data, LoadOpts::default()).unwrap();

    let mut panic = Panic::default();
    let mut dst: Vec<u32> = vec![0; 2];
    let written = engine.catch_copy_element_tags(&mut panic, 0, &mut dst);
    assert!(panic.did_panic);
    assert!(!panic.message_str().is_empty());
    assert_eq!(panic.message_str(), "Output buffer too small");
    assert_eq!(written, 0);
    assert_eq!(dst, vec![0, 0]);
    drop(root);
}

#[test]
fn undersized_buffer_raises_fatal_containing_message() {
    let mut engine = Engine::new();
    let data = doc_bytes(&[1, 2, 3]);
    let root = load_memory(&mut engine, &data, LoadOpts::default()).unwrap();

    let mut dst: Vec<u32> = vec![0; 1];
    let fatal = copy_element_tags(&engine, &root, &mut dst)
        .err()
        .expect("expected a fatal failure");
    assert!(fatal.message.contains("Output buffer too small"));
    assert_eq!(dst, vec![0]);
}

#[test]
fn adequate_buffer_copies_tags() {
    let mut engine = Engine::new();
    let data = doc_bytes(&[10, 20, 30]);
    let root = load_memory(&mut engine, &data, LoadOpts::default()).unwrap();

    let mut dst: Vec<u32> = vec![0; 4];
    let written = copy_element_tags(&engine, &root, &mut dst).expect("expected a copy");
    assert_eq!(written, 3);
    assert_eq!(dst, vec![10, 20, 30, 0]);
}

#[test]
fn out_of_range_index_raises_fatal() {
    let mut engine = Engine::new();
    let data = doc_bytes(&[5]);
    let root = load_memory(&mut engine, &data, LoadOpts::default()).unwrap();

    let fatal = get_element_tag(&engine, &root, 1).err().expect("expected a fatal failure");
    assert!(fatal.message.contains("Element index out of range"));
    assert!(fatal.message.contains("get_element_tag()"));
}

#[test]
fn in_range_index_reads_tag() {
    let mut engine = Engine::new();
    let data = doc_bytes(&[5, 6]);
    let root = load_memory(&mut engine, &data, LoadOpts::default()).unwrap();
    assert_eq!(get_element_tag(&engine, &root, 0).unwrap(), 5);
    assert_eq!(get_element_tag(&engine, &root, 1).unwrap(), 6);
}

#[test]
fn fresh_panic_record_is_clear() {
    let panic = Panic::default();
    assert!(!panic.did_panic);
    assert!(panic.message_str().is_empty());
}
