use backend::store::BufferStore;
use backend::store::LoadError;
use backend::store::SharedBufferStore;

#[test]
fn load_returns_loaded_bytes() {
    let mut store = BufferStore::new();
    let r = store.load(Ok(vec![0x01u8, 0x02, 0x03]));
    assert_eq!(r, Ok(vec![0x01u8, 0x02, 0x03]));
    assert_eq!(store.contents(), &Some(vec![0x01u8, 0x02, 0x03]));
}

#[test]
fn new_store_holds_nothing() {
    let store = BufferStore::new();
    assert_eq!(store.contents(), &None);
}

#[test]
fn load_missing_file_fails_and_preserves_store() {
    let mut store = BufferStore::new();
    store.load(Ok(vec![9u8, 8, 7])).unwrap();
    let r = store.load(Err(LoadError::FileAccess));
    assert_eq!(r, Err(LoadError::FileAccess));
    assert_eq!(store.contents(), &Some(vec![9u8, 8, 7]));
}

#[test]
fn failed_load_on_empty_store_leaves_it_empty() {
    let mut store = BufferStore::new();
    let r = store.load(Err(LoadError::FileAccess));
    assert_eq!(r, Err(LoadError::FileAccess));
    assert_eq!(store.contents(), &None);
}

#[test]
fn second_load_replaces_first_without_residue() {
    let mut store = BufferStore::new();
    store.load(Ok(vec![1u8, 2, 3])).unwrap();
    store.load(Ok(vec![4u8, 5])).unwrap();
    let contents = store.contents().as_ref().unwrap();
    assert_eq!(contents.len(), 2);
    assert_eq!(contents, &vec![4u8, 5]);
}

#[test]
fn returned_buffer_is_full_copy_not_just_matching_length() {
    let mut data: Vec<u8> = Vec::new();
    for i in 0..1024u32 {
        data.push((i % 251) as u8);
    }
    let mut store = BufferStore::new();
    let out = store.load(Ok(data.clone())).unwrap();
    assert_eq!(out, data);
    assert_eq!(store.contents(), &Some(data));
}

#[test]
fn empty_file_loads_as_empty_buffer() {
    let mut store = BufferStore::new();
    let out = store.load(Ok(Vec::new())).unwrap();
    assert_eq!(out, Vec::<u8>::new());
    assert_eq!(store.contents(), &Some(Vec::new()));
}

#[test]
fn returned_copy_is_independent_of_the_store() {
    let mut store = BufferStore::new();
    let mut out = store.load(Ok(vec![1u8, 2, 3])).unwrap();
    out.push(0xFFu8);
    out[0] = 0u8;
    assert_eq!(store.contents(), &Some(vec![1u8, 2, 3]));
}

#[test]
fn shared_store_starts_empty() {
    let shared = SharedBufferStore::new();
    assert_eq!(shared.snapshot(), None);
}

#[test]
fn shared_store_load_and_snapshot() {
    let shared = SharedBufferStore::new();
    let r = shared.load(Ok(vec![0x01u8, 0x02, 0x03]));
    assert_eq!(r, Ok(vec![0x01u8, 0x02, 0x03]));
    assert_eq!(shared.snapshot(), Some(vec![0x01u8, 0x02, 0x03]));
}

#[test]
fn shared_store_failed_load_preserves_contents() {
    let shared = SharedBufferStore::new();
    shared.load(Ok(vec![5u8, 6])).unwrap();
    let r = shared.load(Err(LoadError::FileAccess));
    assert_eq!(r, Err(LoadError::FileAccess));
    assert_eq!(shared.snapshot(), Some(vec![5u8, 6]));
}

#[test]
fn shared_store_replaces_wholesale() {
    let shared = SharedBufferStore::new();
    shared.load(Ok(vec![1u8, 2, 3])).unwrap();
    shared.load(Ok(vec![7u8])).unwrap();
    assert_eq!(shared.snapshot(), Some(vec![7u8]));
}
