use npc_neural_affect_matrix::{MemoryRecord, MemoryStore};

fn record(id: &str, source_id: &str, text: &str, valence: i64, arousal: i64, past_time: u64) -> MemoryRecord {
    MemoryRecord {
        id: id.to_string(),
        source_id: source_id.to_string(),
        text: text.to_string(),
        valence,
        arousal,
        past_time,
    }
}

#[test]
fn store_test_memory_store_new() {
    let store = MemoryStore::new();
    assert!(matches!(store, MemoryStore { .. }));
}

#[test]
fn store_test_memory_store_default() {
    let store = MemoryStore::default();
    assert!(matches!(store, MemoryStore { .. }));
}

#[test]
fn store_test_memory_store_insert() {
    let mut store = MemoryStore::new();
    let npc_id = "test-npc-12345";
    store.clear(npc_id);

    store.insert(npc_id, record("test-1", "source-1", "Test message", 300_000, -200_000, 1000));

    let count = store.get_memory_count(npc_id);
    assert_eq!(count, 1);
}

#[test]
fn store_test_memory_store_get_all() {
    let mut store = MemoryStore::new();
    let npc_id = "test-npc-12345";
    store.clear(npc_id);

    store.insert(npc_id, record("test-1", "source-1", "Message 1", 500_000, -300_000, 1000));
    store.insert(npc_id, record("test-2", "source-2", "Message 2", -200_000, 700_000, 2000));

    let all_records = store.get_all(npc_id);
    assert_eq!(all_records.len(), 2);
    assert_eq!(all_records[0].id, "test-1");
    assert_eq!(all_records[1].id, "test-2");
}

#[test]
fn store_test_memory_store_get_by_source() {
    let mut store = MemoryStore::new();
    let npc_id = "test-npc-12345";
    store.clear(npc_id);

    store.insert(npc_id, record("test-1", "source-1", "Message 1", 500_000, -300_000, 1000));
    store.insert(npc_id, record("test-2", "source-2", "Message 2", -200_000, 700_000, 2000));

    let source1_records = store.get_by_source(npc_id, "source-1");
    assert_eq!(source1_records.len(), 1);
    assert_eq!(source1_records[0].id, "test-1");

    let source2_records = store.get_by_source(npc_id, "source-2");
    assert_eq!(source2_records.len(), 1);
    assert_eq!(source2_records[0].id, "test-2");

    let unknown_records = store.get_by_source(npc_id, "unknown");
    assert_eq!(unknown_records.len(), 0);
}

#[test]
fn store_test_memory_store_import_valid() {
    let mut store = MemoryStore::new();
    let npc_id = "test-npc-12345";
    store.clear(npc_id);

    let records = vec![
        record("import-1", "source-1", "Imported message 1", 800_000, -400_000, 1000),
        record("import-2", "source-2", "Imported message 2", -600_000, 900_000, 2000),
    ];

    let result = store.import(npc_id, records);
    assert!(result.is_ok());

    let all_records = store.get_all(npc_id);
    assert_eq!(all_records.len(), 2);
    assert_eq!(all_records[0].id, "import-1");
    assert_eq!(all_records[1].id, "import-2");
}

#[test]
fn store_test_memory_store_import_empty_id() {
    let mut store = MemoryStore::new();
    let npc_id = "test-npc-12345";
    store.clear(npc_id);

    let records = vec![record("", "source-1", "Invalid message", 500_000, -300_000, 1000)];

    let result = store.import(npc_id, records);
    assert!(result.is_err());
    assert!(result.unwrap_err().message().contains("empty ID"));
}

#[test]
fn store_test_memory_store_import_invalid_valence() {
    let mut store = MemoryStore::new();
    let npc_id = "test-npc-12345";
    store.clear(npc_id);

    let records = vec![record("test-1", "source-1", "Invalid valence", 1_500_000, -300_000, 1000)];

    let result = store.import(npc_id, records);
    assert!(result.is_err());
    assert!(result.unwrap_err().message().contains("invalid valence"));
}

#[test]
fn store_test_memory_store_import_invalid_arousal() {
    let mut store = MemoryStore::new();
    let npc_id = "test-npc-12345";
    store.clear(npc_id);

    let records = vec![record("test-1", "source-1", "Invalid arousal", 500_000, -1_500_000, 1000)];

    let result = store.import(npc_id, records);
    assert!(result.is_err());
    assert!(result.unwrap_err().message().contains("invalid arousal"));
}

#[test]
fn store_test_memory_store_clear() {
    let mut store = MemoryStore::new();
    let npc_id = "test-npc-12345";
    store.clear(npc_id);

    store.insert(npc_id, record("test-1", "source-1", "Test message", 500_000, -300_000, 1000));
    assert_eq!(store.get_memory_count(npc_id), 1);

    store.clear(npc_id);
    assert_eq!(store.get_memory_count(npc_id), 0);
}

#[test]
fn store_test_memory_store_get_memory_count() {
    let mut store = MemoryStore::new();
    let npc_id = "test-npc-12345";
    store.clear(npc_id);
    assert_eq!(store.get_memory_count(npc_id), 0);

    store.insert(npc_id, record("test-1", "source-1", "Message 1", 500_000, -300_000, 1000));
    assert_eq!(store.get_memory_count(npc_id), 1);

    store.insert(npc_id, record("test-2", "source-2", "Message 2", -200_000, 700_000, 2000));
    assert_eq!(store.get_memory_count(npc_id), 2);
}

#[test]
fn store_test_memory_store_import_boundary_values() {
    let mut store = MemoryStore::new();
    let npc_id = "test-npc-12345";
    store.clear(npc_id);

    let records = vec![
        record("boundary-1", "source-1", "Max positive", 1_000_000, 1_000_000, 1000),
        record("boundary-2", "source-2", "Max negative", -1_000_000, -1_000_000, 2000),
        record("boundary-3", "source-3", "Zero values", 0, 0, 3000),
    ];

    let result = store.import(npc_id, records);
    assert!(result.is_ok());

    let all_records = store.get_all(npc_id);
    assert_eq!(all_records.len(), 3);
}

#[test]
fn store_test_memory_store_multiple_npcs() {
    let mut store = MemoryStore::new();
    let npc_id1 = "npc-1";
    let npc_id2 = "npc-2";

    store.clear(npc_id1);
    store.clear(npc_id2);

    store.insert(npc_id1, record("test-1", "source-1", "NPC 1 message", 500_000, -300_000, 1000));
    store.insert(npc_id2, record("test-2", "source-2", "NPC 2 message", -200_000, 700_000, 2000));

    assert_eq!(store.get_memory_count(npc_id1), 1);
    assert_eq!(store.get_memory_count(npc_id2), 1);

    let npc1_records = store.get_all(npc_id1);
    let npc2_records = store.get_all(npc_id2);

    assert_eq!(npc1_records.len(), 1);
    assert_eq!(npc2_records.len(), 1);
    assert_eq!(npc1_records[0].text, "NPC 1 message");
    assert_eq!(npc2_records[0].text, "NPC 2 message");
}

#[test]
fn store_test_memory_store_remove_npc() {
    let mut store = MemoryStore::new();
    let npc_id = "test-npc-12345";
    store.clear(npc_id);

    store.insert(npc_id, record("test-1", "source-1", "Test message", 500_000, -300_000, 1000));
    assert_eq!(store.get_memory_count(npc_id), 1);

    store.remove_npc(npc_id);
    assert_eq!(store.get_memory_count(npc_id), 0);
}
