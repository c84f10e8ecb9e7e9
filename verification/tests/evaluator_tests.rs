use npc_neural_affect_matrix::{MemoryEmotionEvaluator, MemoryStore, NpcConfig};

#[test]
fn evaluator_test_real_memory_emotion_evaluator_new() {
    let config = NpcConfig::default();
    let evaluator = MemoryEmotionEvaluator::new(config, Some("test-source".to_string()));
    assert!(evaluator.is_ok());

    let evaluator = evaluator.unwrap();
    assert_eq!(evaluator.source_id, Some("test-source".to_string()));
    assert!(!evaluator.npc_id.is_empty());
}

#[test]
fn evaluator_test_real_memory_emotion_evaluator_new_no_source() {
    let config = NpcConfig::default();
    let evaluator = MemoryEmotionEvaluator::new(config, None);
    assert!(evaluator.is_ok());

    let evaluator = evaluator.unwrap();
    assert_eq!(evaluator.source_id, None);
}

#[test]
fn evaluator_test_real_memory_emotion_evaluator_new_with_id() {
    let config = NpcConfig::default();
    let custom_id = "custom-npc-456".to_string();
    let evaluator = MemoryEmotionEvaluator::new_with_id(
        config,
        Some("test-source".to_string()),
        custom_id.clone(),
    );
    assert!(evaluator.is_ok());

    let evaluator = evaluator.unwrap();
    assert_eq!(evaluator.npc_id, custom_id);
}

#[test]
fn evaluator_test_real_memory_emotion_evaluator_clone() {
    let config = NpcConfig::default();
    let evaluator =
        MemoryEmotionEvaluator::new(config, Some("test-source".to_string())).unwrap();
    let cloned = evaluator.clone();

    assert_eq!(evaluator.source_id, cloned.source_id);
    assert_eq!(evaluator.npc_id, cloned.npc_id);
}

#[test]
fn evaluator_test_real_memory_emotion_evaluator_calculate_current_emotion_empty() {
    let mut store = MemoryStore::new();
    let config = NpcConfig::default();
    let evaluator =
        MemoryEmotionEvaluator::new(config, Some("test-source".to_string())).unwrap();

    store.clear(&evaluator.npc_id);

    let emotion = evaluator.calculate_current_emotion(&store);
    assert_eq!(emotion.valence, evaluator.config.personality.valence);
    assert_eq!(emotion.arousal, evaluator.config.personality.arousal);
}
