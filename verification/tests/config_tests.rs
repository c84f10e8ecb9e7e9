use npc_neural_affect_matrix::{Identity, MemoryConfig, NpcConfig, PersonalityTraits};

#[test]
fn config_tests_test_identity() {
    let identity = Identity::new("Alice", "Warrior");
    assert_eq!(identity.name, "Alice");
    assert_eq!(identity.background, "Warrior");

    let default = Identity::default();
    assert_eq!(default.name, "");
    assert_eq!(default.background, "");
}

#[test]
fn config_tests_test_personality_traits() {
    let mut traits = PersonalityTraits::new();
    assert_eq!(traits.valence, 0);
    assert_eq!(traits.arousal, 0);

    traits.valence = 500_000;
    traits.arousal = -300_000;
    assert!(traits.validate().is_ok());

    traits.valence = 1_500_000;
    assert!(traits.validate().is_err());
}

#[test]
fn config_tests_test_memory_config() {
    let memory = MemoryConfig::new(500_000);
    assert_eq!(memory.decay_rate, 500_000);

    let default = MemoryConfig::default();
    assert_eq!(default.decay_rate, 100_000);
}

#[test]
fn config_tests_test_npc_config() {
    let config = NpcConfig::default();
    assert_eq!(config.identity.name, "");
    assert_eq!(config.personality.valence, 0);
    assert_eq!(config.memory.decay_rate, 100_000);

    let custom = NpcConfig {
        identity: Identity::new("Test", "Character"),
        personality: PersonalityTraits { valence: 300_000, arousal: -200_000 },
        memory: MemoryConfig::new(150_000),
    };
    assert_eq!(custom.identity.name, "Test");
    assert_eq!(custom.personality.valence, 300_000);
    assert_eq!(custom.memory.decay_rate, 150_000);
}

#[test]
fn npc_config_test_npc_config_default() {
    let config = NpcConfig::default();
    assert_eq!(config.identity.name, "");
    assert_eq!(config.identity.background, "");
    assert_eq!(config.personality.valence, 0);
    assert_eq!(config.personality.arousal, 0);
    assert_eq!(config.memory.decay_rate, 100_000);
}

#[test]
fn npc_config_test_identity() {
    let identity = Identity::new("Alice", "Warrior");
    assert_eq!(identity.name, "Alice");
    assert_eq!(identity.background, "Warrior");

    let default = Identity::default();
    assert_eq!(default.name, "");
    assert_eq!(default.background, "");
}

#[test]
fn npc_config_test_personality_traits() {
    let mut traits = PersonalityTraits::new();
    assert_eq!(traits.valence, 0);
    assert_eq!(traits.arousal, 0);

    traits.valence = 500_000;
    traits.arousal = -300_000;
    assert!(traits.validate().is_ok());

    traits.valence = 1_500_000;
    assert!(traits.validate().is_err());
}

#[test]
fn npc_config_test_memory_config() {
    let memory = MemoryConfig::new(500_000);
    assert_eq!(memory.decay_rate, 500_000);

    let default = MemoryConfig::default();
    assert_eq!(default.decay_rate, 100_000);
}

#[test]
fn npc_config_test_npc_config() {
    let config = NpcConfig::default();
    assert_eq!(config.identity.name, "");
    assert_eq!(config.personality.valence, 0);
    assert_eq!(config.memory.decay_rate, 100_000);

    let custom = NpcConfig {
        identity: Identity::new("Test", "Character"),
        personality: PersonalityTraits { valence: 300_000, arousal: -200_000 },
        memory: MemoryConfig::new(150_000),
    };
    assert_eq!(custom.identity.name, "Test");
    assert_eq!(custom.personality.valence, 300_000);
    assert_eq!(custom.memory.decay_rate, 150_000);
}
