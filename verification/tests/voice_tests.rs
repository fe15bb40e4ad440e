use std::sync::Arc;

use cc_dj::command::{ActionType, Command, CommandCatalog, CommandCategory, CommandSafety, Deck, Shortcut};
use cc_dj::config::DJConfig;
use cc_dj::voice::{eq_ignore_ascii_case, pick_best_config, CaptureRange, IntentProcessor};

#[test]
fn test_intent_processor() {
    let config = Arc::new(DJConfig::default());
    let processor = IntentProcessor::new(config);
    assert_eq!(processor.custom_mapping_count(), 0);
}

#[test]
fn test_add_mapping() {
    let config = Arc::new(DJConfig::default());
    let mut processor = IntentProcessor::new(config);
    processor.add_mapping("play deck a", "PLAY_A".to_string());
    assert_eq!(processor.custom_mapping_count(), 1);
}

fn command(id: &str, canonical: &str, synonyms: &[&str]) -> Command {
    Command {
        id: id.to_string(),
        canonical: canonical.to_string(),
        synonyms: synonyms.iter().map(|s| s.to_string()).collect(),
        category: CommandCategory::Transport,
        deck: Some(Deck::Left),
        action_type: ActionType::PlayPause,
        shortcut: Shortcut::Key { key: "Z".to_string() },
        safety: CommandSafety::default(),
    }
}

fn catalog() -> CommandCatalog {
    let mut c = CommandCatalog::new();
    c.add(command("3006", "Play/Pause", &["play left deck", "play left"]));
    c.add(command("3007", "Cue", &["cue left"]));
    c
}

#[test]
fn mapping_phrases_are_lower_cased_and_replaced() {
    let mut processor = IntentProcessor::new(Arc::new(DJConfig::default()));
    processor.add_mapping("Play Deck A", "PLAY_A".to_string());
    processor.add_mapping("play deck a", "PLAY_B".to_string());
    assert_eq!(processor.custom_mapping_count(), 1);
    let r = processor.process("PLAY DECK A");
    assert_eq!(r.len(), 1);
    assert_eq!(r[0].id, "PLAY_B");
}

#[test]
fn config_mappings_are_loaded() {
    let mut config = DJConfig::default();
    config.voice.command_map.push(("go".to_string(), "3007".to_string()));
    config.voice.command_map.push(("halt".to_string(), "STOP".to_string()));
    config.voice.command_map.push(("go".to_string(), "3006".to_string()));
    let mut processor = IntentProcessor::new(Arc::new(config));
    assert_eq!(processor.custom_mapping_count(), 2);
    processor.load_commands(catalog());
    let r = processor.process("go");
    assert_eq!(r.len(), 1);
    assert_eq!(r[0].id, "3006");
}

#[test]
fn mapped_action_resolves_through_catalog() {
    let mut processor = IntentProcessor::new(Arc::new(DJConfig::default()));
    processor.load_commands(catalog());
    processor.add_mapping("hit it", "play/PAUSE".to_string());
    let r = processor.process("  Hit It  ");
    assert_eq!(r.len(), 1);
    assert_eq!(r[0].id, "3006");
    assert_eq!(r[0].canonical, "Play/Pause");
}

#[test]
fn mapped_action_missing_from_catalog_makes_a_command() {
    let mut processor = IntentProcessor::new(Arc::new(DJConfig::default()));
    processor.load_commands(catalog());
    processor.add_mapping("drop the bass", "BASS_DROP".to_string());
    let r = processor.process("Drop The Bass");
    assert_eq!(r.len(), 1);
    assert_eq!(r[0].id, "BASS_DROP");
    assert_eq!(r[0].canonical, "BASS_DROP");
    assert_eq!(r[0].synonyms, vec!["drop the bass".to_string()]);
    assert_eq!(r[0].category, CommandCategory::Unknown);
    assert_eq!(r[0].action_type, ActionType::Unknown);
    assert_eq!(r[0].deck, None);
    assert!(matches!(&r[0].shortcut, Shortcut::Key { key } if key.is_empty()));
}

#[test]
fn unmapped_text_searches_catalog() {
    let mut processor = IntentProcessor::new(Arc::new(DJConfig::default()));
    processor.load_commands(catalog());
    let r = processor.process(" Play Left ");
    assert_eq!(r.len(), 1);
    assert_eq!(r[0].id, "3006");
    assert!(processor.process("rewind").is_empty());
}

#[test]
fn ascii_case_insensitive_comparison() {
    assert!(eq_ignore_ascii_case("Play/Pause", "PLAY/pause"));
    assert!(!eq_ignore_ascii_case("Play", "Plays"));
    assert!(!eq_ignore_ascii_case("É", "é"));
    assert!(eq_ignore_ascii_case("", ""));
}

fn range(channels: u16, min_rate: u32, max_rate: u32) -> CaptureRange {
    CaptureRange { channels, min_rate, max_rate }
}

#[test]
fn capture_format_choice() {
    assert_eq!(pick_best_config(&vec![]), (44_100, 1));
    assert_eq!(pick_best_config(&vec![range(2, 8_000, 48_000), range(1, 8_000, 48_000)]), (16_000, 1));
    assert_eq!(pick_best_config(&vec![range(1, 44_100, 48_000), range(2, 8_000, 48_000)]), (16_000, 2));
    assert_eq!(pick_best_config(&vec![range(2, 44_100, 48_000), range(1, 22_050, 48_000)]), (22_050, 1));
    assert_eq!(pick_best_config(&vec![range(1, 8_000, 11_025)]), (11_025, 1));
    assert_eq!(pick_best_config(&vec![range(2, 44_100, 48_000), range(4, 8_000, 8_000)]), (44_100, 2));
}

use cc_dj::voice::StabilityTracker;

#[test]
fn stability_streaks_count_consecutive_matches() {
    let mut t = StabilityTracker::new(10);
    assert_eq!(t.update_streak(Some("play")), 1);
    assert_eq!(t.update_streak(Some("play")), 2);
    assert_eq!(t.update_streak(Some("play")), 3);
    assert!(t.is_streak_of("play"));
    assert_eq!(t.update_streak(Some("stop")), 1);
    assert!(t.is_streak_of("stop"));
    assert_eq!(t.update_streak(None), 0);
    assert_eq!(t.streak(), 0);
    assert_eq!(t.update_streak(Some("stop")), 1);
    t.reset();
    assert_eq!(t.streak(), 0);
    assert!(!t.is_streak_of("stop"));
}

#[test]
fn stability_keeps_latest_scores() {
    let mut t = StabilityTracker::new(2);
    assert_eq!(t.last_score("play"), None);
    t.record("play", 0.1f32.to_bits());
    t.record("play", 0.2f32.to_bits());
    t.record("stop", 0.9f32.to_bits());
    t.record("play", 0.3f32.to_bits());
    assert_eq!(t.last_score("play"), Some(0.3f32.to_bits()));
    assert_eq!(t.last_score("stop"), Some(0.9f32.to_bits()));
    t.reset();
    assert_eq!(t.last_score("play"), None);
    let mut none_kept = StabilityTracker::new(0);
    none_kept.record("play", 0.5f32.to_bits());
    assert_eq!(none_kept.last_score("play"), None);
}

#[test]
fn catalog_category_listing_follows_the_latest_addition() {
    let mut c = catalog();
    let mut looped = command("3006", "Loop", &["loop left"]);
    looped.category = CommandCategory::Looping;
    c.add(looped);
    c.add(command("3008", "Sync", &[]));
    assert_eq!(c.len(), 3);
    let transport: Vec<&str> = c.by_category(CommandCategory::Transport).iter().map(|c| c.id.as_str()).collect();
    assert_eq!(transport, vec!["3007", "3008"]);
    let looping: Vec<&str> = c.by_category(CommandCategory::Looping).iter().map(|c| c.id.as_str()).collect();
    assert_eq!(looping, vec!["3006"]);
    assert_eq!(c.by_category(CommandCategory::Looping)[0].canonical, "Loop");
    assert!(c.by_category(CommandCategory::Mixer).is_empty());
}
