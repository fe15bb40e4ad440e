use cc_dj::action::Tier;
use cc_dj::command::{ActionType, Command, CommandCategory, CommandSafety, Deck, Shortcut};
use cc_dj::SCHEMA_VERSION;

#[test]
fn test_schema_version() {
    assert_eq!(SCHEMA_VERSION, "0.1.0");
}

#[test]
fn test_tier_ordering() {
    assert!(Tier::Transport < Tier::Looping);
    assert!(Tier::Looping < Tier::Cues);
    assert!(Tier::FX < Tier::Library);
}

#[test]
fn test_tier_from_number() {
    assert_eq!(Tier::from_number(0), Some(Tier::Transport));
    assert_eq!(Tier::from_number(5), Some(Tier::Blend));
    assert_eq!(Tier::from_number(10), None);
}

#[test]
fn test_command_matches() {
    let cmd = Command {
        id: "3006".to_string(),
        canonical: "Play/Pause".to_string(),
        synonyms: vec!["play left deck".to_string(), "play left".to_string()],
        category: CommandCategory::Transport,
        deck: Some(Deck::Left),
        action_type: ActionType::PlayPause,
        shortcut: Shortcut::Key { key: "Z".to_string() },
        safety: CommandSafety::default(),
    };

    assert!(cmd.matches("Play/Pause"));
    assert!(cmd.matches("play/pause"));
    assert!(cmd.matches("play left deck"));
    assert!(!cmd.matches("stop"));
}

#[test]
fn test_deck_properties() {
    assert_eq!(Deck::Left.number(), Some(1));
    assert_eq!(Deck::Right.number(), Some(2));
    assert_eq!(Deck::Left.letter(), "A");
    assert_eq!(Deck::Right.letter(), "B");
}

use cc_dj::action::{tiers_from_numbers, Action, ActionSpace};
use cc_dj::config::{DJConfig, DJSoftware, SafetyConfig};
use cc_dj::error::DJError;
use cc_dj::state::DeckState;

#[test]
fn test_action_builder() {
    let action = Action::new("PLAY_A", Tier::Transport)
        .with_deck(Deck::Left)
        .with_cooldown(1)
        .with_param("velocity", "127".to_string());

    assert_eq!(action.name, "PLAY_A");
    assert_eq!(action.tier, Tier::Transport);
    assert_eq!(action.deck, Some(Deck::Left));
    assert_eq!(action.cooldown_beats, 1);
}

#[test]
fn test_action_space() {
    let space = ActionSpace::new(vec![Tier::Transport, Tier::Looping], SafetyConfig::default());

    assert!(space.is_tier_enabled(Tier::Transport));
    assert!(space.is_tier_enabled(Tier::Looping));
    assert!(!space.is_tier_enabled(Tier::FX));

    let transport_actions = space.actions_in_tier(Tier::Transport);
    assert!(!transport_actions.is_empty());
}

#[test]
fn test_default_config() {
    let config = DJConfig::default();
    assert_eq!(config.software, DJSoftware::Rekordbox);
    assert_eq!(f64::from_bits(config.quant_window_deg), 15.0);
    assert!(config.safety.lock_playing_deck);
}

#[test]
fn test_safety_defaults() {
    let safety = SafetyConfig::default();
    assert!(safety.lock_playing_deck);
    assert!(safety.forbid_load_on_live);
    assert_eq!(f64::from_bits(safety.eq_max_db_per_beat), 6.0);
}

#[test]
fn tiers_named_by_numbers() {
    assert_eq!(tiers_from_numbers(&vec![0, 9, 3, 5]), vec![Tier::Transport, Tier::FX, Tier::Blend]);
    assert!(tiers_from_numbers(&vec![]).is_empty());
    let config = DJConfig::default();
    assert_eq!(
        tiers_from_numbers(&config.tiers_enabled),
        vec![Tier::Transport, Tier::Looping, Tier::Cues, Tier::FX]
    );
}

#[test]
fn executable_actions_are_checked() {
    let space = ActionSpace::new(vec![Tier::Transport, Tier::Library], SafetyConfig::default());
    let mut playing = DeckState::new();
    playing.is_playing = true;
    let idle = DeckState::new();

    assert_eq!(space.executable_action("PLAY_A", &idle, None).unwrap().name, "PLAY_A");
    assert_eq!(space.executable_action("NOPE", &idle, None).err(), Some(DJError::CommandNotFound("NOPE".to_string())));
    assert_eq!(space.executable_action("LOOP_4_A", &idle, None).err(), Some(DJError::TierLocked { tier: 1 }));
    assert_eq!(
        space.executable_action("PLAY_A", &idle, Some(1.5f64.to_bits())).err(),
        Some(DJError::CooldownActive { beats_remaining: 1.5f64.to_bits() })
    );
    assert_eq!(
        space.executable_action("LOAD_A", &playing, None).err(),
        Some(DJError::ActionNotAllowed { reason: "Cannot execute LOAD_A on playing deck A".to_string() })
    );
    assert!(space.executable_action("LIB_SEARCH", &playing, None).is_ok());
}

use cc_dj::action::action_listing;
use cc_dj::state::{ChannelState, MixerState, SessionState};

#[test]
fn test_session_state() {
    let session = SessionState::new(2);
    assert_eq!(session.decks.len(), 2);
    assert_eq!(session.mixer.channels.len(), 2);
}

#[test]
fn session_master_deck_is_the_first_marked() {
    let mut session = SessionState::new(3);
    assert!(session.master_deck().is_none());
    session.decks[2].is_master = true;
    session.decks[2].bpm = 128.0f64.to_bits();
    session.decks[1].is_master = true;
    assert!(std::ptr::eq(session.master_deck().unwrap(), &session.decks[1]));
    assert!(session.deck(3).is_none());
    assert_eq!(session.deck(2).unwrap().bpm, 128.0f64.to_bits());
    assert_eq!(session.energy_level, 5);
}

#[test]
fn mixer_starts_centred() {
    let mixer = MixerState::new(2);
    assert_eq!(f64::from_bits(mixer.master_volume), 1.0);
    assert_eq!(f64::from_bits(mixer.cue_mix), 0.5);
    assert_eq!(f64::from_bits(mixer.crossfader), 0.0);
    let ch = mixer.channel(1).unwrap();
    assert_eq!(*ch, ChannelState::default());
    assert_eq!(f64::from_bits(ch.filter), 0.5);
    assert!(mixer.channel(2).is_none());
}

#[test]
fn action_listing_goes_tier_by_tier() {
    let space = ActionSpace::new(vec![Tier::Transport, Tier::FX], SafetyConfig::default());
    let listing = action_listing(&space);
    assert_eq!(listing.len(), 21);
    assert_eq!(listing[0].name, "PLAY_A");
    assert_eq!(listing[0].tier_name, "Transport");
    assert_eq!(listing[0].deck, Some("A".to_string()));
    assert!(listing[0].enabled);
    let loop_entry = listing.iter().find(|i| i.name == "LOOP_4_A").unwrap();
    assert!(!loop_entry.enabled);
    assert_eq!(loop_entry.tier, 1);
    let last = &listing[20];
    assert_eq!(last.name, "EQ_LOW_A");
    assert_eq!(last.tier, 5);
    assert!(!last.quantized);
    let lib = listing.iter().find(|i| i.name == "LIB_SEARCH").unwrap();
    assert_eq!(lib.deck, None);
    assert_eq!(lib.cooldown_beats, 8);
}

#[test]
fn mutable_access_to_decks_and_channels() {
    let mut session = SessionState::new(2);
    if let Some(d) = session.deck_mut(1) {
        d.is_playing = true;
    }
    assert!(session.decks[1].is_playing);
    assert!(session.deck_mut(2).is_none());
    if let Some(c) = session.mixer.channel_mut(0) {
        c.cue_enabled = true;
    }
    assert!(session.mixer.channels[0].cue_enabled);
    assert!(session.mixer.channel_mut(5).is_none());
}

#[test]
fn tiers_compare_by_number() {
    let all = [Tier::Transport, Tier::Looping, Tier::Cues, Tier::FX, Tier::Library, Tier::Blend];
    for a in all {
        for b in all {
            assert_eq!(a < b, a.number() < b.number());
            assert_eq!(a.partial_cmp(&b), a.number().partial_cmp(&b.number()));
            assert_eq!(a.cmp(&b), a.number().cmp(&b.number()));
        }
    }
}
