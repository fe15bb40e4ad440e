use cc_dj::auto::{
    placeholder_bpm_offset, placeholder_energy, placeholder_hash, placeholder_key, recommendation_reason,
    style_for_section, AnalysisSource, AutoMixer, AutoMixerState, EnergyCurve, MixStrategy, MixerFacts, MixerStep,
    SectionType, TrackAnalyzer, TransitionAdvisor, TransitionRecommendation, TransitionStyle,
};
use cc_dj::error::DJError;

#[test]
fn test_harmonic_compatibility() {
    let analyzer = TrackAnalyzer::new();

    // Same key
    assert!(analyzer.are_compatible("8A", "8A"));
    assert!(analyzer.are_compatible("8a", "8A")); // Case insensitive

    // Adjacent keys
    assert!(analyzer.are_compatible("8A", "7A"));
    assert!(analyzer.are_compatible("8A", "9A"));

    // Wrap around (1 and 12 are adjacent)
    assert!(analyzer.are_compatible("1A", "12A"));
    assert!(analyzer.are_compatible("12B", "1B"));

    // Relative major/minor
    assert!(analyzer.are_compatible("8A", "8B"));

    // Non-compatible
    assert!(!analyzer.are_compatible("8A", "3A"));
    assert!(!analyzer.are_compatible("8A", "5B"));
}

#[test]
fn test_compatible_keys() {
    let analyzer = TrackAnalyzer::new();

    let keys = analyzer.compatible_keys("8A");
    assert!(keys.contains(&"8A".to_string())); // Same
    assert!(keys.contains(&"8B".to_string())); // Relative
    assert!(keys.contains(&"7A".to_string())); // Adjacent -1
    assert!(keys.contains(&"9A".to_string())); // Adjacent +1

    // Test wrap around
    let keys = analyzer.compatible_keys("1A");
    assert!(keys.contains(&"12A".to_string()));
    assert!(keys.contains(&"2A".to_string()));
}

#[test]
fn test_deterministic_placeholder() {
    // Same path should give same placeholder values
    let h1 = placeholder_hash("test.mp3");
    let h2 = placeholder_hash("test.mp3");
    assert_eq!(placeholder_bpm_offset(h1), placeholder_bpm_offset(h2));
    assert_eq!(placeholder_key(h1), placeholder_key(h2));
    assert_eq!(placeholder_energy(h1), placeholder_energy(h2));

    // Different paths should give different values
    let h3 = placeholder_hash("other.mp3");
    let different = placeholder_bpm_offset(h1) != placeholder_bpm_offset(h3)
        || placeholder_key(h1) != placeholder_key(h3)
        || placeholder_energy(h1) != placeholder_energy(h3);
    assert!(different);
}

#[test]
fn test_analysis_source() {
    assert_eq!(AnalysisSource::default(), AnalysisSource::Placeholder);
}

#[test]
fn test_auto_mixer_lifecycle() {
    let mut mixer = AutoMixer::default_strategy();

    assert_eq!(mixer.state(), AutoMixerState::Idle);

    mixer.start();
    assert_eq!(mixer.state(), AutoMixerState::Playing);

    mixer.pause();
    assert_eq!(mixer.state(), AutoMixerState::Paused);

    mixer.resume();
    assert_eq!(mixer.state(), AutoMixerState::Playing);

    mixer.stop();
    assert_eq!(mixer.state(), AutoMixerState::Idle);
}

#[test]
fn test_queue_management() {
    let mut mixer = AutoMixer::default_strategy();

    mixer.add_to_queue("/path/to/track1.mp3".to_string());
    mixer.add_to_queue("/path/to/track2.mp3".to_string());

    assert_eq!(mixer.queue().len(), 2);

    mixer.clear_queue();
    assert!(mixer.queue().is_empty());
}

#[test]
fn test_default_strategy() {
    let strategy = MixStrategy::default();
    assert_eq!(f64::from_bits(strategy.transition_duration_beats), 16.0);
    assert!(strategy.auto_sync);
    assert!(strategy.harmonic_mixing);
}

#[test]
fn test_preset_strategies() {
    let minimal = MixStrategy::minimal();
    assert_eq!(f64::from_bits(minimal.transition_duration_beats), 4.0);
    assert!(!minimal.auto_sync);

    let club = MixStrategy::club();
    assert_eq!(f64::from_bits(club.transition_duration_beats), 32.0);
    assert_eq!(club.energy_curve, EnergyCurve::Wave);

    let lounge = MixStrategy::lounge();
    assert_eq!(f64::from_bits(lounge.transition_duration_beats), 64.0);
}

#[test]
fn strategy_builders_change_one_setting() {
    let s = MixStrategy::new("warmup".to_string())
        .with_transition_duration(8.0f64.to_bits())
        .with_auto_sync(false)
        .with_harmonic_mixing(false)
        .with_energy_curve(EnergyCurve::Climax);
    assert_eq!(s.name, "warmup");
    assert_eq!(f64::from_bits(s.transition_duration_beats), 8.0);
    assert!(!s.auto_sync);
    assert!(!s.harmonic_mixing);
    assert_eq!(s.energy_curve, EnergyCurve::Climax);
    assert_eq!(s.preferred_styles, vec![TransitionStyle::Fade, TransitionStyle::EqSwap]);
    assert_eq!(MixStrategy::minimal().preferred_styles, vec![TransitionStyle::Cut]);
    assert_eq!(MixStrategy::lounge().preferred_styles, vec![TransitionStyle::Fade, TransitionStyle::LoopFade]);
}

#[test]
fn compatibility_is_symmetric_on_examples() {
    let analyzer = TrackAnalyzer::new();
    let keys = ["1A", "12A", "8B", "5A", "8A", "bogus", "13A", " 7a "];
    for a in keys.iter() {
        for b in keys.iter() {
            assert_eq!(analyzer.are_compatible(a, b), analyzer.are_compatible(b, a));
        }
        assert!(analyzer.are_compatible(a, a));
    }
}

#[test]
fn unknown_keys_mix_with_anything() {
    let analyzer = TrackAnalyzer::new();
    assert!(analyzer.are_compatible("13A", "1B"));
    assert!(analyzer.are_compatible("8C", "3A"));
    assert!(analyzer.are_compatible("", "3A"));
    assert!(analyzer.are_compatible("8A", "0A"));
    assert!(analyzer.are_compatible("-8A", "3A"));
    assert!(!analyzer.are_compatible("+8A", "3A"));
    assert!(analyzer.are_compatible(" 08a\t", "9A"));
}

#[test]
fn compatible_keys_in_order() {
    let analyzer = TrackAnalyzer::new();
    assert_eq!(analyzer.compatible_keys("12B"), vec!["12B", "12A", "11B", "1B"]);
    assert_eq!(analyzer.compatible_keys("1a"), vec!["1A", "1B", "12A", "2A"]);
    assert_eq!(analyzer.compatible_keys("+8A"), vec!["8A", "8B", "7A", "9A"]);
    assert!(analyzer.compatible_keys("zz").is_empty());
    assert!(analyzer.compatible_keys("256A").is_empty());
    for key in analyzer.compatible_keys("5B") {
        assert!(analyzer.are_compatible("5B", &key));
    }
}

#[test]
fn reading_a_key_that_ends_in_a_wide_character_is_refused() {
    let analyzer = TrackAnalyzer::new();
    assert_eq!(analyzer.try_are_compatible("1é", "8A"), None);
    assert_eq!(analyzer.try_are_compatible("8A", "1é"), None);
    assert_eq!(analyzer.try_are_compatible("zz", "1é"), Some(true));
    assert_eq!(analyzer.try_are_compatible("8A", "3A"), Some(false));
    assert_eq!(analyzer.try_compatible_keys("é"), None);
    assert_eq!(analyzer.try_compatible_keys("2A"), Some(vec!["2A".to_string(), "2B".to_string(), "1A".to_string(), "3A".to_string()]));
}

#[test]
fn placeholder_values_for_known_paths() {
    let h = placeholder_hash("test.mp3");
    assert_eq!(h, 766);
    assert_eq!(placeholder_key(h), "8A");
    assert_eq!(placeholder_energy(h), 9);
    assert_eq!(placeholder_bpm_offset(h), 6);

    let h = placeholder_hash("other.mp3");
    assert_eq!(h, 864);
    assert_eq!(placeholder_key(h), "10A");
    assert_eq!(placeholder_energy(h), 3);
    assert_eq!(placeholder_bpm_offset(h), 24);

    assert_eq!(placeholder_hash(""), 0);
    assert_eq!(placeholder_key(41), "2B");
}

#[test]
fn analyzer_paths_and_missing_analysis() {
    let analyzer = TrackAnalyzer::new();
    assert_eq!(analyzer.sidecar_path("a/b.mp3"), "a/b.mp3.analysis.json");
    assert_eq!(analyzer.cache_path("b.mp3"), None);
    assert_eq!(analyzer.missing_analysis_error("x.mp3"), None);
    let (lo, hi) = analyzer.bpm_range();
    assert_eq!((f64::from_bits(lo), f64::from_bits(hi)), (60.0, 200.0));

    let analyzer = TrackAnalyzer::new().with_cache_dir("/cache".to_string()).with_placeholder(false);
    assert_eq!(analyzer.cache_path("b.mp3"), Some("/cache/b.mp3.analysis.json".to_string()));
    assert_eq!(
        analyzer.missing_analysis_error("nonexistent.mp3"),
        Some(DJError::ConfigError(
            "No analysis found for 'nonexistent.mp3'. Generate analysis JSON using external tools (Essentia, librosa, or DJ software) and save as 'nonexistent.mp3.analysis.json'".to_string()
        ))
    );
    let analyzer = analyzer.with_bpm_range(70.0f64.to_bits(), 180.0f64.to_bits());
    assert_eq!(analyzer.bpm_range(), (70.0f64.to_bits(), 180.0f64.to_bits()));
}

#[test]
fn transition_style_and_reason() {
    assert_eq!(style_for_section(Some(SectionType::Drop)), TransitionStyle::EqSwap);
    assert_eq!(style_for_section(Some(SectionType::Breakdown)), TransitionStyle::Fade);
    assert_eq!(style_for_section(Some(SectionType::Outro)), TransitionStyle::Fade);
    assert_eq!(style_for_section(Some(SectionType::Intro)), TransitionStyle::Cut);
    assert_eq!(style_for_section(None), TransitionStyle::Cut);
    assert_eq!(
        recommendation_reason(Some(SectionType::Drop), TransitionStyle::EqSwap),
        "Transition at Drop section using eqswap style"
    );
    assert_eq!(recommendation_reason(None, TransitionStyle::Cut), "Transition at unknown section using cut style");
    assert_eq!(
        recommendation_reason(Some(SectionType::Breakdown), TransitionStyle::LoopFade),
        "Transition at Breakdown section using loopfade style"
    );
}

#[test]
fn advisor_timings() {
    let advisor = TransitionAdvisor::new();
    assert_eq!(advisor.timings(), (8.0f64.to_bits(), 16.0f64.to_bits()));
    let advisor = advisor.with_min_lead_time(4.0f64.to_bits());
    assert_eq!(advisor.timings(), (4.0f64.to_bits(), 16.0f64.to_bits()));
}

fn facts(has_outgoing: bool, has_incoming: bool, near_end: bool, reached_start: bool, finished: bool) -> MixerFacts {
    MixerFacts { has_outgoing, has_incoming, near_end, reached_start, finished }
}

fn recommendation() -> TransitionRecommendation {
    TransitionRecommendation {
        start_in_beats: 8.0f64.to_bits(),
        duration_beats: 16.0f64.to_bits(),
        style: TransitionStyle::Fade,
        confidence: 0.9f32.to_bits(),
        reason: "Transition at Outro section using fade style".to_string(),
    }
}

#[test]
fn mixer_goes_through_a_transition() {
    let mut mixer = AutoMixer::new(MixStrategy::club());
    assert_eq!(mixer.advance(facts(true, true, true, true, true)), MixerStep::Wait);
    assert_eq!(mixer.state(), AutoMixerState::Idle);

    mixer.start();
    assert_eq!(mixer.advance(facts(true, true, false, false, false)), MixerStep::Wait);
    assert_eq!(mixer.state(), AutoMixerState::Playing);
    assert_eq!(mixer.advance(facts(true, true, true, false, false)), MixerStep::Wait);
    assert_eq!(mixer.state(), AutoMixerState::Preparing);

    // Only one deck: nothing to recommend, nothing to wait for.
    assert_eq!(mixer.advance(facts(true, false, true, true, false)), MixerStep::Wait);
    assert_eq!(mixer.state(), AutoMixerState::Preparing);

    assert_eq!(mixer.advance(facts(true, true, true, false, false)), MixerStep::Recommend);
    assert_eq!(mixer.state(), AutoMixerState::Preparing);
    mixer.set_recommendation(recommendation());
    assert!(mixer.current_recommendation().is_some());

    assert_eq!(mixer.advance(facts(true, true, true, false, false)), MixerStep::Wait);
    assert_eq!(mixer.state(), AutoMixerState::Preparing);
    assert_eq!(mixer.advance(facts(true, true, true, true, false)), MixerStep::Wait);
    assert_eq!(mixer.state(), AutoMixerState::Transitioning);

    mixer.pause();
    assert_eq!(mixer.advance(facts(true, true, true, true, true)), MixerStep::Wait);
    assert_eq!(mixer.state(), AutoMixerState::Paused);
    mixer.resume();
    assert_eq!(mixer.state(), AutoMixerState::Playing);
    assert!(mixer.current_recommendation().is_some());

    mixer.stop();
    assert_eq!(mixer.state(), AutoMixerState::Idle);
    assert!(mixer.current_recommendation().is_none());
}

#[test]
fn transition_completes_when_outgoing_deck_runs_out() {
    let mut mixer = AutoMixer::default();
    mixer.start();
    mixer.advance(facts(true, true, true, false, false));
    mixer.set_recommendation(recommendation());
    mixer.advance(facts(true, true, true, true, false));
    assert_eq!(mixer.state(), AutoMixerState::Transitioning);
    assert_eq!(mixer.advance(facts(true, true, true, true, false)), MixerStep::Wait);
    assert_eq!(mixer.state(), AutoMixerState::Transitioning);
    assert_eq!(mixer.advance(facts(true, true, true, true, true)), MixerStep::Wait);
    assert_eq!(mixer.state(), AutoMixerState::Playing);
    assert!(mixer.current_recommendation().is_none());
    assert_eq!(mixer.strategy().name, "default");
}

#[test]
fn pause_leaves_an_idle_mixer_idle() {
    let mut mixer = AutoMixer::default_strategy().with_strategy(MixStrategy::minimal());
    mixer.pause();
    assert_eq!(mixer.state(), AutoMixerState::Idle);
    mixer.resume();
    assert_eq!(mixer.state(), AutoMixerState::Idle);
    assert_eq!(mixer.strategy().name, "minimal");
}
