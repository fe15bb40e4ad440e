use cc_dj::control::validate_key;

#[test]
fn test_key_validation() {
    // Valid keys
    assert!(validate_key("Z").is_ok());
    assert!(validate_key("1").is_ok());
    assert!(validate_key(",").is_ok());

    // Invalid keys — injection attempts
    assert!(validate_key("").is_err());
    assert!(validate_key("abc").is_err()); // too long
    assert!(validate_key("Z\" & do shell script \"evil").is_err());
}

use cc_dj::config::{ActionMapping, SequenceStep, SoftwareConfig};
use cc_dj::control::{
    escape_applescript, midi_note_on, modifier_clause, plan_execute, rekordbox_key_script, select_midi_port,
    serato_key_script, using_clause, BridgeStep, ChainExecutor,
};
use cc_dj::error::DJError;

fn config_with(name: &str, mapping: ActionMapping) -> Option<SoftwareConfig> {
    Some(SoftwareConfig { mode: "keyboard".to_string(), midi_port: None, map: vec![(name.to_string(), mapping)] })
}

#[test]
fn execute_with_action_mapping_plans_the_key() {
    let config = config_with("PLAY_A", ActionMapping::Key { key: "Z".to_string(), modifiers: vec![] });
    let steps = plan_execute(&config, false, "PLAY_A");
    assert_eq!(steps.len(), 1);
    assert!(matches!(&steps[0], BridgeStep::Key { key, modifiers } if key == "Z" && modifiers.is_empty()));
    // In simulation mode nothing reaches the software.
    assert!(plan_execute(&config, true, "PLAY_A").is_empty());
    // Unmapped actions and missing configuration do nothing.
    assert!(plan_execute(&config, false, "SYNC_A").is_empty());
    assert!(plan_execute(&None, false, "PLAY_A").is_empty());
}

#[test]
fn sequences_pause_only_after_delayed_steps() {
    let steps = vec![
        SequenceStep { key: "a".to_string(), modifiers: vec!["shift".to_string()], delay_ms: 20 },
        SequenceStep { key: "b".to_string(), modifiers: vec![], delay_ms: 0 },
    ];
    let config = config_with("COMBO", ActionMapping::Sequence { steps });
    let plan = plan_execute(&config, false, "COMBO");
    assert_eq!(plan.len(), 3);
    assert!(matches!(&plan[0], BridgeStep::Key { key, modifiers } if key == "a" && modifiers == &vec!["shift".to_string()]));
    assert!(matches!(&plan[1], BridgeStep::Pause { ms: 20 }));
    assert!(matches!(&plan[2], BridgeStep::Key { key, .. } if key == "b"));
}

#[test]
fn midi_mappings_plan_a_note() {
    let config = config_with("CUE_A", ActionMapping::Midi { channel: 2, note: 60, velocity: 100 });
    let plan = plan_execute(&config, false, "CUE_A");
    assert_eq!(plan.len(), 1);
    assert!(matches!(&plan[0], BridgeStep::Midi { channel: 2, note: 60, velocity: 100 }));
}

#[test]
fn midi_note_on_bytes() {
    assert_eq!(midi_note_on(0, 60, 127), [0x90, 60, 127]);
    assert_eq!(midi_note_on(17, 200, 255), [0x91, 72, 127]);
    assert_eq!(midi_note_on(15, 0, 0), [0x9F, 0, 0]);
}

#[test]
fn applescript_text() {
    assert_eq!(escape_applescript(r#"a"b\c"#), r#"a\"b\\c"#);
    assert_eq!(modifier_clause("CMD"), Some("command down"));
    assert_eq!(modifier_clause("Option"), Some("option down"));
    assert_eq!(modifier_clause("hyper"), None);
    let mods = vec!["shift".to_string(), "hyper".to_string(), "Cmd".to_string()];
    assert_eq!(using_clause(&mods), "shift down, command down");
    assert_eq!(using_clause(&vec![]), "");
    assert_eq!(
        serato_key_script("Z", &vec!["cmd".to_string()]).unwrap(),
        r#"tell application "System Events" to keystroke "z" using {command down}"#
    );
    assert_eq!(serato_key_script("Q", &vec![]).unwrap(), r#"tell application "System Events" to keystroke "q""#);
    assert_eq!(
        serato_key_script("\\", &vec!["shift".to_string()]).unwrap(),
        r#"tell application "System Events" to keystroke "\\" using {shift down}"#
    );
    assert_eq!(
        serato_key_script("a\" & say", &vec![]),
        Err(DJError::ExecutionError("Invalid key value: \"a\\\" & say\"".to_string()))
    );
    assert_eq!(
        rekordbox_key_script("\"", &vec!["ctrl".to_string(), "alt".to_string()]).unwrap(),
        "tell application \"rekordbox\" to activate\ntell application \"System Events\" to keystroke \"\\\"\" using {control down, option down}"
    );
    assert_eq!(
        rekordbox_key_script("abc", &vec![]),
        Err(DJError::ExecutionError("Invalid key value: \"abc\"".to_string()))
    );
}

#[test]
fn midi_port_choice() {
    let names = vec![Some("IAC Driver".to_string()), None, Some("Rekordbox MIDI In".to_string())];
    assert_eq!(select_midi_port(&names, "rekordbox"), Some(2));
    assert_eq!(select_midi_port(&names, "serato"), Some(0));
    assert_eq!(select_midi_port(&vec![], "serato"), None);
}

#[test]
fn chain_pauses_between_actions() {
    let executor = ChainExecutor::new();
    assert_eq!(executor.delay_ms(), 50);
    let executor = executor.with_delay(10);
    assert_eq!(executor.pause_after(0, 2), Some(10));
    assert_eq!(executor.pause_after(1, 2), None);
    assert_eq!(executor.pause_after(0, 0), None);
    let executor = ChainExecutor::default().with_delay(0);
    assert_eq!(executor.pause_after(0, 3), None);
}
