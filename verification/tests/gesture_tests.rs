use cc_dj::gesture::{GestureCommandMapping, GestureType};

#[test]
fn test_gesture_type_roundtrip() {
    for gesture in [GestureType::SwipeLeft, GestureType::Circle, GestureType::Custom(42)] {
        let name = gesture.name();
        let parsed = GestureType::from_name(&name);
        assert_eq!(parsed, Some(gesture));
    }
}

#[test]
fn test_gesture_command_mapping() {
    let mapping = GestureCommandMapping::with_defaults();
    assert!(!mapping.is_empty());
    assert!(mapping.get_command(0).is_some());
    assert_eq!(mapping.get_command(0), Some("swipe_left_action"));
}

#[test]
fn test_mapping_operations() {
    let mut mapping = GestureCommandMapping::new();
    assert!(mapping.is_empty());

    mapping.add(42, "test_command".to_string());
    assert_eq!(mapping.len(), 1);
    assert_eq!(mapping.get_command(42), Some("test_command"));
    assert_eq!(mapping.get_command(99), None);
}

use cc_dj::error::DJError;
use cc_dj::gesture::{GestureDatabase, GestureTrainer, MotionDataPoint, RecordedGesture, TrainerState};

fn point(t: u64) -> MotionDataPoint {
    MotionDataPoint::new(t, [0.0f32.to_bits(); 3], [0.0f32.to_bits(); 3])
}

#[test]
fn test_database_add_get() {
    let mut db = GestureDatabase::new();

    let gesture = RecordedGesture::new(GestureType::SwipeLeft, vec![point(0)]);

    db.add(gesture);

    assert_eq!(db.sample_count(), 1);
    assert_eq!(db.sample_count_for(GestureType::SwipeLeft), 1);
    assert_eq!(db.get(GestureType::SwipeLeft).len(), 1);
}

#[test]
fn test_database_gesture_types() {
    let mut db = GestureDatabase::new();

    db.add(RecordedGesture::new(GestureType::SwipeLeft, vec![]));
    db.add(RecordedGesture::new(GestureType::Circle, vec![]));

    let types = db.gesture_types();
    assert_eq!(types.len(), 2);
}

#[test]
fn test_trainer_lifecycle() {
    let mut trainer = GestureTrainer::new().with_min_duration(0);

    assert_eq!(trainer.state(), TrainerState::Idle);

    trainer.start_recording(GestureType::SwipeLeft).unwrap();
    assert_eq!(trainer.state(), TrainerState::Recording);

    trainer.add_data(point(0)).unwrap();
    trainer.add_data(MotionDataPoint::new(100, [1.0f32.to_bits(); 3], [0.0f32.to_bits(); 3])).unwrap();

    let gesture = trainer.stop_recording().unwrap();
    assert_eq!(gesture.gesture_type, GestureType::SwipeLeft);
    assert_eq!(gesture.len(), 2);
    assert_eq!(trainer.state(), TrainerState::Idle);
}

#[test]
fn test_trainer_cancel() {
    let mut trainer = GestureTrainer::new();

    trainer.start_recording(GestureType::Circle).unwrap();
    trainer.cancel_recording();

    assert_eq!(trainer.state(), TrainerState::Idle);
    assert_eq!(trainer.recorded_points(), 0);
}

#[test]
fn recorded_gesture_duration_spans_its_points() {
    let g = RecordedGesture::new(GestureType::Pinch, vec![point(250), point(300), point(1250)]);
    assert_eq!(g.duration_ms, 1000);
    assert!(!g.is_empty());
    let g = RecordedGesture::new(GestureType::Pinch, vec![point(900), point(100)]);
    assert_eq!(g.duration_ms, 0);
    assert!(RecordedGesture::new(GestureType::Pinch, vec![]).is_empty());
}

#[test]
fn trainer_refuses_out_of_order_calls() {
    let mut trainer = GestureTrainer::default();
    assert_eq!(trainer.add_data(point(0)), Err(DJError::GestureError("Not recording".to_string())));
    assert!(matches!(trainer.stop_recording(), Err(DJError::GestureError(m)) if m == "Not recording"));
    trainer.start_recording(GestureType::Fist).unwrap();
    assert_eq!(
        trainer.start_recording(GestureType::Fist),
        Err(DJError::GestureError("Already recording".to_string()))
    );
    assert_eq!(trainer.state(), TrainerState::Recording);
}

#[test]
fn trainer_time_limits() {
    let mut trainer = GestureTrainer::new();
    trainer.start_recording(GestureType::Point).unwrap();
    assert_eq!(trainer.add_data_after(point(0), Some(100)), Ok(()));
    assert_eq!(trainer.recorded_points(), 1);
    // Too short: back to idle, the points kept.
    assert!(matches!(trainer.stop_recording_after(Some(150)), Err(DJError::GestureError(m)) if m == "Recording too short"));
    assert_eq!(trainer.state(), TrainerState::Idle);
    assert_eq!(trainer.recorded_points(), 1);

    let mut trainer = GestureTrainer::new().with_max_duration(1000);
    trainer.start_recording(GestureType::Point).unwrap();
    trainer.add_data_after(point(0), Some(10)).unwrap();
    // Past the maximum: the point is dropped and the recording stopped.
    assert_eq!(trainer.add_data_after(point(5), Some(1001)), Ok(()));
    assert_eq!(trainer.state(), TrainerState::Idle);
    assert_eq!(trainer.recorded_points(), 0);

    let mut trainer = GestureTrainer::new();
    trainer.start_recording(GestureType::Point).unwrap();
    trainer.add_data_after(point(10), Some(0)).unwrap();
    trainer.add_data_after(point(60), Some(50)).unwrap();
    let g = trainer.stop_recording_after(Some(200)).unwrap();
    assert_eq!(g.gesture_type, GestureType::Point);
    assert_eq!(g.duration_ms, 50);
    assert_eq!(trainer.recording_duration_ms(), 0);
}

#[test]
fn database_groups_by_type() {
    let mut db = GestureDatabase::with_storage("/tmp/gestures".to_string());
    assert_eq!(db.storage_path(), Some(&"/tmp/gestures".to_string()));
    GestureTrainer::save_to_database(RecordedGesture::new(GestureType::Circle, vec![point(1)]), &mut db);
    db.add(RecordedGesture::new(GestureType::SwipeUp, vec![]));
    db.add(RecordedGesture::new(GestureType::Circle, vec![point(2), point(3)]));
    assert_eq!(db.gesture_types(), vec![GestureType::Circle, GestureType::SwipeUp]);
    assert_eq!(db.sample_count(), 3);
    assert_eq!(db.sample_count_for(GestureType::Circle), 2);
    assert_eq!(db.get(GestureType::Circle)[1].data_points.len(), 2);
    db.clear(GestureType::Circle);
    assert_eq!(db.gesture_types(), vec![GestureType::SwipeUp]);
    assert_eq!(db.sample_count(), 1);
    assert!(db.get(GestureType::Circle).is_empty());
    db.clear_all();
    assert_eq!(db.sample_count(), 0);
    assert_eq!(db.storage_path(), Some(&"/tmp/gestures".to_string()));
}

use cc_dj::config::DJConfig;
use cc_dj::gesture::{DJGestureRecognizer, GestureRecognizer, RecognizerConfig};
use std::sync::Arc;

#[test]
fn test_recognizer_creation() {
    let db = GestureDatabase::new();
    let recognizer = GestureRecognizer::with_database(db);
    assert_eq!(recognizer.buffer_len(), 0);
}

#[test]
fn test_recognizer_buffer() {
    let db = GestureDatabase::new();
    let mut recognizer = GestureRecognizer::with_database(db);

    for i in 0..50 {
        recognizer.push_sample(point(i * 10));
    }

    assert_eq!(recognizer.buffer_len(), 50);
}

#[test]
fn test_dj_recognizer_creation() {
    let config = Arc::new(DJConfig::default());
    let _recognizer = DJGestureRecognizer::new(config);
}

#[test]
fn recognizer_window_keeps_the_latest_points() {
    let config = RecognizerConfig { buffer_size: 3, confidence_threshold: 0.5f32.to_bits(), min_samples: 2 };
    let mut recognizer = GestureRecognizer::new(config, GestureDatabase::new());
    assert!(!recognizer.push_sample(point(10)));
    assert!(recognizer.push_sample(point(20)));
    assert!(recognizer.push_sample(point(30)));
    assert!(recognizer.push_sample(point(40)));
    let stamps: Vec<u64> = recognizer.window_points().iter().map(|p| p.timestamp_ms).collect();
    assert_eq!(stamps, vec![20, 30, 40]);
    assert_eq!(recognizer.window_duration(), Some(20));

    let result = recognizer.accept(GestureType::Circle, 0.9f32.to_bits());
    assert_eq!(result.duration_ms, 20);
    assert_eq!(result.gesture_type, GestureType::Circle);
    assert_eq!(recognizer.buffer_len(), 0);
    assert_eq!(recognizer.last_recognition(), Some(&result));

    recognizer.push_sample(point(50));
    recognizer.push_sample(point(5));
    assert_eq!(recognizer.window_duration(), None);
    recognizer.clear();
    assert_eq!(recognizer.last_recognition(), None);
    assert_eq!(recognizer.window_duration(), Some(0));
}

#[test]
fn recognizer_with_no_buffer_keeps_nothing() {
    let config = RecognizerConfig { buffer_size: 0, confidence_threshold: 0, min_samples: 0 };
    let mut recognizer = GestureRecognizer::new(config, GestureDatabase::new());
    assert!(recognizer.push_sample(point(1)));
    assert_eq!(recognizer.buffer_len(), 0);
    assert_eq!(RecognizerConfig::default().buffer_size, 100);
    assert_eq!(f32::from_bits(RecognizerConfig::default().confidence_threshold), 0.7);
}
