//! Gesture types, the gesture-to-command mapping, the gesture database and the
//! gesture trainer.
//!
//! Sensor readings are carried as the IEEE-754 bit pattern of the `f32` they
//! stand for; the logic here reads only timestamps and gesture labels.

use vstd::prelude::*;
use std::sync::Arc;
use crate::config::DJConfig;
use crate::error::DJError;
use crate::decimal::{decimal, decimal_chars, lemma_parse_decimal, parse_unsigned, parse_unsigned_chars};
use crate::text::{chars_of, has_prefix, owned, starts_with, str_eq, string_from_chars};

verus! {

broadcast use vstd::std_specs::hash::group_hash_axioms;

/// Types of gestures that can be recognized.
#[derive(Debug, Clone, Copy, PartialEq, Eq, Hash, Structural)]
pub enum GestureType {
    /// Hand swipe left.
    SwipeLeft,
    /// Hand swipe right.
    SwipeRight,
    /// Hand swipe up.
    SwipeUp,
    /// Hand swipe down.
    SwipeDown,
    /// Hand raised.
    HandRaise,
    /// Hand lowered.
    HandLower,
    /// Circular motion.
    Circle,
    /// Pointing gesture.
    Point,
    /// Fist/grab gesture.
    Fist,
    /// Open palm.
    OpenPalm,
    /// Two-finger pinch.
    Pinch,
    /// Custom/learned gesture.
    Custom(u32),
}

/// The name of a gesture: a fixed word, or `custom_` and the decimal label.
pub open spec fn gesture_name(g: GestureType) -> Seq<char> {
    match g {
        GestureType::SwipeLeft => "swipe_left"@,
        GestureType::SwipeRight => "swipe_right"@,
        GestureType::SwipeUp => "swipe_up"@,
        GestureType::SwipeDown => "swipe_down"@,
        GestureType::HandRaise => "hand_raise"@,
        GestureType::HandLower => "hand_lower"@,
        GestureType::Circle => "circle"@,
        GestureType::Point => "point"@,
        GestureType::Fist => "fist"@,
        GestureType::OpenPalm => "open_palm"@,
        GestureType::Pinch => "pinch"@,
        GestureType::Custom(id) => "custom_"@ + decimal(id as nat),
    }
}

/// The gesture a name stands for: one of the fixed words, or `custom_` followed by
/// what `u32::from_str` accepts.
pub open spec fn gesture_from_name(s: Seq<char>) -> Option<GestureType> {
    if s == "swipe_left"@ {
        Some(GestureType::SwipeLeft)
    } else if s == "swipe_right"@ {
        Some(GestureType::SwipeRight)
    } else if s == "swipe_up"@ {
        Some(GestureType::SwipeUp)
    } else if s == "swipe_down"@ {
        Some(GestureType::SwipeDown)
    } else if s == "hand_raise"@ {
        Some(GestureType::HandRaise)
    } else if s == "hand_lower"@ {
        Some(GestureType::HandLower)
    } else if s == "circle"@ {
        Some(GestureType::Circle)
    } else if s == "point"@ {
        Some(GestureType::Point)
    } else if s == "fist"@ {
        Some(GestureType::Fist)
    } else if s == "open_palm"@ {
        Some(GestureType::OpenPalm)
    } else if s == "pinch"@ {
        Some(GestureType::Pinch)
    } else if has_prefix(s, "custom_"@) {
        match parse_unsigned(s.skip(7), 0xffff_ffff) {
            Some(v) => Some(GestureType::Custom(v as u32)),
            None => None,
        }
    } else {
        None
    }
}

impl GestureType {
    /// Returns the gesture name.
    pub fn name(&self) -> (r: String)
        ensures
            r@ == gesture_name(*self),
    {
        match self {
            GestureType::SwipeLeft => owned("swipe_left"),
            GestureType::SwipeRight => owned("swipe_right"),
            GestureType::SwipeUp => owned("swipe_up"),
            GestureType::SwipeDown => owned("swipe_down"),
            GestureType::HandRaise => owned("hand_raise"),
            GestureType::HandLower => owned("hand_lower"),
            GestureType::Circle => owned("circle"),
            GestureType::Point => owned("point"),
            GestureType::Fist => owned("fist"),
            GestureType::OpenPalm => owned("open_palm"),
            GestureType::Pinch => owned("pinch"),
            GestureType::Custom(id) => {
                let mut s = owned("custom_");
                let digits = string_from_chars(decimal_chars(*id));
                s.append(digits.as_str());
                s
            },
        }
    }

    /// Creates from a name string.
    pub fn from_name(name: &str) -> (r: Option<GestureType>)
        ensures
            r == gesture_from_name(name@),
    {
        if str_eq(name, "swipe_left") {
            Some(GestureType::SwipeLeft)
        } else if str_eq(name, "swipe_right") {
            Some(GestureType::SwipeRight)
        } else if str_eq(name, "swipe_up") {
            Some(GestureType::SwipeUp)
        } else if str_eq(name, "swipe_down") {
            Some(GestureType::SwipeDown)
        } else if str_eq(name, "hand_raise") {
            Some(GestureType::HandRaise)
        } else if str_eq(name, "hand_lower") {
            Some(GestureType::HandLower)
        } else if str_eq(name, "circle") {
            Some(GestureType::Circle)
        } else if str_eq(name, "point") {
            Some(GestureType::Point)
        } else if str_eq(name, "fist") {
            Some(GestureType::Fist)
        } else if str_eq(name, "open_palm") {
            Some(GestureType::OpenPalm)
        } else if str_eq(name, "pinch") {
            Some(GestureType::Pinch)
        } else if starts_with(name, "custom_") {
            proof { reveal_strlit("custom_"); }
            let all = chars_of(name);
            let mut rest: Vec<char> = Vec::new();
            let mut i: usize = 7;
            while i < all.len()
                invariant
                    7 <= i <= all.len(),
                    all@ == name@,
                    rest@ == all@.subrange(7, i as int),
                decreases all.len() - i,
            {
                rest.push(all[i]);
                assert(rest@ =~= all@.subrange(7, i + 1));
                i += 1;
            }
            assert(rest@ =~= name@.skip(7));
            match parse_unsigned_chars(&rest, 0xffff_ffff) {
                Some(v) => Some(GestureType::Custom(v as u32)),
                None => None,
            }
        } else {
            None
        }
    }
}

/// A gesture's name gives the gesture back.
pub proof fn lemma_gesture_name_roundtrip(g: GestureType)
    ensures
        gesture_from_name(gesture_name(g)) == Some(g),
{
    reveal_strlit("swipe_left");
    reveal_strlit("swipe_right");
    reveal_strlit("swipe_up");
    reveal_strlit("swipe_down");
    reveal_strlit("hand_raise");
    reveal_strlit("hand_lower");
    reveal_strlit("circle");
    reveal_strlit("point");
    reveal_strlit("fist");
    reveal_strlit("open_palm");
    reveal_strlit("pinch");
    reveal_strlit("custom_");
    let names = seq![
        "swipe_left"@, "swipe_right"@, "swipe_up"@, "swipe_down"@, "hand_raise"@, "hand_lower"@,
        "circle"@, "point"@, "fist"@, "open_palm"@, "pinch"@,
    ];
    assert("swipe_left"@ != "swipe_right"@ && "swipe_left"@ != "swipe_up"@ && "swipe_left"@ != "swipe_down"@) by {
        assert("swipe_left"@.len() != "swipe_right"@.len());
        assert("swipe_left"@.len() != "swipe_up"@.len());
        assert("swipe_left"@[6] != "swipe_down"@[6]);
    }
    assert("swipe_right"@ != "swipe_up"@ && "swipe_right"@ != "swipe_down"@) by {
        assert("swipe_right"@.len() != "swipe_up"@.len());
        assert("swipe_right"@.len() != "swipe_down"@.len());
    }
    assert("swipe_up"@ != "swipe_down"@) by {
        assert("swipe_up"@.len() != "swipe_down"@.len());
    }
    assert("hand_raise"@ != "hand_lower"@) by {
        assert("hand_raise"@[5] != "hand_lower"@[5]);
    }
    assert("point"@ != "pinch"@) by {
        assert("point"@[1] != "pinch"@[1]);
    }
    assert(forall|i: int, j: int| 0 <= i < 11 && 0 <= j < 11 && names[i][0] != names[j][0] ==> names[i] != names[j]);
    if let GestureType::Custom(id) = g {
        let s = gesture_name(g);
        lemma_parse_decimal(id as nat, 0xffff_ffff);
        assert(s.skip(7) =~= decimal(id as nat));
        assert(s.subrange(0, 7) =~= "custom_"@);
        assert(s[0] == 'c');
        assert(s.len() >= 8);
        assert(s.len() != "circle"@.len());
        assert(s != "circle"@);
        assert(s[0] != "swipe_left"@[0]);
        assert(s != "swipe_left"@ && s != "swipe_right"@ && s != "swipe_up"@ && s != "swipe_down"@);
        assert(s[0] != "hand_raise"@[0]);
        assert(s != "hand_raise"@ && s != "hand_lower"@);
        assert(s[0] != "point"@[0] && s[0] != "fist"@[0] && s[0] != "open_palm"@[0]);
        assert(s != "point"@ && s != "fist"@ && s != "open_palm"@ && s != "pinch"@);
        assert(has_prefix(s, "custom_"@));
        assert(parse_unsigned(s.skip(7), 0xffff_ffff) == Some(id as nat));
    }
}

/// Mapping from gesture label ID to DJ command ID.
///
/// Use this to configure which gestures trigger which DJ actions.
#[derive(Debug, Clone)]
pub struct GestureCommandMapping {
    /// Maps gesture label ID to command ID string.
    pub mappings: std::collections::HashMap<u32, String>,
}

impl GestureCommandMapping {
    /// Creates a new empty mapping.
    pub fn new() -> (r: Self)
        ensures
            r.mappings@ == Map::<u32, String>::empty(),
    {
        GestureCommandMapping { mappings: std::collections::HashMap::new() }
    }

    /// Adds a mapping from gesture to command, replacing any earlier one for the gesture.
    pub fn add(&mut self, gesture_id: u32, command_id: String)
        ensures
            final(self).mappings@ == old(self).mappings@.insert(gesture_id, command_id),
    {
        self.mappings.insert(gesture_id, command_id);
    }

    /// Gets the command ID for a gesture.
    pub fn get_command(&self, gesture_id: u32) -> (r: Option<&str>)
        ensures
            match r {
                Some(c) => self.mappings@.contains_key(gesture_id) && c@ == self.mappings@[gesture_id]@,
                None => !self.mappings@.contains_key(gesture_id),
            },
    {
        match self.mappings.get(&gesture_id) {
            Some(c) => Some(c.as_str()),
            None => None,
        }
    }

    /// Returns the number of mappings.
    pub fn len(&self) -> (r: usize)
        ensures
            r == self.mappings@.len(),
    {
        self.mappings.len()
    }

    /// Returns true if there are no mappings.
    pub fn is_empty(&self) -> (r: bool)
        ensures
            r == (self.mappings@.len() == 0),
    {
        self.mappings.is_empty()
    }

    /// Creates a default mapping for common hand gestures: labels 0 to 9.
    pub fn with_defaults() -> (r: Self)
        ensures
            r.mappings@.len() == 10,
            forall|k: u32| #[trigger] r.mappings@.contains_key(k) <==> k < 10,
            r.mappings@[0]@ == "swipe_left_action"@,
            r.mappings@[1]@ == "swipe_right_action"@,
            r.mappings@[2]@ == "swipe_up_action"@,
            r.mappings@[3]@ == "swipe_down_action"@,
            r.mappings@[4]@ == "circle_cw_action"@,
            r.mappings@[5]@ == "circle_ccw_action"@,
            r.mappings@[6]@ == "flick_action"@,
            r.mappings@[7]@ == "shake_action"@,
            r.mappings@[8]@ == "punch_action"@,
            r.mappings@[9]@ == "raise_action"@,
    {
        let mut mapping = Self::new();
        mapping.add(0, owned("swipe_left_action"));
        mapping.add(1, owned("swipe_right_action"));
        mapping.add(2, owned("swipe_up_action"));
        mapping.add(3, owned("swipe_down_action"));
        mapping.add(4, owned("circle_cw_action"));
        mapping.add(5, owned("circle_ccw_action"));
        mapping.add(6, owned("flick_action"));
        mapping.add(7, owned("shake_action"));
        mapping.add(8, owned("punch_action"));
        mapping.add(9, owned("raise_action"));
        proof {
            let m = mapping.mappings@;
            assert(m.dom() =~= Set::new(|k: u32| k < 10));
            assert(Set::new(|k: u32| k < 10) =~= set![0u32, 1u32, 2u32, 3u32, 4u32, 5u32, 6u32, 7u32, 8u32, 9u32]);
            assert(set![0u32, 1u32, 2u32, 3u32, 4u32, 5u32, 6u32, 7u32, 8u32, 9u32].len() == 10);
        }
        mapping
    }
}

/// Joint positions from pose estimation, each as the bit patterns of three `f32`s.
#[derive(Debug, Clone)]
pub struct JointPositions {
    /// Left wrist position (x, y, z).
    pub left_wrist: Option<[u32; 3]>,
    /// Right wrist position (x, y, z).
    pub right_wrist: Option<[u32; 3]>,
    /// Left elbow position (x, y, z).
    pub left_elbow: Option<[u32; 3]>,
    /// Right elbow position (x, y, z).
    pub right_elbow: Option<[u32; 3]>,
    /// Left shoulder position (x, y, z).
    pub left_shoulder: Option<[u32; 3]>,
    /// Right shoulder position (x, y, z).
    pub right_shoulder: Option<[u32; 3]>,
    /// Head position (x, y, z).
    pub head: Option<[u32; 3]>,
}

/// A single motion data point from sensors; readings as `f32` bit patterns.
#[derive(Debug, Clone)]
pub struct MotionDataPoint {
    /// Timestamp in milliseconds.
    pub timestamp_ms: u64,
    /// Accelerometer data (x, y, z) in m/s².
    pub accelerometer: [u32; 3],
    /// Gyroscope data (x, y, z) in rad/s.
    pub gyroscope: [u32; 3],
    /// Magnetometer data (x, y, z) in μT (optional).
    pub magnetometer: Option<[u32; 3]>,
    /// Quaternion orientation (w, x, y, z) (optional).
    pub quaternion: Option<[u32; 4]>,
    /// Joint positions from pose estimation (optional).
    pub joints: Option<JointPositions>,
}

impl MotionDataPoint {
    /// Creates a new motion data point with accelerometer and gyroscope data.
    pub fn new(timestamp_ms: u64, accelerometer: [u32; 3], gyroscope: [u32; 3]) -> (r: Self)
        ensures
            r.timestamp_ms == timestamp_ms,
            r.accelerometer == accelerometer,
            r.gyroscope == gyroscope,
            r.magnetometer is None,
            r.quaternion is None,
            r.joints is None,
    {
        MotionDataPoint { timestamp_ms, accelerometer, gyroscope, magnetometer: None, quaternion: None, joints: None }
    }
}

/// The span from the first to the last timestamp of a recording, or 0 when
/// the last one is not later.
pub open spec fn recording_span(points: Seq<MotionDataPoint>) -> u64 {
    if points.len() == 0 {
        0
    } else if points.last().timestamp_ms >= points[0].timestamp_ms {
        (points.last().timestamp_ms - points[0].timestamp_ms) as u64
    } else {
        0
    }
}

/// The current UTC time in RFC 3339 form, from `chrono::Utc::now().to_rfc3339()`.
/// It depends on the clock; nothing is claimed of it.
#[verifier::external_body]
fn utc_now_rfc3339() -> String {
    chrono::Utc::now().to_rfc3339()
}

/// A recorded gesture sample for training.
#[derive(Debug, Clone)]
pub struct RecordedGesture {
    /// Gesture type/label.
    pub gesture_type: GestureType,
    /// Sequence of motion data points.
    pub data_points: Vec<MotionDataPoint>,
    /// Recording timestamp.
    pub recorded_at: String,
    /// Duration in milliseconds.
    pub duration_ms: u64,
    /// Optional metadata (key, value).
    pub metadata: Vec<(String, String)>,
}

impl RecordedGesture {
    /// Creates a new recorded gesture, stamped with the current UTC time.
    pub fn new(gesture_type: GestureType, data_points: Vec<MotionDataPoint>) -> (r: Self)
        ensures
            r.gesture_type == gesture_type,
            r.data_points == data_points,
            r.duration_ms == recording_span(data_points@),
            r.metadata@.len() == 0,
    {
        let n = data_points.len();
        let last = if n > 0 { data_points[n - 1].timestamp_ms } else { 0 };
        let first = if n > 0 { data_points[0].timestamp_ms } else { 0 };
        let duration_ms = if last >= first { last - first } else { 0 };
        RecordedGesture {
            gesture_type,
            data_points,
            recorded_at: utc_now_rfc3339(),
            duration_ms,
            metadata: Vec::new(),
        }
    }

    /// Returns the number of data points.
    pub fn len(&self) -> (r: usize)
        ensures
            r == self.data_points@.len(),
    {
        self.data_points.len()
    }

    /// Returns true if empty.
    pub fn is_empty(&self) -> (r: bool)
        ensures
            r == (self.data_points@.len() == 0),
    {
        self.data_points.len() == 0
    }
}

/// A moment in time, `std::time::Instant`, carried opaquely.
#[verifier::external_type_specification]
#[verifier::external_body]
pub struct ExInstant(std::time::Instant);

/// Calls `std::time::Instant::now()`. It reads the clock; nothing is claimed of it.
#[verifier::external_body]
fn instant_now() -> std::time::Instant {
    std::time::Instant::now()
}

/// Milliseconds since `start`, `start.elapsed().as_millis()` converted with `as u64`.
/// It reads the clock; nothing is claimed of it.
#[verifier::external_body]
fn elapsed_millis(start: &std::time::Instant) -> u64 {
    start.elapsed().as_millis() as u64
}

/// State of the gesture trainer.
#[derive(Debug, Clone, Copy, PartialEq, Eq, Structural)]
pub enum TrainerState {
    /// Idle, not recording.
    Idle,
    /// Recording a gesture.
    Recording,
    /// Processing recorded data.
    Processing,
}

/// The trainer's error messages are distinct.
proof fn lemma_trainer_messages_distinct()
    ensures
        "Not recording"@ != "Recording too short"@,
        "No gesture type set"@ != "Recording too short"@,
{
    reveal_strlit("Not recording");
    reveal_strlit("Recording too short");
    reveal_strlit("No gesture type set");
    assert("Not recording"@.len() != "Recording too short"@.len());
    assert("No gesture type set"@[0] != "Recording too short"@[0]);
}

/// Gesture trainer for learning custom gestures.
#[derive(Debug)]
pub struct GestureTrainer {
    /// Current state.
    state: TrainerState,
    /// Recording buffer.
    recording_buffer: Vec<MotionDataPoint>,
    /// Current gesture being trained.
    current_gesture: Option<GestureType>,
    /// Recording start time.
    recording_start: Option<std::time::Instant>,
    /// Maximum recording duration (ms).
    max_duration_ms: u64,
    /// Minimum recording duration (ms).
    min_duration_ms: u64,
}

/// The error a trainer reports, with its message.
pub open spec fn gesture_error(r: DJError, msg: Seq<char>) -> bool {
    r matches DJError::GestureError(m) && m@ == msg
}

impl GestureTrainer {
    /// The trainer's state.
    pub closed spec fn spec_state(&self) -> TrainerState {
        self.state
    }

    /// The points recorded so far.
    pub closed spec fn buffer(&self) -> Seq<MotionDataPoint> {
        self.recording_buffer@
    }

    /// The gesture being recorded.
    pub closed spec fn current(&self) -> Option<GestureType> {
        self.current_gesture
    }

    /// Whether a recording start time is held.
    pub closed spec fn started(&self) -> bool {
        self.recording_start is Some
    }

    /// The maximum recording duration (ms).
    pub closed spec fn max_duration(&self) -> u64 {
        self.max_duration_ms
    }

    /// The minimum recording duration (ms).
    pub closed spec fn min_duration(&self) -> u64 {
        self.min_duration_ms
    }

    /// Whether `new` is `old` after a successful stop: back to idle, with nothing held.
    pub open spec fn cleared_after(old: Self, new: Self) -> bool {
        &&& new.spec_state() == TrainerState::Idle
        &&& new.buffer().len() == 0
        &&& new.current() is None
        &&& !new.started()
        &&& new.max_duration() == old.max_duration()
        &&& new.min_duration() == old.min_duration()
    }

    /// Whether `new` is `old` after a stop refused as too short: idle, everything else kept.
    pub open spec fn idle_after_short(old: Self, new: Self) -> bool {
        &&& new.spec_state() == TrainerState::Idle
        &&& new.buffer() == old.buffer()
        &&& new.current() == old.current()
        &&& new.started() == old.started()
        &&& new.max_duration() == old.max_duration()
        &&& new.min_duration() == old.min_duration()
    }

    /// Creates a new gesture trainer: idle, recordings between 200 and 5000 ms.
    pub fn new() -> (r: Self)
        ensures
            r.spec_state() == TrainerState::Idle,
            r.buffer().len() == 0,
            r.current() is None,
            !r.started(),
            r.max_duration() == 5000,
            r.min_duration() == 200,
    {
        GestureTrainer {
            state: TrainerState::Idle,
            recording_buffer: Vec::new(),
            current_gesture: None,
            recording_start: None,
            max_duration_ms: 5000,
            min_duration_ms: 200,
        }
    }

    /// Sets the maximum recording duration.
    pub fn with_max_duration(self, ms: u64) -> (r: Self)
        ensures
            r.max_duration() == ms,
            r.min_duration() == self.min_duration(),
            r.spec_state() == self.spec_state(),
            r.buffer() == self.buffer(),
            r.current() == self.current(),
            r.started() == self.started(),
    {
        GestureTrainer { max_duration_ms: ms, ..self }
    }

    /// Sets the minimum recording duration.
    pub fn with_min_duration(self, ms: u64) -> (r: Self)
        ensures
            r.min_duration() == ms,
            r.max_duration() == self.max_duration(),
            r.spec_state() == self.spec_state(),
            r.buffer() == self.buffer(),
            r.current() == self.current(),
            r.started() == self.started(),
    {
        GestureTrainer { min_duration_ms: ms, ..self }
    }

    /// Starts recording a gesture.
    pub fn start_recording(&mut self, gesture_type: GestureType) -> (r: Result<(), DJError>)
        ensures
            old(self).spec_state() != TrainerState::Idle ==> (r matches Err(e) && gesture_error(e, "Already recording"@))
                && *final(self) == *old(self),
            old(self).spec_state() == TrainerState::Idle ==> r is Ok && final(self).spec_state() == TrainerState::Recording
                && final(self).current() == Some(gesture_type) && final(self).buffer().len() == 0 && final(self).started()
                && final(self).max_duration() == old(self).max_duration()
                && final(self).min_duration() == old(self).min_duration(),
    {
        if self.state != TrainerState::Idle {
            return Err(DJError::gesture(owned("Already recording")));
        }
        self.state = TrainerState::Recording;
        self.current_gesture = Some(gesture_type);
        self.recording_buffer.clear();
        self.recording_start = Some(instant_now());
        Ok(())
    }

    /// The error with which stopping fails, given the time recorded so far: `None` when it succeeds.
    pub open spec fn stop_error(old: Self, elapsed_ms: Option<u64>) -> Option<Seq<char>> {
        if old.spec_state() != TrainerState::Recording {
            Some("Not recording"@)
        } else if old.current() is None {
            Some("No gesture type set"@)
        } else if elapsed_ms matches Some(e) && e < old.min_duration() {
            Some("Recording too short"@)
        } else {
            None
        }
    }

    /// What stopping, given the time recorded so far, does to the trainer and returns.
    pub open spec fn stopped(
        old: Self,
        new: Self,
        r: Result<RecordedGesture, DJError>,
        elapsed_ms: Option<u64>,
    ) -> bool {
        match Self::stop_error(old, elapsed_ms) {
            Some(msg) => {
                &&& r matches Err(e) && gesture_error(e, msg)
                &&& if msg == "Recording too short"@ {
                    Self::idle_after_short(old, new)
                } else {
                    new == old
                }
            },
            None => {
                &&& r matches Ok(g) && g.gesture_type == old.current()->0 && g.data_points@ == old.buffer()
                    && g.duration_ms == recording_span(old.buffer()) && g.metadata@.len() == 0
                &&& Self::cleared_after(old, new)
            },
        }
    }

    /// What adding a point, given the time recorded so far, does to the trainer and returns.
    pub open spec fn data_added(
        old: Self,
        new: Self,
        data: MotionDataPoint,
        r: Result<(), DJError>,
        elapsed_ms: Option<u64>,
    ) -> bool {
        if old.spec_state() != TrainerState::Recording {
            r matches Err(e) && gesture_error(e, "Not recording"@) && new == old
        } else if elapsed_ms matches Some(e) && e > old.max_duration() {
            match Self::stop_error(old, elapsed_ms) {
                Some(msg) => {
                    &&& r matches Err(e) && gesture_error(e, msg)
                    &&& if msg == "Recording too short"@ {
                        Self::idle_after_short(old, new)
                    } else {
                        new == old
                    }
                },
                None => r is Ok && Self::cleared_after(old, new),
            }
        } else {
            &&& r is Ok
            &&& new.buffer() == old.buffer().push(data)
            &&& new.spec_state() == old.spec_state()
            &&& new.current() == old.current()
            &&& new.started() == old.started()
            &&& new.max_duration() == old.max_duration()
            &&& new.min_duration() == old.min_duration()
        }
    }

    /// Milliseconds recorded so far, read from the clock; `None` when no recording was started.
    fn elapsed(&self) -> (r: Option<u64>)
        ensures
            r is Some <==> self.started(),
    {
        match &self.recording_start {
            Some(s) => Some(elapsed_millis(s)),
            None => None,
        }
    }

    /// Adds a motion data point during recording.
    ///
    /// Once the recording has run longer than the maximum duration, the point is not
    /// kept and the recording is stopped instead, its gesture discarded.
    pub fn add_data(&mut self, data: MotionDataPoint) -> (r: Result<(), DJError>)
        ensures
            exists|e: Option<u64>| (e is Some <==> old(self).started()) && #[trigger] Self::data_added(*old(self), *final(self), data, r, e),
    {
        let e = self.elapsed();
        let r = self.add_data_after(data, e);
        assert(Self::data_added(*old(self), *self, data, r, e));
        r
    }

    /// Adds a motion data point, `elapsed_ms` being the time recorded so far (`None` when no
    /// recording was started).
    pub fn add_data_after(&mut self, data: MotionDataPoint, elapsed_ms: Option<u64>) -> (r: Result<(), DJError>)
        ensures
            Self::data_added(*old(self), *final(self), data, r, elapsed_ms),
    {
        proof { lemma_trainer_messages_distinct(); }
        if self.state != TrainerState::Recording {
            return Err(DJError::gesture(owned("Not recording")));
        }
        if let Some(e) = elapsed_ms {
            if e > self.max_duration_ms {
                return match self.stop_recording_after(elapsed_ms) {
                    Ok(_) => Ok(()),
                    Err(e) => Err(e),
                };
            }
        }
        self.recording_buffer.push(data);
        Ok(())
    }

    /// Stops recording and returns the recorded gesture.
    pub fn stop_recording(&mut self) -> (r: Result<RecordedGesture, DJError>)
        ensures
            exists|e: Option<u64>| (e is Some <==> old(self).started()) && #[trigger] Self::stopped(*old(self), *final(self), r, e),
    {
        let e = self.elapsed();
        let r = self.stop_recording_after(e);
        assert(Self::stopped(*old(self), *self, r, e));
        r
    }

    /// Stops recording, `elapsed_ms` being the time recorded so far (`None` when no recording
    /// was started), and returns the recorded gesture.
    pub fn stop_recording_after(&mut self, elapsed_ms: Option<u64>) -> (r: Result<RecordedGesture, DJError>)
        ensures
            Self::stopped(*old(self), *final(self), r, elapsed_ms),
    {
        proof { lemma_trainer_messages_distinct(); }
        if self.state != TrainerState::Recording {
            return Err(DJError::gesture(owned("Not recording")));
        }
        let gesture_type = match self.current_gesture {
            Some(g) => g,
            None => {
                return Err(DJError::gesture(owned("No gesture type set")));
            },
        };
        if let Some(e) = elapsed_ms {
            if e < self.min_duration_ms {
                self.state = TrainerState::Idle;
                return Err(DJError::gesture(owned("Recording too short")));
            }
        }
        let mut data_points: Vec<MotionDataPoint> = Vec::new();
        std::mem::swap(&mut data_points, &mut self.recording_buffer);
        let gesture = RecordedGesture::new(gesture_type, data_points);
        self.state = TrainerState::Idle;
        self.current_gesture = None;
        self.recording_start = None;
        Ok(gesture)
    }

    /// Cancels the current recording.
    pub fn cancel_recording(&mut self)
        ensures
            Self::cleared_after(*old(self), *final(self)),
    {
        self.state = TrainerState::Idle;
        self.current_gesture = None;
        self.recording_buffer.clear();
        self.recording_start = None;
    }

    /// Returns the current state.
    pub fn state(&self) -> (r: TrainerState)
        ensures
            r == self.spec_state(),
    {
        self.state
    }

    /// Returns the current recording duration in milliseconds; 0 when not started.
    pub fn recording_duration_ms(&self) -> (r: u64)
        ensures
            !self.started() ==> r == 0,
    {
        match &self.recording_start {
            Some(s) => elapsed_millis(s),
            None => 0,
        }
    }

    /// Returns the number of data points recorded.
    pub fn recorded_points(&self) -> (r: usize)
        ensures
            r == self.buffer().len(),
    {
        self.recording_buffer.len()
    }

    /// Saves a recorded gesture to a database.
    pub fn save_to_database(gesture: RecordedGesture, database: &mut GestureDatabase)
        requires
            old(database).total() < usize::MAX,
        ensures
            GestureDatabase::added(*old(database), *final(database), gesture),
    {
        database.add(gesture);
    }
}

impl Default for GestureTrainer {
    fn default() -> (r: Self)
        ensures
            r.spec_state() == TrainerState::Idle,
            r.buffer().len() == 0,
            r.current() is None,
            !r.started(),
            r.max_duration() == 5000,
            r.min_duration() == 200,
    {
        GestureTrainer::new()
    }
}

/// The number of samples held over all groups.
pub open spec fn group_total(s: Seq<(GestureType, Seq<RecordedGesture>)>) -> nat
    decreases s.len(),
{
    if s.len() == 0 {
        0
    } else {
        group_total(s.drop_last()) + s.last().1.len()
    }
}

/// Whether some group holds the gesture type.
pub open spec fn has_type(s: Seq<(GestureType, Seq<RecordedGesture>)>, t: GestureType) -> bool {
    exists|i: int| 0 <= i < s.len() && (#[trigger] s[i]).0 == t
}

/// The position of the group of a gesture type.
pub open spec fn type_position(s: Seq<(GestureType, Seq<RecordedGesture>)>, t: GestureType) -> int {
    choose|i: int| 0 <= i < s.len() && (#[trigger] s[i]).0 == t
}

/// The samples held for a gesture type.
pub open spec fn group_samples(s: Seq<(GestureType, Seq<RecordedGesture>)>, t: GestureType) -> Seq<RecordedGesture> {
    if has_type(s, t) {
        s[type_position(s, t)].1
    } else {
        Seq::empty()
    }
}

/// Database for storing gesture samples, grouped by gesture type.
#[derive(Debug)]
pub struct GestureDatabase {
    /// Gesture groups, types distinct, in order of first addition.
    gestures: Vec<(GestureType, Vec<RecordedGesture>)>,
    /// Path to persistent storage.
    storage_path: Option<String>,
}

impl GestureDatabase {
    /// The groups held: each gesture type with its samples, in order of first addition.
    pub closed spec fn groups(&self) -> Seq<(GestureType, Seq<RecordedGesture>)> {
        self.gestures@.map_values(|g: (GestureType, Vec<RecordedGesture>)| (g.0, g.1@))
    }

    /// The samples held for a gesture type.
    pub open spec fn samples(&self, t: GestureType) -> Seq<RecordedGesture> {
        group_samples(self.groups(), t)
    }

    /// The gesture types held, in order of first addition.
    pub open spec fn types(&self) -> Seq<GestureType> {
        self.groups().map_values(|g: (GestureType, Seq<RecordedGesture>)| g.0)
    }

    /// The number of samples held.
    pub open spec fn total(&self) -> nat {
        group_total(self.groups())
    }

    /// The storage path.
    pub closed spec fn path(&self) -> Option<String> {
        self.storage_path
    }

    /// Whether `new` is `old` with one more sample, appended to its type's group.
    pub open spec fn added(old: Self, new: Self, g: RecordedGesture) -> bool {
        &&& new.samples(g.gesture_type) == old.samples(g.gesture_type).push(g)
        &&& forall|t: GestureType| t != g.gesture_type ==> #[trigger] new.samples(t) == old.samples(t)
        &&& new.types() == (if has_type(old.groups(), g.gesture_type) {
            old.types()
        } else {
            old.types().push(g.gesture_type)
        })
        &&& new.total() == old.total() + 1
        &&& new.path() == old.path()
    }

    #[verifier::type_invariant]
    closed spec fn wf(&self) -> bool {
        &&& forall|i: int, j: int|
            0 <= i < self.groups().len() && 0 <= j < self.groups().len() && (#[trigger] self.groups()[i]).0
                == (#[trigger] self.groups()[j]).0 ==> i == j
        &&& self.total() <= usize::MAX
    }

    /// Creates a new empty database.
    pub fn new() -> (r: Self)
        ensures
            r.groups().len() == 0,
            r.path() is None,
    {
        let r = GestureDatabase { gestures: Vec::new(), storage_path: None };
        assert(r.groups() =~= Seq::<(GestureType, Seq<RecordedGesture>)>::empty());
        r
    }

    /// Creates a database with persistent storage.
    pub fn with_storage(path: String) -> (r: Self)
        ensures
            r.groups().len() == 0,
            r.path() == Some(path),
    {
        let r = GestureDatabase { gestures: Vec::new(), storage_path: Some(path) };
        assert(r.groups() =~= Seq::<(GestureType, Seq<RecordedGesture>)>::empty());
        r
    }

    /// The path of persistent storage, if any.
    pub fn storage_path(&self) -> (r: Option<&String>)
        ensures
            match r {
                Some(p) => self.path() == Some(*p),
                None => self.path() is None,
            },
    {
        self.storage_path.as_ref()
    }

    /// Position of the group of a gesture type.
    fn position(&self, t: GestureType) -> (r: Option<usize>)
        ensures
            match r {
                Some(i) => i < self.groups().len() && self.groups()[i as int].0 == t && i == type_position(self.groups(), t),
                None => !has_type(self.groups(), t),
            },
    {
        proof { use_type_invariant(self); }
        let mut i: usize = 0;
        while i < self.gestures.len()
            invariant
                i <= self.gestures.len(),
                forall|a: int, b: int|
                    0 <= a < self.groups().len() && 0 <= b < self.groups().len() && (#[trigger] self.groups()[a]).0
                        == (#[trigger] self.groups()[b]).0 ==> a == b,
                forall|j: int| 0 <= j < i ==> (#[trigger] self.groups()[j]).0 != t,
            decreases self.gestures.len() - i,
        {
            if self.gestures[i].0 == t {
                assert(self.groups()[i as int].0 == t);
                let ghost p = type_position(self.groups(), t);
                assert(self.groups()[p].0 == self.groups()[i as int].0);
                return Some(i);
            }
            assert(self.groups()[i as int].0 != t);
            i += 1;
        }
        None
    }

    /// Adds a gesture sample to the database.
    pub fn add(&mut self, gesture: RecordedGesture)
        requires
            old(self).total() < usize::MAX,
        ensures
            Self::added(*old(self), *final(self), gesture),
    {
        proof { use_type_invariant(&*self); }
        let ghost old_groups = self.groups();
        let t = gesture.gesture_type;
        let pos = self.position(t);
        let mut cur = GestureDatabase { gestures: Vec::new(), storage_path: None };
        std::mem::swap(&mut cur, self);
        let GestureDatabase { mut gestures, storage_path } = cur;
        let ghost view = |g: (GestureType, Vec<RecordedGesture>)| (g.0, g.1@);
        assert(gestures@.map_values(view) == old_groups);
        let ghost new_groups: Seq<(GestureType, Seq<RecordedGesture>)>;
        match pos {
            Some(i) => {
                let (gt, mut samples) = gestures.remove(i);
                let ghost old_samples = samples@;
                samples.push(gesture);
                gestures.insert(i, (gt, samples));
                proof {
                    new_groups = old_groups.update(i as int, (t, old_samples.push(gesture)));
                    assert(gestures@.map_values(view) =~= new_groups);
                    lemma_group_total_update(old_groups, i as int, old_samples.push(gesture));
                }
            },
            None => {
                let mut samples: Vec<RecordedGesture> = Vec::new();
                samples.push(gesture);
                gestures.push((t, samples));
                proof {
                    new_groups = old_groups.push((t, seq![gesture]));
                    assert(gestures@.map_values(view) =~= new_groups);
                    assert(new_groups.drop_last() =~= old_groups);
                }
            },
        }
        proof {
            assert forall|a: int, b: int|
                0 <= a < new_groups.len() && 0 <= b < new_groups.len() && (#[trigger] new_groups[a]).0
                    == (#[trigger] new_groups[b]).0 implies a == b by {
                if a < old_groups.len() && b < old_groups.len() {
                    assert(old_groups[a].0 == new_groups[a].0 && old_groups[b].0 == new_groups[b].0);
                } else if a < old_groups.len() {
                    assert(old_groups[a].0 == t);
                } else if b < old_groups.len() {
                    assert(old_groups[b].0 == t);
                }
            }
            assert(has_type(new_groups, t)) by {
                match pos {
                    Some(i) => { assert(new_groups[i as int].0 == t); },
                    None => { assert(new_groups[old_groups.len() as int].0 == t); },
                }
            }
            let p = type_position(new_groups, t);
            match pos {
                Some(i) => { assert(new_groups[p].0 == new_groups[i as int].0); },
                None => { assert(new_groups[p].0 == new_groups[old_groups.len() as int].0); },
            }
            assert forall|u: GestureType| u != t implies #[trigger] group_samples(new_groups, u) == group_samples(old_groups, u) by {
                if has_type(old_groups, u) {
                    let q = type_position(old_groups, u);
                    assert(new_groups[q].0 == u);
                    let q2 = type_position(new_groups, u);
                    assert(new_groups[q2].0 == new_groups[q].0);
                } else {
                    if has_type(new_groups, u) {
                        let q2 = type_position(new_groups, u);
                        assert(q2 < old_groups.len() ==> old_groups[q2].0 == u);
                    }
                }
            }
            assert(new_groups.map_values(|g: (GestureType, Seq<RecordedGesture>)| g.0) =~= (if has_type(old_groups, t) {
                old_groups.map_values(|g: (GestureType, Seq<RecordedGesture>)| g.0)
            } else {
                old_groups.map_values(|g: (GestureType, Seq<RecordedGesture>)| g.0).push(t)
            }));
        }
        *self = GestureDatabase { gestures, storage_path };
    }

    /// Gets all samples for a gesture type.
    pub fn get(&self, gesture_type: GestureType) -> (r: &[RecordedGesture])
        ensures
            r@ == self.samples(gesture_type),
    {
        match self.position(gesture_type) {
            Some(i) => self.gestures[i].1.as_slice(),
            None => {
                let empty: &[RecordedGesture] = &[];
                empty
            },
        }
    }

    /// Returns all gesture types in the database, in order of first addition.
    pub fn gesture_types(&self) -> (r: Vec<GestureType>)
        ensures
            r@ == self.types(),
    {
        let mut r: Vec<GestureType> = Vec::new();
        for i in 0..self.gestures.len()
            invariant
                r@ == self.types().take(i as int),
        {
            r.push(self.gestures[i].0);
            assert(r@ =~= self.types().take(i + 1));
        }
        assert(self.types().take(self.gestures.len() as int) =~= self.types());
        r
    }

    /// Returns the total number of samples.
    pub fn sample_count(&self) -> (r: usize)
        ensures
            r == self.total(),
    {
        proof { use_type_invariant(self); }
        let mut sum: usize = 0;
        for i in 0..self.gestures.len()
            invariant
                sum == group_total(self.groups().take(i as int)),
                self.total() <= usize::MAX,
        {
            proof {
                assert(self.groups().take(i + 1).drop_last() =~= self.groups().take(i as int));
                lemma_group_total_prefix(self.groups(), i + 1);
            }
            sum = sum + self.gestures[i].1.len();
        }
        assert(self.groups().take(self.gestures.len() as int) =~= self.groups());
        sum
    }

    /// Returns the number of samples for a gesture type.
    pub fn sample_count_for(&self, gesture_type: GestureType) -> (r: usize)
        ensures
            r == self.samples(gesture_type).len(),
    {
        match self.position(gesture_type) {
            Some(i) => self.gestures[i].1.len(),
            None => 0,
        }
    }

    /// Clears all samples for a gesture type.
    pub fn clear(&mut self, gesture_type: GestureType)
        ensures
            final(self).samples(gesture_type).len() == 0,
            forall|t: GestureType| t != gesture_type ==> #[trigger] final(self).samples(t) == old(self).samples(t),
            !final(self).types().contains(gesture_type),
            final(self).path() == old(self).path(),
    {
        proof { use_type_invariant(&*self); }
        let ghost old_groups = self.groups();
        let pos = self.position(gesture_type);
        match pos {
            None => {
                proof {
                    assert forall|k: int| 0 <= k < self.types().len() implies self.types()[k] != gesture_type by {
                        assert(self.types()[k] == old_groups[k].0);
                    }
                }
            },
            Some(i) => {
                let mut cur = GestureDatabase { gestures: Vec::new(), storage_path: None };
                std::mem::swap(&mut cur, self);
                let GestureDatabase { mut gestures, storage_path } = cur;
                let ghost view = |g: (GestureType, Vec<RecordedGesture>)| (g.0, g.1@);
                assert(gestures@.map_values(view) == old_groups);
                let _ = gestures.remove(i);
                let ghost new_groups = old_groups.remove(i as int);
                assert(gestures@.map_values(view) =~= new_groups);
                proof {
                    lemma_group_total_remove(old_groups, i as int);
                    assert forall|a: int, b: int|
                        0 <= a < new_groups.len() && 0 <= b < new_groups.len() && (#[trigger] new_groups[a]).0
                            == (#[trigger] new_groups[b]).0 implies a == b by {
                        let a2 = if a < i { a } else { a + 1 };
                        let b2 = if b < i { b } else { b + 1 };
                        assert(old_groups[a2].0 == old_groups[b2].0);
                    }
                    assert forall|k: int| 0 <= k < new_groups.len() implies (#[trigger] new_groups[k]).0 != gesture_type by {
                        let k2 = if k < i { k } else { k + 1 };
                        assert(old_groups[k2].0 != old_groups[i as int].0);
                    }
                    assert forall|u: GestureType| u != gesture_type implies #[trigger] group_samples(new_groups, u) == group_samples(old_groups, u) by {
                        if has_type(old_groups, u) {
                            let q = type_position(old_groups, u);
                            assert(q != i);
                            let q1 = if q < i { q } else { q - 1 };
                            assert(new_groups[q1].0 == u);
                            let q2 = type_position(new_groups, u);
                            assert(new_groups[q2].0 == new_groups[q1].0);
                        } else {
                            if has_type(new_groups, u) {
                                let q2 = type_position(new_groups, u);
                                let q3 = if q2 < i { q2 } else { q2 + 1 };
                                assert(old_groups[q3].0 == u);
                            }
                        }
                    }
                }
                *self = GestureDatabase { gestures, storage_path };
                proof {
                    assert forall|k: int| 0 <= k < self.types().len() implies self.types()[k] != gesture_type by {
                        assert(self.types()[k] == new_groups[k].0);
                    }
                }
            },
        }
    }

    /// Clears all samples.
    pub fn clear_all(&mut self)
        ensures
            final(self).groups().len() == 0,
            final(self).path() == old(self).path(),
    {
        let mut cur = GestureDatabase { gestures: Vec::new(), storage_path: None };
        std::mem::swap(&mut cur, self);
        let GestureDatabase { gestures: _, storage_path } = cur;
        let r = GestureDatabase { gestures: Vec::new(), storage_path };
        assert(r.groups() =~= Seq::<(GestureType, Seq<RecordedGesture>)>::empty());
        *self = r;
    }
}

/// Replacing one group's samples changes the total by the difference.
proof fn lemma_group_total_update(s: Seq<(GestureType, Seq<RecordedGesture>)>, i: int, v: Seq<RecordedGesture>)
    requires
        0 <= i < s.len(),
    ensures
        group_total(s.update(i, (s[i].0, v))) == group_total(s) - s[i].1.len() + v.len(),
    decreases s.len(),
{
    let t = s.update(i, (s[i].0, v));
    if i == s.len() - 1 {
        assert(t.drop_last() =~= s.drop_last());
    } else {
        lemma_group_total_update(s.drop_last(), i, v);
        assert(t.drop_last() =~= s.drop_last().update(i, (s[i].0, v)));
    }
}

/// Removing a group lowers the total by its size.
proof fn lemma_group_total_remove(s: Seq<(GestureType, Seq<RecordedGesture>)>, i: int)
    requires
        0 <= i < s.len(),
    ensures
        group_total(s.remove(i)) == group_total(s) - s[i].1.len(),
    decreases s.len(),
{
    if i == s.len() - 1 {
        assert(s.remove(i) =~= s.drop_last());
    } else {
        lemma_group_total_remove(s.drop_last(), i);
        assert(s.remove(i).drop_last() =~= s.drop_last().remove(i));
    }
}

/// A prefix of the groups holds no more samples than all of them.
proof fn lemma_group_total_prefix(s: Seq<(GestureType, Seq<RecordedGesture>)>, k: int)
    requires
        0 <= k <= s.len(),
    ensures
        group_total(s.take(k)) <= group_total(s),
    decreases s.len() - k,
{
    if k < s.len() {
        lemma_group_total_prefix(s, k + 1);
        assert(s.take(k + 1).drop_last() =~= s.take(k));
    } else {
        assert(s.take(k) =~= s);
    }
}

/// Basic DJ gesture recognizer: maps recognized gestures to DJ commands.
pub struct DJGestureRecognizer {
    /// DJ configuration.
    config: Arc<DJConfig>,
}

impl DJGestureRecognizer {
    /// The configuration the recognizer was made with.
    pub closed spec fn spec_config(&self) -> DJConfig {
        *self.config
    }

    /// Creates a new recognizer.
    pub fn new(config: Arc<DJConfig>) -> (r: Self)
        ensures
            r.spec_config() == *config,
    {
        DJGestureRecognizer { config }
    }
}

/// `f32` bits of 0.7.
pub const F32_0_7: u32 = 0x3F33_3333;

/// Configuration for gesture recognition.
#[derive(Debug, Clone, Copy, PartialEq, Eq, Structural)]
pub struct RecognizerConfig {
    /// Size of the motion data buffer.
    pub buffer_size: usize,
    /// Minimum confidence threshold for recognition, as `f32` bits.
    pub confidence_threshold: u32,
    /// Minimum samples required for recognition.
    pub min_samples: usize,
}

impl Default for RecognizerConfig {
    fn default() -> (r: Self)
        ensures
            r == (RecognizerConfig { buffer_size: 100, confidence_threshold: F32_0_7, min_samples: 10 }),
    {
        RecognizerConfig { buffer_size: 100, confidence_threshold: F32_0_7, min_samples: 10 }
    }
}

/// Result of gesture recognition.
#[derive(Debug, Clone, Copy, PartialEq, Eq, Structural)]
pub struct RecognitionResult {
    /// Recognized gesture type.
    pub gesture_type: GestureType,
    /// Confidence score (0.0-1.0), as `f32` bits.
    pub confidence: u32,
    /// Duration of the gesture in milliseconds.
    pub duration_ms: u64,
}

/// The window kept after appending a point: the last `size` points.
pub open spec fn kept_window(w: Seq<MotionDataPoint>, p: MotionDataPoint, size: nat) -> Seq<MotionDataPoint> {
    let v = w.push(p);
    if v.len() > size {
        v.subrange(v.len() - size, v.len() as int)
    } else {
        v
    }
}

/// Whether a window's last point is not older than its first.
pub open spec fn window_in_order(w: Seq<MotionDataPoint>) -> bool {
    w.len() == 0 || w.last().timestamp_ms >= w[0].timestamp_ms
}

/// The time a window spans: last timestamp minus first, 0 when empty.
pub open spec fn window_span(w: Seq<MotionDataPoint>) -> int {
    if w.len() == 0 {
        0
    } else {
        w.last().timestamp_ms - w[0].timestamp_ms
    }
}

/// Real-time gesture recognizer: the motion window and the bookkeeping around a
/// recognition; the similarity scoring is done by its caller.
#[derive(Debug)]
pub struct GestureRecognizer {
    /// Configuration.
    config: RecognizerConfig,
    /// Motion data buffer, oldest first.
    buffer: Vec<MotionDataPoint>,
    /// Reference gesture database.
    database: GestureDatabase,
    /// Last recognized gesture.
    last_recognition: Option<RecognitionResult>,
}

impl GestureRecognizer {
    /// The configuration.
    pub closed spec fn spec_config(&self) -> RecognizerConfig {
        self.config
    }

    /// The motion window, oldest first.
    pub closed spec fn window(&self) -> Seq<MotionDataPoint> {
        self.buffer@
    }

    /// The reference gesture database.
    pub closed spec fn spec_database(&self) -> GestureDatabase {
        self.database
    }

    /// The last recognition.
    pub closed spec fn last(&self) -> Option<RecognitionResult> {
        self.last_recognition
    }

    /// Creates a new gesture recognizer with an empty window.
    pub fn new(config: RecognizerConfig, database: GestureDatabase) -> (r: Self)
        ensures
            r.spec_config() == config,
            r.spec_database() == database,
            r.window().len() == 0,
            r.last() is None,
    {
        GestureRecognizer { config, buffer: Vec::new(), database, last_recognition: None }
    }

    /// Creates a recognizer with default configuration.
    pub fn with_database(database: GestureDatabase) -> (r: Self)
        ensures
            r.spec_config() == (RecognizerConfig { buffer_size: 100, confidence_threshold: F32_0_7, min_samples: 10 }),
            r.spec_database() == database,
            r.window().len() == 0,
            r.last() is None,
    {
        GestureRecognizer::new(RecognizerConfig::default(), database)
    }

    /// Appends a motion data point to the window, dropping the oldest points beyond the
    /// buffer size; answers whether the window holds enough samples to recognize from.
    pub fn push_sample(&mut self, data: MotionDataPoint) -> (ready: bool)
        ensures
            final(self).window() == kept_window(old(self).window(), data, old(self).spec_config().buffer_size as nat),
            ready == (final(self).window().len() >= old(self).spec_config().min_samples),
            final(self).spec_config() == old(self).spec_config(),
            final(self).last() == old(self).last(),
    {
        let ghost v = self.buffer@.push(data);
        self.buffer.push(data);
        let size = self.config.buffer_size;
        let mut dropped: usize = 0;
        let n0 = self.buffer.len();
        assert(v.len() == n0);
        while self.buffer.len() > size
            invariant
                self.config == old(self).config,
                self.last_recognition == old(self).last_recognition,
                v.len() == dropped + self.buffer@.len(),
                v.len() <= usize::MAX,
                self.buffer@ == v.subrange(dropped as int, v.len() as int),
                size == self.config.buffer_size,
                dropped > 0 ==> self.buffer@.len() >= size,
            decreases self.buffer.len(),
        {
            self.buffer.remove(0);
            dropped += 1;
            assert(self.buffer@ =~= v.subrange(dropped as int, v.len() as int));
        }
        proof {
            if dropped == 0 {
                assert(self.buffer@ =~= v);
            }
        }
        self.buffer.len() >= self.config.min_samples
    }

    /// The motion window, oldest first.
    pub fn window_points(&self) -> (r: &[MotionDataPoint])
        ensures
            r@ == self.window(),
    {
        self.buffer.as_slice()
    }

    /// The reference gesture database.
    pub fn database(&self) -> (r: &GestureDatabase)
        ensures
            *r == self.spec_database(),
    {
        &self.database
    }

    /// The configuration.
    pub fn config(&self) -> (r: RecognizerConfig)
        ensures
            r == self.spec_config(),
    {
        self.config
    }

    /// The time the window spans, `None` when its last point is older than its first.
    pub fn window_duration(&self) -> (r: Option<u64>)
        ensures
            r is Some <==> window_in_order(self.window()),
            r matches Some(d) ==> d == window_span(self.window()),
    {
        let n = self.buffer.len();
        if n == 0 {
            return Some(0);
        }
        let first = self.buffer[0].timestamp_ms;
        let last = self.buffer[n - 1].timestamp_ms;
        if last >= first {
            Some(last - first)
        } else {
            None
        }
    }

    /// Records a recognition of `gesture_type` with the given confidence (`f32` bits):
    /// the result spans the window, is kept as the last recognition, and the window is cleared.
    pub fn accept(&mut self, gesture_type: GestureType, confidence: u32) -> (r: RecognitionResult)
        requires
            window_in_order(old(self).window()),
        ensures
            r == (RecognitionResult {
                gesture_type,
                confidence,
                duration_ms: window_span(old(self).window()) as u64,
            }),
            final(self).last() == Some(r),
            final(self).window().len() == 0,
            final(self).spec_config() == old(self).spec_config(),
    {
        let n = self.buffer.len();
        let duration_ms = if n == 0 {
            0
        } else {
            self.buffer[n - 1].timestamp_ms - self.buffer[0].timestamp_ms
        };
        let result = RecognitionResult { gesture_type, confidence, duration_ms };
        self.last_recognition = Some(result);
        self.buffer.clear();
        result
    }

    /// Returns the last recognition result.
    pub fn last_recognition(&self) -> (r: Option<&RecognitionResult>)
        ensures
            match r {
                Some(x) => self.last() == Some(*x),
                None => self.last() is None,
            },
    {
        self.last_recognition.as_ref()
    }

    /// Clears the motion buffer and the last recognition.
    pub fn clear(&mut self)
        ensures
            final(self).window().len() == 0,
            final(self).last() is None,
            final(self).spec_config() == old(self).spec_config(),
    {
        self.buffer.clear();
        self.last_recognition = None;
    }

    /// Returns the current buffer size.
    pub fn buffer_len(&self) -> (r: usize)
        ensures
            r == self.window().len(),
    {
        self.buffer.len()
    }
}

/// After a push the window holds at most the buffer size's worth of points, and ends
/// with the point pushed whenever it holds any.
pub proof fn lemma_window_bounded(w: Seq<MotionDataPoint>, p: MotionDataPoint, size: nat)
    ensures
        kept_window(w, p, size).len() == (if w.len() + 1 > size { size } else { w.len() + 1 }),
        kept_window(w, p, size).len() > 0 ==> kept_window(w, p, size).last() == p,
{
}

} // verus!
