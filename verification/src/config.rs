//! Configuration types for the DJ agent.
//!
//! Real-valued settings are carried as the IEEE-754 bit pattern of the `f64`
//! they stand for; keyed tables are association lists with hash-map insertion.

use vstd::prelude::*;

verus! {

/// Bit pattern of `15.0_f64`.
pub const F64_15: u64 = 0x402e_0000_0000_0000;
/// Bit pattern of `6.0_f64`.
pub const F64_6: u64 = 0x4018_0000_0000_0000;
/// Bit pattern of `0.25_f64`.
pub const F64_0_25: u64 = 0x3fd0_0000_0000_0000;
/// Bit pattern of `1.0_f64`.
pub const F64_1: u64 = 0x3ff0_0000_0000_0000;
/// Bit pattern of `3.0_f64`.
pub const F64_3: u64 = 0x4008_0000_0000_0000;
/// Bit pattern of `1200.0_f64`.
pub const F64_1200: u64 = 0x4092_c000_0000_0000;
/// Bit pattern of `6000.0_f64`.
pub const F64_6000: u64 = 0x40b7_7000_0000_0000;
/// Bit pattern of `0.5_f64`.
pub const F64_0_5: u64 = 0x3fe0_0000_0000_0000;
/// Bit pattern of `1.2_f64`.
pub const F64_1_2: u64 = 0x3ff3_3333_3333_3333;
/// Bit pattern of `0.6_f64`.
pub const F64_0_6: u64 = 0x3fe3_3333_3333_3333;
/// Bit pattern of `0.4_f64`.
pub const F64_0_4: u64 = 0x3fd9_9999_9999_999a;
/// Bit pattern of `0.2_f64`.
pub const F64_0_2: u64 = 0x3fc9_9999_9999_999a;

/// Supported DJ software backends.
#[derive(Debug, Clone, Copy, PartialEq, Eq, Structural)]
pub enum DJSoftware {
    /// Pioneer Rekordbox.
    Rekordbox,
    /// Serato DJ.
    Serato,
}

impl Default for DJSoftware {
    fn default() -> (r: Self)
        ensures
            r == DJSoftware::Rekordbox,
    {
        DJSoftware::Rekordbox
    }
}

/// The lowercase name of a backend.
pub open spec fn software_name(s: DJSoftware) -> Seq<char> {
    match s {
        DJSoftware::Rekordbox => "rekordbox"@,
        DJSoftware::Serato => "serato"@,
    }
}

impl DJSoftware {
    /// The lowercase name of the backend, as it is displayed.
    pub fn to_string(&self) -> (r: String)
        ensures
            r@ == software_name(*self),
    {
        match self {
            DJSoftware::Rekordbox => "rekordbox".to_owned(),
            DJSoftware::Serato => "serato".to_owned(),
        }
    }
}

/// `true`, the default of several switches.
pub fn default_true() -> (r: bool)
    ensures
        r,
{
    true
}

/// Tiers enabled when the configuration leaves them out: 0 to 3.
pub fn default_tiers() -> (r: Vec<u8>)
    ensures
        r@ == seq![0u8, 1u8, 2u8, 3u8],
{
    let mut v: Vec<u8> = Vec::new();
    v.push(0);
    v.push(1);
    v.push(2);
    v.push(3);
    assert(v@ =~= seq![0u8, 1u8, 2u8, 3u8]);
    v
}

/// Voice engine used when the configuration leaves it out.
pub fn default_engine() -> (r: String)
    ensures
        r@ == "gemini"@,
{
    "gemini".to_owned()
}

/// Amplitude curve used when the configuration leaves it out.
pub fn default_amp_curve() -> (r: String)
    ensures
        r@ == "log"@,
{
    "log".to_owned()
}

/// Communication mode used when a software section leaves it out.
pub fn default_mode() -> (r: String)
    ensures
        r@ == "keyboard"@,
{
    "keyboard".to_owned()
}

/// Default MIDI velocity of an action mapping.
pub fn default_velocity() -> (r: u8)
    ensures
        r == 127,
{
    127
}

/// Safety constraints for DJ actions.
#[derive(Debug, Clone, Copy, PartialEq, Eq, Structural)]
pub struct SafetyConfig {
    /// Forbid stopping/modifying the playing deck.
    pub lock_playing_deck: bool,
    /// Never load a track on a playing deck.
    pub forbid_load_on_live: bool,
    /// Maximum EQ change per beat (dB), as `f64` bits.
    pub eq_max_db_per_beat: u64,
    /// Maximum crossfader change per beat (0-1 scale), as `f64` bits.
    pub crossfader_max_slope: u64,
}

impl Default for SafetyConfig {
    fn default() -> (r: Self)
        ensures
            r.lock_playing_deck,
            r.forbid_load_on_live,
            r.eq_max_db_per_beat == F64_6,
            r.crossfader_max_slope == F64_0_25,
    {
        SafetyConfig {
            lock_playing_deck: true,
            forbid_load_on_live: true,
            eq_max_db_per_beat: F64_6,
            crossfader_max_slope: F64_0_25,
        }
    }
}

/// Voice control configuration.
#[derive(Debug, Clone)]
pub struct VoiceConfig {
    /// Whether voice control is enabled.
    pub enabled: bool,
    /// Voice recognition engine.
    pub engine: String,
    /// Listening timeout in seconds, as `f64` bits.
    pub listen_timeout: u64,
    /// Maximum phrase duration in seconds, as `f64` bits.
    pub phrase_time_limit: u64,
    /// Custom command mappings (phrase, action).
    pub command_map: Vec<(String, String)>,
    /// Whether to speak feedback.
    pub speak_feedback: bool,
    /// Whether to play audio feedback.
    pub audio_feedback: bool,
}

impl Default for VoiceConfig {
    fn default() -> (r: Self)
        ensures
            !r.enabled,
            r.engine@ == "gemini"@,
            r.listen_timeout == F64_1,
            r.phrase_time_limit == F64_3,
            r.command_map@.len() == 0,
            !r.speak_feedback,
            r.audio_feedback,
    {
        VoiceConfig {
            enabled: false,
            engine: default_engine(),
            listen_timeout: F64_1,
            phrase_time_limit: F64_3,
            command_map: Vec::new(),
            speak_feedback: false,
            audio_feedback: true,
        }
    }
}

/// Reflex policy configuration (frame-rate continuous controls).
///
/// Reserved for future gesture-driven control; read from configuration but not
/// consumed by any logic.
#[derive(Debug, Clone)]
pub struct ReflexConfig {
    /// Filter cutoff frequency range [min, max] Hz, as `f64` bits.
    pub filter_cutoff_range: [u64; 2],
    /// Filter resonance (0.0-1.0), as `f64` bits.
    pub filter_resonance: u64,
    /// Amplitude curve type ("log" or "linear").
    pub amp_curve: String,
    /// Use limb asymmetry for stereo pan.
    pub pan_from_limbs: bool,
}

impl Default for ReflexConfig {
    fn default() -> (r: Self)
        ensures
            r.filter_cutoff_range@ == seq![F64_1200, F64_6000],
            r.filter_resonance == F64_0_5,
            r.amp_curve@ == "log"@,
            r.pan_from_limbs,
    {
        let r = ReflexConfig {
            filter_cutoff_range: [F64_1200, F64_6000],
            filter_resonance: F64_0_5,
            amp_curve: default_amp_curve(),
            pan_from_limbs: true,
        };
        assert(r.filter_cutoff_range@ =~= seq![F64_1200, F64_6000]);
        r
    }
}

/// Reward weights for reinforcement learning, each as `f64` bits.
///
/// Reserved for future reward shaping; read from configuration but not consumed.
#[derive(Debug, Clone, Copy, PartialEq, Eq, Structural)]
pub struct RewardConfig {
    /// Phase alignment weight.
    pub w_phase: u64,
    /// On-grid action bonus weight.
    pub w_ongrid: u64,
    /// Harmonic compatibility weight.
    pub w_key: u64,
    /// Smoothness weight.
    pub w_smooth: u64,
    /// Energy contour match weight.
    pub w_energy: u64,
    /// Anti-spam penalty weight.
    pub w_spam: u64,
    /// Novelty bonus weight.
    pub w_novel: u64,
}

impl Default for RewardConfig {
    fn default() -> (r: Self)
        ensures
            r == (RewardConfig {
                w_phase: F64_1,
                w_ongrid: F64_1_2,
                w_key: F64_0_6,
                w_smooth: F64_0_6,
                w_energy: F64_0_4,
                w_spam: F64_1,
                w_novel: F64_0_2,
            }),
    {
        RewardConfig {
            w_phase: F64_1,
            w_ongrid: F64_1_2,
            w_key: F64_0_6,
            w_smooth: F64_0_6,
            w_energy: F64_0_4,
            w_spam: F64_1,
            w_novel: F64_0_2,
        }
    }
}

/// A step in an action sequence.
#[derive(Debug, Clone)]
pub struct SequenceStep {
    /// Key to press.
    pub key: String,
    /// Optional modifiers.
    pub modifiers: Vec<String>,
    /// Delay after this step (ms).
    pub delay_ms: u32,
}

/// Mapping for a single action.
#[derive(Debug, Clone)]
pub enum ActionMapping {
    /// Single key press.
    Key {
        /// The key to press.
        key: String,
        /// Optional modifiers.
        modifiers: Vec<String>,
    },
    /// Sequence of key presses.
    Sequence {
        /// Steps in the sequence.
        steps: Vec<SequenceStep>,
    },
    /// MIDI message.
    Midi {
        /// MIDI channel.
        channel: u8,
        /// Note number.
        note: u8,
        /// Velocity.
        velocity: u8,
    },
}

/// Software-specific configuration (Rekordbox or Serato).
#[derive(Debug, Clone)]
pub struct SoftwareConfig {
    /// Communication mode ("midi" or "keyboard").
    pub mode: String,
    /// MIDI port name.
    pub midi_port: Option<String>,
    /// Action mappings (action name, mapping).
    pub map: Vec<(String, ActionMapping)>,
}

impl Default for SoftwareConfig {
    fn default() -> (r: Self)
        ensures
            r.mode@.len() == 0,
            r.midi_port is None,
            r.map@.len() == 0,
    {
        SoftwareConfig { mode: String::new(), midi_port: None, map: Vec::new() }
    }
}

/// Main DJ agent configuration.
#[derive(Debug, Clone)]
pub struct DJConfig {
    /// DJ software selection.
    pub software: DJSoftware,
    /// Quantization window in degrees, as `f64` bits.
    pub quant_window_deg: u64,
    /// Cooldown periods per action type (in beats).
    pub cooldown_beats: Vec<(String, u32)>,
    /// Which tiers are enabled (0-5).
    pub tiers_enabled: Vec<u8>,
    /// Safety constraints.
    pub safety: SafetyConfig,
    /// Voice control configuration.
    pub voice: VoiceConfig,
    /// Reflex policy configuration.
    pub reflex: ReflexConfig,
    /// Reward weights for RL.
    pub rewards: RewardConfig,
    /// Rekordbox-specific settings.
    pub rekordbox: Option<SoftwareConfig>,
    /// Serato-specific settings.
    pub serato: Option<SoftwareConfig>,
}

impl Default for DJConfig {
    fn default() -> (r: Self)
        ensures
            r.software == DJSoftware::Rekordbox,
            r.quant_window_deg == F64_15,
            r.cooldown_beats@.len() == 0,
            r.tiers_enabled@ == seq![0u8, 1u8, 2u8, 3u8],
            r.safety.lock_playing_deck,
            r.safety.forbid_load_on_live,
            r.safety.eq_max_db_per_beat == F64_6,
            r.safety.crossfader_max_slope == F64_0_25,
            !r.voice.enabled,
            r.voice.engine@ == "gemini"@,
            r.voice.command_map@.len() == 0,
            r.rekordbox is None,
            r.serato is None,
    {
        DJConfig {
            software: DJSoftware::Rekordbox,
            quant_window_deg: F64_15,
            cooldown_beats: Vec::new(),
            tiers_enabled: default_tiers(),
            safety: SafetyConfig::default(),
            voice: VoiceConfig::default(),
            reflex: ReflexConfig::default(),
            rewards: RewardConfig::default(),
            rekordbox: None,
            serato: None,
        }
    }
}

impl DJConfig {
    /// Returns the active software config.
    pub fn software_config(&self) -> (r: Option<&SoftwareConfig>)
        ensures
            match r {
                Some(c) => Some(*c) == (match self.software {
                    DJSoftware::Rekordbox => self.rekordbox,
                    DJSoftware::Serato => self.serato,
                }),
                None => (match self.software {
                    DJSoftware::Rekordbox => self.rekordbox,
                    DJSoftware::Serato => self.serato,
                }) is None,
            },
    {
        match self.software {
            DJSoftware::Rekordbox => self.rekordbox.as_ref(),
            DJSoftware::Serato => self.serato.as_ref(),
        }
    }
}

} // verus!
