//! Auto-DJ decisions: harmonic compatibility on the Camelot wheel, mixing strategies,
//! the auto mixer's state machine and the parts of analysis and transition advice that
//! do not rest on floating point.

use vstd::prelude::*;
use vstd::string::StringSliceAdditionalSpecFns;
use crate::decimal::{decimal, decimal_chars, lemma_parse_decimal, parse_unsigned, parse_unsigned_chars};
use crate::error::DJError;
use crate::text::{chars_of, owned, string_from_chars, to_uppercase, trim, trimmed, uppercase};

verus! {

/// `f64` bits of 60.0.
pub const F64_60: u64 = 0x404E_0000_0000_0000;

/// `f64` bits of 200.0.
pub const F64_200: u64 = 0x4069_0000_0000_0000;

/// `f64` bits of 4.0.
pub const F64_4: u64 = 0x4010_0000_0000_0000;

/// `f64` bits of 8.0.
pub const F64_8: u64 = 0x4020_0000_0000_0000;

/// `f64` bits of 16.0.
pub const F64_16: u64 = 0x4030_0000_0000_0000;

/// `f64` bits of 32.0.
pub const F64_32: u64 = 0x4040_0000_0000_0000;

/// `f64` bits of 64.0.
pub const F64_64: u64 = 0x4050_0000_0000_0000;

/// Source of track analysis data.
#[derive(Debug, Clone, Copy, PartialEq, Eq, Structural)]
pub enum AnalysisSource {
    /// Analysis loaded from JSON sidecar file.
    JsonSidecar,
    /// Analysis loaded from cache directory.
    Cache,
    /// Analysis from external DJ software (Rekordbox, Serato, etc.).
    DjSoftware,
    /// Placeholder/estimated values (not actual analysis).
    Placeholder,
}

impl Default for AnalysisSource {
    fn default() -> (r: Self)
        ensures
            r == AnalysisSource::Placeholder,
    {
        AnalysisSource::Placeholder
    }
}

/// Type of track section.
#[derive(Debug, Clone, Copy, PartialEq, Eq, Structural)]
pub enum SectionType {
    /// Introduction.
    Intro,
    /// Verse section.
    Verse,
    /// Chorus/hook.
    Chorus,
    /// Breakdown (low energy).
    Breakdown,
    /// Drop (high energy peak).
    Drop,
    /// Bridge section.
    Bridge,
    /// Outro.
    Outro,
    /// Unknown section type.
    Unknown,
}

/// Energy curve preference for a set.
#[derive(Debug, Clone, Copy, PartialEq, Eq, Structural)]
pub enum EnergyCurve {
    /// Gradually increase energy throughout.
    Build,
    /// Maintain consistent energy.
    Steady,
    /// Wave pattern (build and release).
    Wave,
    /// Peak early, then maintain.
    FrontLoad,
    /// Build to peak at end.
    Climax,
}

/// Style of transition.
#[derive(Debug, Clone, Copy, PartialEq, Eq, Structural)]
pub enum TransitionStyle {
    /// Quick cut on the beat.
    Cut,
    /// Gradual crossfade.
    Fade,
    /// EQ swap (kill lows on outgoing, bring in on incoming).
    EqSwap,
    /// Echo out effect.
    EchoOut,
    /// Backspin transition.
    Backspin,
    /// Loop and fade.
    LoopFade,
}

/// State of the auto mixer.
#[derive(Debug, Clone, Copy, PartialEq, Eq, Structural)]
pub enum AutoMixerState {
    /// Idle, not mixing.
    Idle,
    /// Playing, monitoring for transition.
    Playing,
    /// Preparing for transition.
    Preparing,
    /// Actively transitioning.
    Transitioning,
    /// Paused.
    Paused,
}

// ---------------------------------------------------------------------------
// Camelot wheel
// ---------------------------------------------------------------------------

/// The text a key is read from: trimmed, then upper-cased.
pub open spec fn camelot_text(key: Seq<char>) -> Seq<char> {
    uppercase(trimmed(key))
}

/// Whether reading a key stays on character boundaries: its text is empty or ends in
/// an ASCII character. Reading cuts the last byte off the text, which splits a character
/// that is not ASCII.
pub open spec fn camelot_readable(key: Seq<char>) -> bool {
    let s = camelot_text(key);
    s.len() == 0 || (s.last() as u32) < 128
}

/// The Camelot key (number 1 to 12, mode `A` or `B`) that a text spells: all but its last
/// character read as a `u8`, then the mode letter.
pub open spec fn camelot_of_text(s: Seq<char>) -> Option<(u8, char)> {
    if s.len() < 2 {
        None
    } else {
        match parse_unsigned(s.drop_last(), 255) {
            None => None,
            Some(n) => if 1 <= n <= 12 && (s.last() == 'A' || s.last() == 'B') {
                Some((n as u8, s.last()))
            } else {
                None
            },
        }
    }
}

/// The Camelot key a key string names, if any.
pub open spec fn camelot_of(key: Seq<char>) -> Option<(u8, char)> {
    camelot_of_text(camelot_text(key))
}

/// Whether two wheel numbers are neighbours (1 and 12 are neighbours).
pub open spec fn wheel_adjacent(a: u8, b: u8) -> bool {
    a == b + 1 || b == a + 1 || (a == 1 && b == 12) || (a == 12 && b == 1)
}

/// Whether two read keys mix harmonically: an unknown key mixes with anything; known
/// keys mix when equal, neighbours on the wheel in the same mode, or of the same number.
pub open spec fn keys_compatible(a: Option<(u8, char)>, b: Option<(u8, char)>) -> bool {
    match (a, b) {
        (Some((na, ma)), Some((nb, mb))) => (na == nb && ma == mb) || (wheel_adjacent(na, nb) && ma == mb) || na == nb,
        _ => true,
    }
}

/// The other mode letter.
pub open spec fn other_mode(m: char) -> char {
    if m == 'A' {
        'B'
    } else {
        'A'
    }
}

/// The wheel number before `n` (12 before 1).
pub open spec fn wheel_prev(n: u8) -> u8 {
    if n == 1 {
        12
    } else {
        (n - 1) as u8
    }
}

/// The wheel number after `n` (1 after 12).
pub open spec fn wheel_next(n: u8) -> u8 {
    if n == 12 {
        1
    } else {
        (n + 1) as u8
    }
}

/// The keys that mix with a read key, in order: itself, its relative key, then its
/// neighbours before and after on the wheel.
pub open spec fn compatible_pairs(k: (u8, char)) -> Seq<(u8, char)> {
    seq![k, (k.0, other_mode(k.1)), (wheel_prev(k.0), k.1), (wheel_next(k.0), k.1)]
}

/// The text of a Camelot key: its number in decimal, then its mode letter.
pub open spec fn camelot_key_text(k: (u8, char)) -> Seq<char> {
    decimal(k.0 as nat).push(k.1)
}

/// Reads a key as a Camelot key.
fn parse_camelot(key: &str) -> (r: Option<(u8, char)>)
    requires
        camelot_readable(key@),
    ensures
        r == camelot_of(key@),
{
    let t = trim(key);
    let up = to_uppercase(t);
    let chars = chars_of(up.as_str());
    let n = chars.len();
    if n < 2 {
        return None;
    }
    let mut prefix: Vec<char> = Vec::new();
    for i in 0..n - 1
        invariant
            n == chars.len(),
            n >= 2,
            prefix@ == chars@.take(i as int),
    {
        prefix.push(chars[i]);
    }
    assert(prefix@ =~= chars@.drop_last());
    let mode = chars[n - 1];
    match parse_unsigned_chars(&prefix, 255) {
        None => None,
        Some(num) => {
            if 1 <= num && num <= 12 && (mode == 'A' || mode == 'B') {
                Some((num as u8, mode))
            } else {
                None
            }
        },
    }
}

/// The text of a Camelot key.
fn key_text(num: u8, mode: char) -> (r: String)
    ensures
        r@ == camelot_key_text((num, mode)),
{
    let mut v = decimal_chars(num as u32);
    v.push(mode);
    string_from_chars(v)
}

/// Reading the text of a valid Camelot key gives the key back.
pub proof fn lemma_camelot_text_roundtrip(k: (u8, char))
    requires
        1 <= k.0 <= 12,
        k.1 == 'A' || k.1 == 'B',
    ensures
        camelot_of_text(camelot_key_text(k)) == Some(k),
{
    lemma_parse_decimal(k.0 as nat, 255);
    let s = camelot_key_text(k);
    assert(s.drop_last() =~= decimal(k.0 as nat));
    assert(decimal(k.0 as nat).len() >= 1) by {
        crate::decimal::lemma_decimal_digits(k.0 as nat);
    }
}

/// Harmonic compatibility is symmetric.
pub proof fn lemma_compatible_symmetric(a: Option<(u8, char)>, b: Option<(u8, char)>)
    ensures
        keys_compatible(a, b) == keys_compatible(b, a),
{
}

/// Every key that the wheel lists for a valid key mixes with it, and is itself valid.
pub proof fn lemma_compatible_pairs_mix(k: (u8, char))
    requires
        1 <= k.0 <= 12,
        k.1 == 'A' || k.1 == 'B',
    ensures
        forall|i: int| 0 <= i < 4 ==> #[trigger] keys_compatible(Some(k), Some(compatible_pairs(k)[i])),
        forall|i: int| 0 <= i < 4 ==> 1 <= (#[trigger] compatible_pairs(k)[i]).0 <= 12 && (compatible_pairs(k)[i].1 == 'A'
            || compatible_pairs(k)[i].1 == 'B'),
{
}

/// A key mixes with itself.
pub proof fn lemma_compatible_reflexive(a: Option<(u8, char)>)
    ensures
        keys_compatible(a, a),
{
}

// ---------------------------------------------------------------------------
// Placeholder analysis
// ---------------------------------------------------------------------------

/// The sum of bytes, wrapping at 2^64, that a placeholder analysis is seeded from.
pub open spec fn byte_hash(bytes: Seq<u8>) -> u64
    decreases bytes.len(),
{
    if bytes.len() == 0 {
        0
    } else {
        let prev = byte_hash(bytes.drop_last());
        if prev + bytes.last() > u64::MAX {
            (prev + bytes.last() - 0x1_0000_0000_0000_0000) as u64
        } else {
            (prev + bytes.last()) as u64
        }
    }
}

/// The seed of a path's placeholder analysis: its UTF-8 bytes summed, wrapping.
pub fn placeholder_hash(path: &str) -> (r: u64)
    ensures
        r == byte_hash(path.spec_bytes()),
{
    let bytes = path.as_bytes();
    let mut h: u64 = 0;
    for i in 0..bytes.len()
        invariant
            bytes@ == path.spec_bytes(),
            h == byte_hash(bytes@.take(i as int)),
    {
        assert(bytes@.take(i + 1).drop_last() =~= bytes@.take(i as int));
        h = h.wrapping_add(bytes[i] as u64);
    }
    assert(bytes@.take(bytes.len() as int) =~= bytes@);
    h
}

/// The placeholder key for a seed: number `(hash / 40) % 12 + 1`, mode `A` for an even seed, else `B`.
pub open spec fn placeholder_key_of(hash: u64) -> (u8, char) {
    ((((hash / 40) % 12) + 1) as u8, if hash % 2 == 0 {
        'A'
    } else {
        'B'
    })
}

/// The placeholder key text for a seed.
pub fn placeholder_key(hash: u64) -> (r: String)
    ensures
        r@ == camelot_key_text(placeholder_key_of(hash)),
{
    let num: u8 = ((hash / 40) % 12) as u8 + 1;
    let mode = if hash % 2 == 0 {
        'A'
    } else {
        'B'
    };
    key_text(num, mode)
}

/// The placeholder energy for a seed: `hash % 8 + 3`, from 3 to 10.
pub fn placeholder_energy(hash: u64) -> (r: u8)
    ensures
        r == hash % 8 + 3,
        3 <= r <= 10,
{
    ((hash % 8) + 3) as u8
}

/// The placeholder BPM offset above 110 for a seed: `hash % 40`.
pub fn placeholder_bpm_offset(hash: u64) -> (r: u64)
    ensures
        r == hash % 40,
        r < 40,
{
    hash % 40
}

/// A placeholder key is always a valid Camelot key.
pub proof fn lemma_placeholder_key_valid(hash: u64)
    ensures
        1 <= placeholder_key_of(hash).0 <= 12,
        placeholder_key_of(hash).1 == 'A' || placeholder_key_of(hash).1 == 'B',
        camelot_of_text(camelot_key_text(placeholder_key_of(hash))) == Some(placeholder_key_of(hash)),
{
    lemma_camelot_text_roundtrip(placeholder_key_of(hash));
}

// ---------------------------------------------------------------------------
// Track analyzer
// ---------------------------------------------------------------------------

/// Track analyzer for DJ preparation: where pre-computed analysis is looked for, and
/// harmonic compatibility checking via the Camelot wheel.
#[derive(Debug, Clone)]
pub struct TrackAnalyzer {
    /// Minimum BPM for analysis (`f64` bits).
    min_bpm: u64,
    /// Maximum BPM for analysis (`f64` bits).
    max_bpm: u64,
    /// Optional cache directory for analysis files.
    cache_dir: Option<String>,
    /// Whether to use placeholder when analysis not found.
    use_placeholder: bool,
}

/// The message of the error for a track with no analysis.
pub open spec fn missing_analysis_message(path: Seq<char>) -> Seq<char> {
    "No analysis found for '"@ + path
        + "'. Generate analysis JSON using external tools (Essentia, librosa, or DJ software) and save as '"@ + path
        + ".analysis.json'"@
}

impl TrackAnalyzer {
    /// The lowest expected BPM (`f64` bits).
    pub closed spec fn min_bpm_bits(&self) -> u64 {
        self.min_bpm
    }

    /// The highest expected BPM (`f64` bits).
    pub closed spec fn max_bpm_bits(&self) -> u64 {
        self.max_bpm
    }

    /// The cache directory.
    pub closed spec fn cache(&self) -> Option<String> {
        self.cache_dir
    }

    /// Whether a placeholder stands in for a missing analysis.
    pub closed spec fn placeholder(&self) -> bool {
        self.use_placeholder
    }

    /// Creates a new track analyzer: BPM range 60 to 200, no cache, placeholders on.
    pub fn new() -> (r: Self)
        ensures
            r.min_bpm_bits() == F64_60,
            r.max_bpm_bits() == F64_200,
            r.cache() is None,
            r.placeholder(),
    {
        TrackAnalyzer { min_bpm: F64_60, max_bpm: F64_200, cache_dir: None, use_placeholder: true }
    }

    /// Sets the BPM range for analysis (`f64` bits).
    pub fn with_bpm_range(self, min: u64, max: u64) -> (r: Self)
        ensures
            r.min_bpm_bits() == min,
            r.max_bpm_bits() == max,
            r.cache() == self.cache(),
            r.placeholder() == self.placeholder(),
    {
        TrackAnalyzer { min_bpm: min, max_bpm: max, ..self }
    }

    /// Sets the cache directory for analysis files.
    pub fn with_cache_dir(self, dir: String) -> (r: Self)
        ensures
            r.cache() == Some(dir),
            r.min_bpm_bits() == self.min_bpm_bits(),
            r.max_bpm_bits() == self.max_bpm_bits(),
            r.placeholder() == self.placeholder(),
    {
        TrackAnalyzer { cache_dir: Some(dir), ..self }
    }

    /// Sets whether to use placeholder values when analysis is not found.
    pub fn with_placeholder(self, enabled: bool) -> (r: Self)
        ensures
            r.placeholder() == enabled,
            r.cache() == self.cache(),
            r.min_bpm_bits() == self.min_bpm_bits(),
            r.max_bpm_bits() == self.max_bpm_bits(),
    {
        TrackAnalyzer { use_placeholder: enabled, ..self }
    }

    /// The expected BPM range (`f64` bits).
    pub fn bpm_range(&self) -> (r: (u64, u64))
        ensures
            r == (self.min_bpm_bits(), self.max_bpm_bits()),
    {
        (self.min_bpm, self.max_bpm)
    }

    /// The path of a track's JSON sidecar analysis file.
    pub fn sidecar_path(&self, path: &str) -> (r: String)
        ensures
            r@ == path@ + ".analysis.json"@,
    {
        let mut r = owned(path);
        r.append(".analysis.json");
        r
    }

    /// The path of a track's analysis file in the cache directory, given the track's file
    /// name; `None` without a cache directory.
    pub fn cache_path(&self, file_name: &str) -> (r: Option<String>)
        ensures
            match self.cache() {
                None => r is None,
                Some(d) => r matches Some(p) && p@ == d@ + "/"@ + file_name@ + ".analysis.json"@,
            },
    {
        match &self.cache_dir {
            None => None,
            Some(d) => {
                let mut r = d.clone();
                r.append("/");
                r.append(file_name);
                r.append(".analysis.json");
                Some(r)
            },
        }
    }

    /// What is reported when no analysis file is found for a track: nothing when a
    /// placeholder stands in, else the configuration error.
    pub fn missing_analysis_error(&self, path: &str) -> (r: Option<DJError>)
        ensures
            self.placeholder() ==> r is None,
            !self.placeholder() ==> (r matches Some(DJError::ConfigError(m)) && m@ == missing_analysis_message(path@)),
    {
        if self.use_placeholder {
            return None;
        }
        let mut m = owned("No analysis found for '");
        m.append(path);
        m.append("'. Generate analysis JSON using external tools (Essentia, librosa, or DJ software) and save as '");
        m.append(path);
        m.append(".analysis.json'");
        Some(DJError::ConfigError(m))
    }

    /// Checks if two tracks are harmonically compatible using the Camelot wheel.
    ///
    /// Compatible combinations:
    /// - Same key (e.g., 8A and 8A)
    /// - Adjacent on wheel (e.g., 8A and 7A or 9A)
    /// - Relative major/minor (e.g., 8A and 8B)
    ///
    /// A key that is not a Camelot key is assumed compatible with anything; the second
    /// key is only read when the first is one.
    pub fn are_compatible(&self, key_a: &str, key_b: &str) -> (r: bool)
        requires
            camelot_readable(key_a@),
            camelot_of(key_a@) is Some ==> camelot_readable(key_b@),
        ensures
            r == keys_compatible(camelot_of(key_a@), camelot_of(key_b@)),
    {
        let (num_a, mode_a) = match parse_camelot(key_a) {
            Some(v) => v,
            None => {
                return true;
            },
        };
        let (num_b, mode_b) = match parse_camelot(key_b) {
            Some(v) => v,
            None => {
                return true;
            },
        };
        if num_a == num_b && mode_a == mode_b {
            return true;
        }
        let adjacent = (num_a == num_b + 1) || (num_b == num_a + 1) || (num_a == 1 && num_b == 12) || (num_a == 12
            && num_b == 1);
        if adjacent && mode_a == mode_b {
            return true;
        }
        if num_a == num_b {
            return true;
        }
        false
    }

    /// Returns compatible keys for a given key: the key itself, its relative key, and
    /// its neighbours before and after on the wheel; none when it is not a Camelot key.
    pub fn compatible_keys(&self, key: &str) -> (r: Vec<String>)
        requires
            camelot_readable(key@),
        ensures
            match camelot_of(key@) {
                None => r@.len() == 0,
                Some(k) => r@.len() == 4 && forall|i: int| 0 <= i < 4 ==> (#[trigger] r@[i])@ == camelot_key_text(
                    compatible_pairs(k)[i],
                ),
            },
    {
        let (num, mode) = match parse_camelot(key) {
            Some(v) => v,
            None => {
                return Vec::new();
            },
        };
        let other = if mode == 'A' {
            'B'
        } else {
            'A'
        };
        let prev: u8 = if num == 1 {
            12
        } else {
            num - 1
        };
        let next: u8 = if num == 12 {
            1
        } else {
            num + 1
        };
        let mut r: Vec<String> = Vec::new();
        r.push(key_text(num, mode));
        r.push(key_text(num, other));
        r.push(key_text(prev, mode));
        r.push(key_text(next, mode));
        r
    }

    /// [`TrackAnalyzer::are_compatible`] on any keys: `None` where reading a key would cut a
    /// character in two.
    pub fn try_are_compatible(&self, key_a: &str, key_b: &str) -> (r: Option<bool>)
        ensures
            r is Some <==> (camelot_readable(key_a@) && (camelot_of(key_a@) is Some ==> camelot_readable(key_b@))),
            r matches Some(b) ==> b == keys_compatible(camelot_of(key_a@), camelot_of(key_b@)),
    {
        if !readable(key_a) {
            return None;
        }
        if parse_camelot(key_a).is_some() && !readable(key_b) {
            return None;
        }
        Some(self.are_compatible(key_a, key_b))
    }

    /// [`TrackAnalyzer::compatible_keys`] on any key: `None` where reading the key would cut a
    /// character in two.
    pub fn try_compatible_keys(&self, key: &str) -> (r: Option<Vec<String>>)
        ensures
            r is Some <==> camelot_readable(key@),
            r matches Some(v) ==> match camelot_of(key@) {
                None => v@.len() == 0,
                Some(k) => v@.len() == 4 && forall|i: int| 0 <= i < 4 ==> (#[trigger] v@[i])@ == camelot_key_text(
                    compatible_pairs(k)[i],
                ),
            },
    {
        if !readable(key) {
            return None;
        }
        Some(self.compatible_keys(key))
    }
}

/// Whether reading a key stays on character boundaries.
fn readable(key: &str) -> (r: bool)
    ensures
        r == camelot_readable(key@),
{
    let t = trim(key);
    let up = to_uppercase(t);
    let chars = chars_of(up.as_str());
    if chars.len() == 0 {
        return true;
    }
    (chars[chars.len() - 1] as u32) < 128
}

impl Default for TrackAnalyzer {
    fn default() -> (r: Self)
        ensures
            r.min_bpm_bits() == F64_60,
            r.max_bpm_bits() == F64_200,
            r.cache() is None,
            r.placeholder(),
    {
        TrackAnalyzer::new()
    }
}

// ---------------------------------------------------------------------------
// Mixing strategies
// ---------------------------------------------------------------------------

/// A mixing strategy configuration.
#[derive(Debug, Clone)]
pub struct MixStrategy {
    /// Strategy name.
    pub name: String,
    /// Preferred transition duration (beats), as `f64` bits.
    pub transition_duration_beats: u64,
    /// Whether to match BPM automatically.
    pub auto_sync: bool,
    /// Whether to consider key compatibility.
    pub harmonic_mixing: bool,
    /// Energy curve preference.
    pub energy_curve: EnergyCurve,
    /// Transition style preferences.
    pub preferred_styles: Vec<TransitionStyle>,
}

/// Whether a strategy has the given settings.
pub open spec fn strategy_is(
    s: MixStrategy,
    name: Seq<char>,
    beats: u64,
    auto_sync: bool,
    harmonic: bool,
    curve: EnergyCurve,
    styles: Seq<TransitionStyle>,
) -> bool {
    &&& s.name@ == name
    &&& s.transition_duration_beats == beats
    &&& s.auto_sync == auto_sync
    &&& s.harmonic_mixing == harmonic
    &&& s.energy_curve == curve
    &&& s.preferred_styles@ == styles
}

impl Default for MixStrategy {
    fn default() -> (r: Self)
        ensures
            strategy_is(r, "default"@, F64_16, true, true, EnergyCurve::Build, seq![TransitionStyle::Fade, TransitionStyle::EqSwap]),
    {
        MixStrategy {
            name: owned("default"),
            transition_duration_beats: F64_16,
            auto_sync: true,
            harmonic_mixing: true,
            energy_curve: EnergyCurve::Build,
            preferred_styles: vec![TransitionStyle::Fade, TransitionStyle::EqSwap],
        }
    }
}

impl MixStrategy {
    /// Creates a new strategy with the given name and the default settings.
    pub fn new(name: String) -> (r: Self)
        ensures
            strategy_is(r, name@, F64_16, true, true, EnergyCurve::Build, seq![TransitionStyle::Fade, TransitionStyle::EqSwap]),
    {
        MixStrategy { name, ..MixStrategy::default() }
    }

    /// Creates a minimal "just play" strategy.
    pub fn minimal() -> (r: Self)
        ensures
            strategy_is(r, "minimal"@, F64_4, false, false, EnergyCurve::Steady, seq![TransitionStyle::Cut]),
    {
        let mut styles: Vec<TransitionStyle> = Vec::new();
        styles.push(TransitionStyle::Cut);
        let r = MixStrategy {
            name: owned("minimal"),
            transition_duration_beats: F64_4,
            auto_sync: false,
            harmonic_mixing: false,
            energy_curve: EnergyCurve::Steady,
            preferred_styles: styles,
        };
        assert(r.preferred_styles@ =~= seq![TransitionStyle::Cut]);
        r
    }

    /// Creates a club/peak-time strategy.
    pub fn club() -> (r: Self)
        ensures
            strategy_is(r, "club"@, F64_32, true, true, EnergyCurve::Wave, seq![TransitionStyle::EqSwap, TransitionStyle::Fade]),
    {
        MixStrategy {
            name: owned("club"),
            transition_duration_beats: F64_32,
            auto_sync: true,
            harmonic_mixing: true,
            energy_curve: EnergyCurve::Wave,
            preferred_styles: vec![TransitionStyle::EqSwap, TransitionStyle::Fade],
        }
    }

    /// Creates a lounge/chill strategy.
    pub fn lounge() -> (r: Self)
        ensures
            strategy_is(r, "lounge"@, F64_64, true, true, EnergyCurve::Steady, seq![TransitionStyle::Fade, TransitionStyle::LoopFade]),
    {
        MixStrategy {
            name: owned("lounge"),
            transition_duration_beats: F64_64,
            auto_sync: true,
            harmonic_mixing: true,
            energy_curve: EnergyCurve::Steady,
            preferred_styles: vec![TransitionStyle::Fade, TransitionStyle::LoopFade],
        }
    }

    /// Sets the transition duration (beats, as `f64` bits).
    pub fn with_transition_duration(self, beats: u64) -> (r: Self)
        ensures
            strategy_is(r, self.name@, beats, self.auto_sync, self.harmonic_mixing, self.energy_curve, self.preferred_styles@),
    {
        MixStrategy { transition_duration_beats: beats, ..self }
    }

    /// Sets auto-sync preference.
    pub fn with_auto_sync(self, enabled: bool) -> (r: Self)
        ensures
            strategy_is(r, self.name@, self.transition_duration_beats, enabled, self.harmonic_mixing, self.energy_curve, self.preferred_styles@),
    {
        MixStrategy { auto_sync: enabled, ..self }
    }

    /// Sets harmonic mixing preference.
    pub fn with_harmonic_mixing(self, enabled: bool) -> (r: Self)
        ensures
            strategy_is(r, self.name@, self.transition_duration_beats, self.auto_sync, enabled, self.energy_curve, self.preferred_styles@),
    {
        MixStrategy { harmonic_mixing: enabled, ..self }
    }

    /// Sets the energy curve.
    pub fn with_energy_curve(self, curve: EnergyCurve) -> (r: Self)
        ensures
            strategy_is(r, self.name@, self.transition_duration_beats, self.auto_sync, self.harmonic_mixing, curve, self.preferred_styles@),
    {
        MixStrategy { energy_curve: curve, ..self }
    }
}

// ---------------------------------------------------------------------------
// Transition advice
// ---------------------------------------------------------------------------

/// A recommended transition.
#[derive(Debug, Clone)]
pub struct TransitionRecommendation {
    /// When to start the transition (beats from now), as `f64` bits.
    pub start_in_beats: u64,
    /// Duration of the transition (beats), as `f64` bits.
    pub duration_beats: u64,
    /// Transition style.
    pub style: TransitionStyle,
    /// Confidence score (0.0-1.0), as `f32` bits.
    pub confidence: u32,
    /// Reason for this recommendation.
    pub reason: String,
}

/// The transition style for the section the outgoing track is in: an EQ swap out of a
/// drop, a fade out of a breakdown or an outro, else a cut.
pub open spec fn section_style(section: Option<SectionType>) -> TransitionStyle {
    match section {
        Some(SectionType::Drop) => TransitionStyle::EqSwap,
        Some(SectionType::Breakdown) => TransitionStyle::Fade,
        Some(SectionType::Outro) => TransitionStyle::Fade,
        _ => TransitionStyle::Cut,
    }
}

/// The name of a section type, as `Debug` writes it.
pub open spec fn section_name(t: SectionType) -> Seq<char> {
    match t {
        SectionType::Intro => "Intro"@,
        SectionType::Verse => "Verse"@,
        SectionType::Chorus => "Chorus"@,
        SectionType::Breakdown => "Breakdown"@,
        SectionType::Drop => "Drop"@,
        SectionType::Bridge => "Bridge"@,
        SectionType::Outro => "Outro"@,
        SectionType::Unknown => "Unknown"@,
    }
}

/// The name of a transition style, as `Debug` writes it, in lower case.
pub open spec fn style_name(s: TransitionStyle) -> Seq<char> {
    match s {
        TransitionStyle::Cut => "cut"@,
        TransitionStyle::Fade => "fade"@,
        TransitionStyle::EqSwap => "eqswap"@,
        TransitionStyle::EchoOut => "echoout"@,
        TransitionStyle::Backspin => "backspin"@,
        TransitionStyle::LoopFade => "loopfade"@,
    }
}

/// The reason given with a recommendation.
pub open spec fn recommendation_reason_of(section: Option<SectionType>, style: TransitionStyle) -> Seq<char> {
    "Transition at "@ + match section {
        Some(t) => section_name(t),
        None => "unknown"@,
    } + " section using "@ + style_name(style) + " style"@
}

/// The transition style for the section the outgoing track is in.
pub fn style_for_section(section: Option<SectionType>) -> (r: TransitionStyle)
    ensures
        r == section_style(section),
{
    match section {
        Some(SectionType::Drop) => TransitionStyle::EqSwap,
        Some(SectionType::Breakdown) => TransitionStyle::Fade,
        Some(SectionType::Outro) => TransitionStyle::Fade,
        _ => TransitionStyle::Cut,
    }
}

/// The name of a section type.
fn section_text(t: SectionType) -> (r: &'static str)
    ensures
        r@ == section_name(t),
{
    match t {
        SectionType::Intro => "Intro",
        SectionType::Verse => "Verse",
        SectionType::Chorus => "Chorus",
        SectionType::Breakdown => "Breakdown",
        SectionType::Drop => "Drop",
        SectionType::Bridge => "Bridge",
        SectionType::Outro => "Outro",
        SectionType::Unknown => "Unknown",
    }
}

/// The name of a transition style, in lower case.
fn style_text(s: TransitionStyle) -> (r: &'static str)
    ensures
        r@ == style_name(s),
{
    match s {
        TransitionStyle::Cut => "cut",
        TransitionStyle::Fade => "fade",
        TransitionStyle::EqSwap => "eqswap",
        TransitionStyle::EchoOut => "echoout",
        TransitionStyle::Backspin => "backspin",
        TransitionStyle::LoopFade => "loopfade",
    }
}

/// The reason given with a recommendation, naming the section and the style.
pub fn recommendation_reason(section: Option<SectionType>, style: TransitionStyle) -> (r: String)
    ensures
        r@ == recommendation_reason_of(section, style),
{
    let mut r = owned("Transition at ");
    match section {
        Some(t) => r.append(section_text(t)),
        None => r.append("unknown"),
    }
    r.append(" section using ");
    r.append(style_text(style));
    r.append(" style");
    r
}

/// Advisor for transition timing and style.
#[derive(Debug, Clone)]
pub struct TransitionAdvisor {
    /// Minimum beats before transition (`f64` bits).
    min_lead_time_beats: u64,
    /// Preferred transition duration (`f64` bits).
    preferred_duration_beats: u64,
}

impl TransitionAdvisor {
    /// The minimum lead time (beats, `f64` bits).
    pub closed spec fn min_lead_time(&self) -> u64 {
        self.min_lead_time_beats
    }

    /// The preferred transition duration (beats, `f64` bits).
    pub closed spec fn preferred_duration(&self) -> u64 {
        self.preferred_duration_beats
    }

    /// Creates a new transition advisor: 8 beats of lead time, 16-beat transitions.
    pub fn new() -> (r: Self)
        ensures
            r.min_lead_time() == F64_8,
            r.preferred_duration() == F64_16,
    {
        TransitionAdvisor { min_lead_time_beats: F64_8, preferred_duration_beats: F64_16 }
    }

    /// Sets the minimum lead time (beats, `f64` bits).
    pub fn with_min_lead_time(self, beats: u64) -> (r: Self)
        ensures
            r.min_lead_time() == beats,
            r.preferred_duration() == self.preferred_duration(),
    {
        TransitionAdvisor { min_lead_time_beats: beats, ..self }
    }

    /// The minimum lead time and the preferred duration (beats, `f64` bits).
    pub fn timings(&self) -> (r: (u64, u64))
        ensures
            r == (self.min_lead_time(), self.preferred_duration()),
    {
        (self.min_lead_time_beats, self.preferred_duration_beats)
    }
}

impl Default for TransitionAdvisor {
    fn default() -> (r: Self)
        ensures
            r.min_lead_time() == F64_8,
            r.preferred_duration() == F64_16,
    {
        TransitionAdvisor::new()
    }
}

// ---------------------------------------------------------------------------
// Auto mixer
// ---------------------------------------------------------------------------

/// What the caller of [`AutoMixer::advance`] observed of the session and of the
/// outgoing (first) deck.
#[derive(Debug, Clone, Copy, PartialEq, Eq, Structural)]
pub struct MixerFacts {
    /// The session has a first (outgoing) deck.
    pub has_outgoing: bool,
    /// The session has a second (incoming) deck.
    pub has_incoming: bool,
    /// The outgoing deck has at most 60 seconds left.
    pub near_end: bool,
    /// The outgoing deck has no more beats left than the recommendation's start.
    pub reached_start: bool,
    /// The outgoing deck has no beats left.
    pub finished: bool,
}

/// What the caller of [`AutoMixer::advance`] is to do next.
#[derive(Debug, Clone, Copy, PartialEq, Eq, Structural)]
pub enum MixerStep {
    /// Nothing; no recommendation is returned.
    Wait,
    /// Analyse both decks' tracks, obtain a recommendation, hand it to
    /// [`AutoMixer::set_recommendation`] and return it.
    Recommend,
}

/// The state after a pause: everything but idle becomes paused.
pub open spec fn pause_state(s: AutoMixerState) -> AutoMixerState {
    if s == AutoMixerState::Idle {
        AutoMixerState::Idle
    } else {
        AutoMixerState::Paused
    }
}

/// The state after a resume: paused becomes playing, everything else stays.
pub open spec fn resume_state(s: AutoMixerState) -> AutoMixerState {
    if s == AutoMixerState::Paused {
        AutoMixerState::Playing
    } else {
        s
    }
}

/// The state after an update, from the state, whether a recommendation is held, and the facts.
pub open spec fn advance_state(s: AutoMixerState, has_rec: bool, f: MixerFacts) -> AutoMixerState {
    match s {
        AutoMixerState::Playing => if f.has_outgoing && f.near_end {
            AutoMixerState::Preparing
        } else {
            s
        },
        AutoMixerState::Preparing => if has_rec && f.has_outgoing && f.reached_start {
            AutoMixerState::Transitioning
        } else {
            s
        },
        AutoMixerState::Transitioning => if has_rec && f.has_outgoing && f.finished {
            AutoMixerState::Playing
        } else {
            s
        },
        _ => s,
    }
}

/// What an update asks of its caller: a recommendation when preparing without one,
/// with both decks present.
pub open spec fn advance_step(s: AutoMixerState, has_rec: bool, f: MixerFacts) -> MixerStep {
    if s == AutoMixerState::Preparing && !has_rec && f.has_outgoing && f.has_incoming {
        MixerStep::Recommend
    } else {
        MixerStep::Wait
    }
}

/// Whether an update drops the recommendation: when a transition completes.
pub open spec fn advance_clears(s: AutoMixerState, has_rec: bool, f: MixerFacts) -> bool {
    s == AutoMixerState::Transitioning && has_rec && f.has_outgoing && f.finished
}

/// The state an update may move on to: playing, preparing and transitioning follow one another.
pub open spec fn next_phase(s: AutoMixerState) -> AutoMixerState {
    match s {
        AutoMixerState::Playing => AutoMixerState::Preparing,
        AutoMixerState::Preparing => AutoMixerState::Transitioning,
        AutoMixerState::Transitioning => AutoMixerState::Playing,
        _ => s,
    }
}

/// Automated DJ mixer: its state, strategy, recommendation and track queue.
#[derive(Debug)]
pub struct AutoMixer {
    /// Current state.
    state: AutoMixerState,
    /// Mixing strategy.
    strategy: MixStrategy,
    /// Current transition recommendation.
    current_recommendation: Option<TransitionRecommendation>,
    /// Track queue.
    queue: Vec<String>,
}

impl AutoMixer {
    /// The mixer's state.
    pub closed spec fn spec_state(&self) -> AutoMixerState {
        self.state
    }

    /// The mixing strategy.
    pub closed spec fn spec_strategy(&self) -> MixStrategy {
        self.strategy
    }

    /// The recommendation held.
    pub closed spec fn recommendation(&self) -> Option<TransitionRecommendation> {
        self.current_recommendation
    }

    /// The queued track paths.
    pub closed spec fn queued(&self) -> Seq<String> {
        self.queue@
    }

    /// Whether `new` is `old` with only the state changed, to `s`.
    pub open spec fn only_state(old: Self, new: Self, s: AutoMixerState) -> bool {
        &&& new.spec_state() == s
        &&& new.spec_strategy() == old.spec_strategy()
        &&& new.recommendation() == old.recommendation()
        &&& new.queued() == old.queued()
    }

    /// Creates a new auto mixer: idle, with an empty queue.
    pub fn new(strategy: MixStrategy) -> (r: Self)
        ensures
            r.spec_state() == AutoMixerState::Idle,
            r.spec_strategy() == strategy,
            r.recommendation() is None,
            r.queued().len() == 0,
    {
        AutoMixer { state: AutoMixerState::Idle, strategy, current_recommendation: None, queue: Vec::new() }
    }

    /// Creates an auto mixer with default strategy.
    pub fn default_strategy() -> (r: Self)
        ensures
            r.spec_state() == AutoMixerState::Idle,
            strategy_is(r.spec_strategy(), "default"@, F64_16, true, true, EnergyCurve::Build, seq![TransitionStyle::Fade, TransitionStyle::EqSwap]),
            r.recommendation() is None,
            r.queued().len() == 0,
    {
        AutoMixer::new(MixStrategy::default())
    }

    /// Sets the mixing strategy.
    pub fn with_strategy(self, strategy: MixStrategy) -> (r: Self)
        ensures
            r.spec_strategy() == strategy,
            r.spec_state() == self.spec_state(),
            r.recommendation() == self.recommendation(),
            r.queued() == self.queued(),
    {
        AutoMixer { strategy, ..self }
    }

    /// The mixing strategy.
    pub fn strategy(&self) -> (r: &MixStrategy)
        ensures
            *r == self.spec_strategy(),
    {
        &self.strategy
    }

    /// Adds a track to the queue.
    pub fn add_to_queue(&mut self, track_path: String)
        ensures
            final(self).queued() == old(self).queued().push(track_path),
            final(self).spec_state() == old(self).spec_state(),
            final(self).spec_strategy() == old(self).spec_strategy(),
            final(self).recommendation() == old(self).recommendation(),
    {
        self.queue.push(track_path);
    }

    /// Clears the queue.
    pub fn clear_queue(&mut self)
        ensures
            final(self).queued().len() == 0,
            final(self).spec_state() == old(self).spec_state(),
            final(self).spec_strategy() == old(self).spec_strategy(),
            final(self).recommendation() == old(self).recommendation(),
    {
        self.queue.clear();
    }

    /// Returns the queue.
    pub fn queue(&self) -> (r: &[String])
        ensures
            r@ == self.queued(),
    {
        self.queue.as_slice()
    }

    /// Starts auto mixing.
    pub fn start(&mut self)
        ensures
            Self::only_state(*old(self), *final(self), AutoMixerState::Playing),
    {
        self.state = AutoMixerState::Playing;
    }

    /// Stops auto mixing, dropping the recommendation.
    pub fn stop(&mut self)
        ensures
            final(self).spec_state() == AutoMixerState::Idle,
            final(self).recommendation() is None,
            final(self).spec_strategy() == old(self).spec_strategy(),
            final(self).queued() == old(self).queued(),
    {
        self.state = AutoMixerState::Idle;
        self.current_recommendation = None;
    }

    /// Pauses auto mixing (an idle mixer stays idle).
    pub fn pause(&mut self)
        ensures
            Self::only_state(*old(self), *final(self), pause_state(old(self).spec_state())),
    {
        if self.state != AutoMixerState::Idle {
            self.state = AutoMixerState::Paused;
        }
    }

    /// Resumes auto mixing (only a paused mixer resumes).
    pub fn resume(&mut self)
        ensures
            Self::only_state(*old(self), *final(self), resume_state(old(self).spec_state())),
    {
        if self.state == AutoMixerState::Paused {
            self.state = AutoMixerState::Playing;
        }
    }

    /// Returns the current state.
    pub fn state(&self) -> (r: AutoMixerState)
        ensures
            r == self.spec_state(),
    {
        self.state
    }

    /// Returns the current recommendation.
    pub fn current_recommendation(&self) -> (r: Option<&TransitionRecommendation>)
        ensures
            match r {
                Some(x) => self.recommendation() == Some(*x),
                None => self.recommendation() is None,
            },
    {
        self.current_recommendation.as_ref()
    }

    /// Updates the mixer with what was observed of the session: moves through playing,
    /// preparing and transitioning, and says whether a recommendation is wanted.
    pub fn advance(&mut self, facts: MixerFacts) -> (r: MixerStep)
        ensures
            r == advance_step(old(self).spec_state(), old(self).recommendation() is Some, facts),
            final(self).spec_state() == advance_state(old(self).spec_state(), old(self).recommendation() is Some, facts),
            final(self).recommendation() == (if advance_clears(old(self).spec_state(), old(self).recommendation() is Some, facts) {
                None
            } else {
                old(self).recommendation()
            }),
            final(self).spec_strategy() == old(self).spec_strategy(),
            final(self).queued() == old(self).queued(),
    {
        let has_rec = self.current_recommendation.is_some();
        match self.state {
            AutoMixerState::Idle | AutoMixerState::Paused => MixerStep::Wait,
            AutoMixerState::Playing => {
                if facts.has_outgoing && facts.near_end {
                    self.state = AutoMixerState::Preparing;
                }
                MixerStep::Wait
            },
            AutoMixerState::Preparing => {
                if !has_rec && facts.has_outgoing && facts.has_incoming {
                    return MixerStep::Recommend;
                }
                if has_rec && facts.has_outgoing && facts.reached_start {
                    self.state = AutoMixerState::Transitioning;
                }
                MixerStep::Wait
            },
            AutoMixerState::Transitioning => {
                if has_rec && facts.has_outgoing && facts.finished {
                    self.state = AutoMixerState::Playing;
                    self.current_recommendation = None;
                }
                MixerStep::Wait
            },
        }
    }

    /// Keeps a recommendation obtained after [`MixerStep::Recommend`].
    pub fn set_recommendation(&mut self, rec: TransitionRecommendation)
        ensures
            final(self).recommendation() == Some(rec),
            final(self).spec_state() == old(self).spec_state(),
            final(self).spec_strategy() == old(self).spec_strategy(),
            final(self).queued() == old(self).queued(),
    {
        self.current_recommendation = Some(rec);
    }
}

impl Default for AutoMixer {
    fn default() -> (r: Self)
        ensures
            r.spec_state() == AutoMixerState::Idle,
            strategy_is(r.spec_strategy(), "default"@, F64_16, true, true, EnergyCurve::Build, seq![TransitionStyle::Fade, TransitionStyle::EqSwap]),
            r.recommendation() is None,
            r.queued().len() == 0,
    {
        AutoMixer::default_strategy()
    }
}

/// Pausing and then resuming brings any mixer that is not idle back to playing, and
/// leaves an idle one idle.
pub proof fn lemma_pause_then_resume(s: AutoMixerState)
    ensures
        resume_state(pause_state(s)) == (if s == AutoMixerState::Idle {
            AutoMixerState::Idle
        } else {
            AutoMixerState::Playing
        }),
{
}

/// An idle or paused mixer ignores updates: its state stays, it keeps its recommendation
/// and asks for nothing.
pub proof fn lemma_inert_when_idle_or_paused(s: AutoMixerState, has_rec: bool, f: MixerFacts)
    requires
        s == AutoMixerState::Idle || s == AutoMixerState::Paused,
    ensures
        advance_state(s, has_rec, f) == s,
        advance_step(s, has_rec, f) == MixerStep::Wait,
        !advance_clears(s, has_rec, f),
{
}

/// An update either keeps the state or moves it one phase on, playing to preparing to
/// transitioning and back to playing; it asks for a recommendation only while
/// preparing without one, and then keeps the state.
pub proof fn lemma_advance_follows_phases(s: AutoMixerState, has_rec: bool, f: MixerFacts)
    ensures
        advance_state(s, has_rec, f) == s || advance_state(s, has_rec, f) == next_phase(s),
        advance_step(s, has_rec, f) == MixerStep::Recommend ==> s == AutoMixerState::Preparing && !has_rec
            && advance_state(s, has_rec, f) == s,
        advance_clears(s, has_rec, f) ==> advance_state(s, has_rec, f) == AutoMixerState::Playing,
{
}

/// A mixer moves into a transition only with a recommendation in hand.
pub proof fn lemma_transition_needs_recommendation(s: AutoMixerState, has_rec: bool, f: MixerFacts)
    requires
        s != AutoMixerState::Transitioning,
        advance_state(s, has_rec, f) == AutoMixerState::Transitioning,
    ensures
        has_rec,
{
}

/// Two Camelot keys mix exactly when they are the same key, share their number (relative
/// keys), or are wheel neighbours (numbers one apart, 12 next to 1) in the same mode, so
/// keys differing in both number and mode never mix; equivalently, a key mixes exactly
/// with the four keys the wheel lists for it.
pub proof fn lemma_compatibility_on_the_wheel(a: (u8, char), b: (u8, char))
    requires
        1 <= a.0 <= 12,
        a.1 == 'A' || a.1 == 'B',
        1 <= b.0 <= 12,
        b.1 == 'A' || b.1 == 'B',
    ensures
        keys_compatible(Some(a), Some(b)) <==> (a == b || a.0 == b.0 || (a.1 == b.1 && (a.0 + 1 == b.0 || b.0 + 1 == a.0
            || a.0 + 11 == b.0 || b.0 + 11 == a.0))),
        a.0 != b.0 && a.1 != b.1 ==> !keys_compatible(Some(a), Some(b)),
        keys_compatible(Some(a), Some(b)) <==> compatible_pairs(a).contains(b),
{
    let p = compatible_pairs(a);
    if keys_compatible(Some(a), Some(b)) {
        if a == b {
            assert(p[0] == b);
        } else if a.0 == b.0 {
            assert(p[1] == b);
        } else if wheel_prev(a.0) == b.0 {
            assert(p[2] == b);
        } else {
            assert(p[3] == b);
        }
    }
    if p.contains(b) {
        let i = choose|i: int| 0 <= i < p.len() && p[i] == b;
        assert(i == 0 || i == 1 || i == 2 || i == 3);
    }
}

/// The style chosen out of each section: an EQ swap exactly out of a drop, a fade exactly
/// out of a breakdown or an outro, and a cut out of every other section (intro, verse,
/// chorus, bridge, unknown) or when the section is not known; no other style is chosen.
pub proof fn lemma_section_styles(s: Option<SectionType>)
    ensures
        (section_style(s) == TransitionStyle::EqSwap) <==> s == Some(SectionType::Drop),
        (section_style(s) == TransitionStyle::Fade) <==> (s == Some(SectionType::Breakdown) || s == Some(
            SectionType::Outro,
        )),
        (section_style(s) == TransitionStyle::Cut) <==> (s is None || s == Some(SectionType::Intro) || s == Some(
            SectionType::Verse,
        ) || s == Some(SectionType::Chorus) || s == Some(SectionType::Bridge) || s == Some(SectionType::Unknown)),
{
}

} // verus!
