//! Deck state as the safety checks read it.
//!
//! Real-valued quantities are carried as the IEEE-754 bit pattern of the `f64`
//! they stand for; the arithmetic on them lives with the callers.

use vstd::prelude::*;

verus! {

/// Information about a loaded track.
#[derive(Debug, Clone)]
pub struct TrackInfo {
    /// Track title.
    pub title: Option<String>,
    /// Artist name.
    pub artist: Option<String>,
    /// Album name.
    pub album: Option<String>,
    /// Original BPM (before pitch adjustment), as `f64` bits.
    pub bpm: u64,
    /// Key (Camelot or standard notation).
    pub key: Option<String>,
    /// Genre.
    pub genre: Option<String>,
    /// Energy level (1-10).
    pub energy: Option<u8>,
    /// File path.
    pub path: Option<String>,
}

/// Current state of a DJ deck.
#[derive(Debug, Clone)]
pub struct DeckState {
    /// Whether the deck is currently playing.
    pub is_playing: bool,
    /// Current BPM, as `f64` bits.
    pub bpm: u64,
    /// Current position in the track (seconds), as `f64` bits.
    pub position_secs: u64,
    /// Track duration (seconds), as `f64` bits.
    pub duration_secs: u64,
    /// Current beat position (fractional), as `f64` bits.
    pub beat_position: u64,
    /// Phase relative to master (0.0-1.0), as `f64` bits.
    pub phase: u64,
    /// Whether loop is active.
    pub loop_active: bool,
    /// Loop length in beats (if active), as `f64` bits.
    pub loop_beats: Option<u64>,
    /// Currently loaded track info.
    pub track: Option<TrackInfo>,
    /// Whether this deck is the sync master.
    pub is_master: bool,
    /// Pitch/tempo adjustment (percentage), as `f64` bits.
    pub pitch_percent: u64,
    /// Key of the track.
    pub key: Option<String>,
}

impl DeckState {
    /// Creates a new empty deck state: stopped, all quantities zero, nothing loaded.
    pub fn new() -> (r: Self)
        ensures
            !r.is_playing,
            r.bpm == 0 && r.position_secs == 0 && r.duration_secs == 0,
            r.beat_position == 0 && r.phase == 0 && r.pitch_percent == 0,
            !r.loop_active && r.loop_beats is None,
            r.track is None && !r.is_master && r.key is None,
    {
        DeckState {
            is_playing: false,
            bpm: 0,
            position_secs: 0,
            duration_secs: 0,
            beat_position: 0,
            phase: 0,
            loop_active: false,
            loop_beats: None,
            track: None,
            is_master: false,
            pitch_percent: 0,
            key: None,
        }
    }
}

impl Default for DeckState {
    fn default() -> (r: Self)
        ensures
            !r.is_playing,
            r.bpm == 0 && r.position_secs == 0 && r.duration_secs == 0,
            r.beat_position == 0 && r.phase == 0 && r.pitch_percent == 0,
            !r.loop_active && r.loop_beats is None,
            r.track is None && !r.is_master && r.key is None,
    {
        DeckState::new()
    }
}

/// `f64` bits of 1.0.
pub const F64_ONE: u64 = 0x3FF0_0000_0000_0000;

/// `f64` bits of 0.5.
pub const F64_HALF: u64 = 0x3FE0_0000_0000_0000;

/// State of a single mixer channel; levels are `f64` bits.
#[derive(Debug, Clone, Copy, PartialEq, Eq, Structural)]
pub struct ChannelState {
    /// Volume fader (0.0-1.0).
    pub volume: u64,
    /// Low EQ (-1.0 to 1.0, 0.0 = unity).
    pub eq_low: u64,
    /// Mid EQ (-1.0 to 1.0, 0.0 = unity).
    pub eq_mid: u64,
    /// High EQ (-1.0 to 1.0, 0.0 = unity).
    pub eq_high: u64,
    /// Filter cutoff (0.0-1.0, 0.5 = bypass).
    pub filter: u64,
    /// Whether cue/PFL is enabled.
    pub cue_enabled: bool,
}

/// The channel a mixer starts with: full volume, flat EQ, filter bypassed, no cue.
pub open spec fn default_channel() -> ChannelState {
    ChannelState { volume: F64_ONE, eq_low: 0, eq_mid: 0, eq_high: 0, filter: F64_HALF, cue_enabled: false }
}

impl Default for ChannelState {
    fn default() -> (r: Self)
        ensures
            r == default_channel(),
    {
        ChannelState { volume: F64_ONE, eq_low: 0, eq_mid: 0, eq_high: 0, filter: F64_HALF, cue_enabled: false }
    }
}

/// State of the mixer section; levels are `f64` bits.
#[derive(Debug, Clone)]
pub struct MixerState {
    /// Crossfader position (-1.0 = full left, 1.0 = full right).
    pub crossfader: u64,
    /// Master volume (0.0-1.0).
    pub master_volume: u64,
    /// Headphone cue mix (0.0 = cue only, 1.0 = master only).
    pub cue_mix: u64,
    /// Per-deck channel state.
    pub channels: Vec<ChannelState>,
}

impl MixerState {
    /// Creates a new mixer state: crossfader centred, full master volume, even cue mix,
    /// one default channel per deck.
    pub fn new(num_decks: usize) -> (r: Self)
        ensures
            r.crossfader == 0,
            r.master_volume == F64_ONE,
            r.cue_mix == F64_HALF,
            r.channels@ == Seq::new(num_decks as nat, |i: int| default_channel()),
    {
        let mut channels: Vec<ChannelState> = Vec::new();
        for i in 0..num_decks
            invariant
                channels@ == Seq::new(i as nat, |k: int| default_channel()),
        {
            channels.push(ChannelState::default());
            assert(channels@ =~= Seq::new((i + 1) as nat, |k: int| default_channel()));
        }
        MixerState { crossfader: 0, master_volume: F64_ONE, cue_mix: F64_HALF, channels }
    }

    /// Gets the channel state for a deck (0-indexed).
    pub fn channel(&self, deck: usize) -> (r: Option<&ChannelState>)
        ensures
            deck < self.channels@.len() ==> r == Some(&self.channels@[deck as int]),
            deck >= self.channels@.len() ==> r is None,
    {
        if deck < self.channels.len() {
            Some(&self.channels[deck])
        } else {
            None
        }
    }
}

impl MixerState {
    /// Gets mutable channel state for a deck.
    pub fn channel_mut(&mut self, deck: usize) -> (r: Option<&mut ChannelState>)
        ensures
            deck >= old(self).channels@.len() ==> r is None && *final(self) == *old(self),
            deck < old(self).channels@.len() ==> (r matches Some(c) && *c == old(self).channels@[deck as int]
                && final(self).channels@ == old(self).channels@.update(deck as int, *final(c))
                && final(self).crossfader == old(self).crossfader && final(self).master_volume == old(self).master_volume
                && final(self).cue_mix == old(self).cue_mix),
    {
        if deck < self.channels.len() {
            Some(&mut self.channels[deck])
        } else {
            None
        }
    }
}

/// Overall session state.
#[derive(Debug, Clone)]
pub struct SessionState {
    /// States of all decks.
    pub decks: Vec<DeckState>,
    /// Mixer state.
    pub mixer: MixerState,
    /// Current session duration (seconds), as `f64` bits.
    pub session_duration: u64,
    /// Number of transitions performed.
    pub transition_count: u32,
    /// Current energy level (subjective 1-10).
    pub energy_level: u8,
    /// Whether auto-DJ is active.
    pub auto_dj_active: bool,
}

/// Whether a deck state is the fresh one `DeckState::new` makes.
pub open spec fn fresh_deck(d: DeckState) -> bool {
    &&& !d.is_playing
    &&& d.bpm == 0 && d.position_secs == 0 && d.duration_secs == 0
    &&& d.beat_position == 0 && d.phase == 0 && d.pitch_percent == 0
    &&& !d.loop_active && d.loop_beats is None
    &&& d.track is None && !d.is_master && d.key is None
}

/// Position of the first master deck, or -1 when no deck is master.
pub open spec fn master_index(decks: Seq<DeckState>) -> int
    decreases decks.len(),
{
    if decks.len() == 0 {
        -1
    } else {
        let j = master_index(decks.drop_last());
        if j >= 0 {
            j
        } else if decks.last().is_master {
            decks.len() - 1
        } else {
            -1
        }
    }
}

/// Facts about `master_index`: -1 or the position of a master deck, with none before it.
proof fn lemma_master_index(decks: Seq<DeckState>)
    ensures
        -1 <= master_index(decks) < decks.len(),
        master_index(decks) >= 0 ==> decks[master_index(decks)].is_master,
        forall|j: int| 0 <= j < decks.len() && (master_index(decks) < 0 || j < master_index(decks)) ==> !(#[trigger] decks[j]).is_master,
    decreases decks.len(),
{
    if decks.len() > 0 {
        lemma_master_index(decks.drop_last());
        assert forall|j: int| 0 <= j < decks.len() - 1 implies #[trigger] decks[j] == decks.drop_last()[j] by {}
    }
}

impl SessionState {
    /// Creates a new session state with the given number of fresh decks and a matching
    /// mixer; energy level 5, nothing else started.
    pub fn new(num_decks: usize) -> (r: Self)
        ensures
            r.decks@.len() == num_decks,
            forall|i: int| 0 <= i < num_decks ==> fresh_deck(#[trigger] r.decks@[i]),
            r.mixer.crossfader == 0,
            r.mixer.master_volume == F64_ONE,
            r.mixer.cue_mix == F64_HALF,
            r.mixer.channels@ == Seq::new(num_decks as nat, |i: int| default_channel()),
            r.session_duration == 0,
            r.transition_count == 0,
            r.energy_level == 5,
            !r.auto_dj_active,
    {
        let mut decks: Vec<DeckState> = Vec::new();
        for i in 0..num_decks
            invariant
                decks@.len() == i,
                forall|k: int| 0 <= k < i ==> fresh_deck(#[trigger] decks@[k]),
        {
            decks.push(DeckState::new());
        }
        SessionState {
            decks,
            mixer: MixerState::new(num_decks),
            session_duration: 0,
            transition_count: 0,
            energy_level: 5,
            auto_dj_active: false,
        }
    }

    /// Gets the state of a specific deck.
    pub fn deck(&self, index: usize) -> (r: Option<&DeckState>)
        ensures
            index < self.decks@.len() ==> r == Some(&self.decks@[index as int]),
            index >= self.decks@.len() ==> r is None,
    {
        if index < self.decks.len() {
            Some(&self.decks[index])
        } else {
            None
        }
    }

    /// Gets mutable deck state.
    pub fn deck_mut(&mut self, index: usize) -> (r: Option<&mut DeckState>)
        ensures
            index >= old(self).decks@.len() ==> r is None && *final(self) == *old(self),
            index < old(self).decks@.len() ==> (r matches Some(d) && *d == old(self).decks@[index as int]
                && final(self).decks@ == old(self).decks@.update(index as int, *final(d))),
    {
        if index < self.decks.len() {
            Some(&mut self.decks[index])
        } else {
            None
        }
    }

    /// Returns the master deck: the first whose `is_master` is set.
    pub fn master_deck(&self) -> (r: Option<&DeckState>)
        ensures
            master_index(self.decks@) >= 0 ==> r == Some(&self.decks@[master_index(self.decks@)]),
            master_index(self.decks@) < 0 ==> r is None,
    {
        proof { lemma_master_index(self.decks@); }
        let mut i: usize = 0;
        while i < self.decks.len()
            invariant
                i <= self.decks.len(),
                forall|j: int| 0 <= j < i ==> !(#[trigger] self.decks@[j]).is_master,
                -1 <= master_index(self.decks@) < self.decks@.len(),
                master_index(self.decks@) >= 0 ==> self.decks@[master_index(self.decks@)].is_master,
                forall|j: int| 0 <= j < self.decks@.len() && (master_index(self.decks@) < 0 || j < master_index(self.decks@)) ==> !(#[trigger] self.decks@[j]).is_master,
            decreases self.decks.len() - i,
        {
            if self.decks[i].is_master {
                return Some(&self.decks[i]);
            }
            i += 1;
        }
        None
    }
}

} // verus!
