//! Action definitions and action space management.
//!
//! Actions are the agent's interface to DJ software, organized into
//! progressive tiers with quantization, cooldowns, and safety masks.

use vstd::prelude::*;
use crate::assoc::{
    assoc_get, assoc_lookup, assoc_set, distinct_keys, key_index, lemma_insert_distinct, lemma_insert_lookup,
    lemma_key_index, lemma_key_index_at,
};
use crate::command::{Command, Deck, deck_letter};
use crate::config::{SafetyConfig, F64_15};
use crate::error::DJError;
use crate::state::DeckState;
use crate::text::{has_prefix, owned, starts_with};

verus! {

/// Action tiers (unlock progressively).
///
/// Tiers represent increasing levels of DJ control complexity.
/// Start with basic transport and progress to advanced mixing.
///
/// Tiers are ordered by their numbers (see the `tier_order` module).
#[derive(Debug, Clone, Copy, PartialEq, Eq, Ord, Hash, Structural)]
pub enum Tier {
    /// Transport controls: PLAY, SYNC, PITCH_NUDGE.
    Transport,
    /// Looping: SET_LOOP, LOOP_DOUBLE/HALVE, RELOOP/EXIT.
    Looping,
    /// Cues: SET_CUE, JUMP_TO_CUE, CENSOR/SLIP.
    Cues,
    /// Effects: FILTER, FX_TOGGLE, ECHO/REVERB_TAP.
    FX,
    /// Library: LIB_SEARCH, LOAD_TO_DECK, TEMPO_ADJUST.
    Library,
    /// Blending: CROSSFADER, EQ_BAND, SECTION_CUT, SAMPLE_TRIGGER.
    Blend,
}

impl Default for Tier {
    fn default() -> (r: Self)
        ensures
            r == Tier::Transport,
    {
        Tier::Transport
    }
}

/// The number of a tier, 0 for Transport up to 5 for Blend.
pub open spec fn tier_number(t: Tier) -> u8 {
    match t {
        Tier::Transport => 0,
        Tier::Looping => 1,
        Tier::Cues => 2,
        Tier::FX => 3,
        Tier::Library => 4,
        Tier::Blend => 5,
    }
}

/// The tier with a given number, if there is one.
pub open spec fn tier_from_number(n: u8) -> Option<Tier> {
    match n {
        0 => Some(Tier::Transport),
        1 => Some(Tier::Looping),
        2 => Some(Tier::Cues),
        3 => Some(Tier::FX),
        4 => Some(Tier::Library),
        5 => Some(Tier::Blend),
        _ => None,
    }
}

/// The name of a tier.
pub open spec fn tier_name(t: Tier) -> Seq<char> {
    match t {
        Tier::Transport => "Transport"@,
        Tier::Looping => "Looping"@,
        Tier::Cues => "Cues"@,
        Tier::FX => "FX"@,
        Tier::Library => "Library"@,
        Tier::Blend => "Blend"@,
    }
}

/// All tiers, in unlock order.
pub open spec fn all_tiers() -> Seq<Tier> {
    seq![Tier::Transport, Tier::Looping, Tier::Cues, Tier::FX, Tier::Library, Tier::Blend]
}

impl Tier {
    /// Returns the tier number.
    pub fn number(&self) -> (r: u8)
        ensures
            r == tier_number(*self),
    {
        match self {
            Tier::Transport => 0,
            Tier::Looping => 1,
            Tier::Cues => 2,
            Tier::FX => 3,
            Tier::Library => 4,
            Tier::Blend => 5,
        }
    }

    /// Creates a tier from a number.
    pub fn from_number(n: u8) -> (r: Option<Tier>)
        ensures
            r == tier_from_number(n),
    {
        match n {
            0 => Some(Tier::Transport),
            1 => Some(Tier::Looping),
            2 => Some(Tier::Cues),
            3 => Some(Tier::FX),
            4 => Some(Tier::Library),
            5 => Some(Tier::Blend),
            _ => None,
        }
    }

    /// Returns the tier name.
    pub fn name(&self) -> (r: &'static str)
        ensures
            r@ == tier_name(*self),
    {
        match self {
            Tier::Transport => "Transport",
            Tier::Looping => "Looping",
            Tier::Cues => "Cues",
            Tier::FX => "FX",
            Tier::Library => "Library",
            Tier::Blend => "Blend",
        }
    }

    /// Returns all tiers in order.
    pub fn all() -> (r: Vec<Tier>)
        ensures
            r@ == all_tiers(),
    {
        let mut v: Vec<Tier> = Vec::new();
        v.push(Tier::Transport);
        v.push(Tier::Looping);
        v.push(Tier::Cues);
        v.push(Tier::FX);
        v.push(Tier::Library);
        v.push(Tier::Blend);
        assert(v@ =~= all_tiers());
        v
    }
}

/// A tier's number gives the tier back, and the numbers with a tier are exactly 0 to 5.
pub proof fn lemma_tier_number_roundtrip(t: Tier, n: u8)
    ensures
        tier_from_number(tier_number(t)) == Some(t),
        tier_from_number(n) is Some <==> n <= 5,
        tier_from_number(n) matches Some(u) ==> tier_number(u) == n,
{
}

/// The list of all tiers holds each tier once, at the position of its number.
pub proof fn lemma_all_tiers_numbered(i: int)
    requires
        0 <= i < all_tiers().len(),
    ensures
        all_tiers().len() == 6,
        tier_number(all_tiers()[i]) == i,
{
}

/// A single action the DJ agent can perform.
#[derive(Debug, Clone)]
pub struct Action {
    /// Action identifier (e.g., "PLAY_A", "LOOP_4_A").
    pub name: String,
    /// Which tier this action belongs to.
    pub tier: Tier,
    /// Target deck (if deck-specific).
    pub deck: Option<Deck>,
    /// Optional parameters (name, JSON text of the value).
    pub params: Vec<(String, String)>,
    /// Whether action must fire at beat boundaries.
    pub quantized: bool,
    /// Max phase error for quantized actions (degrees), as `f64` bits.
    pub quant_window_deg: u64,
    /// Minimum beats between repeated uses.
    pub cooldown_beats: u32,
    /// The command this action executes.
    pub command: Option<Command>,
}

/// Quantization that an action gets when its definition leaves it out.
pub fn default_quantized() -> (r: bool)
    ensures
        r,
{
    true
}

/// Cooldown in beats that an action gets when its definition leaves it out.
pub fn default_cooldown_beats() -> (r: u32)
    ensures
        r == 2,
{
    2
}

/// Whether an action name marks a destructive action (load, eject or stop).
pub open spec fn destructive_name(name: Seq<char>) -> bool {
    has_prefix(name, "LOAD"@) || has_prefix(name, "EJECT"@) || has_prefix(name, "STOP"@)
}

/// Whether the playing-deck lock refuses an action.
pub open spec fn blocked_by_deck_lock(a: Action, is_playing: bool, safety: SafetyConfig) -> bool {
    a.deck is Some && is_playing && safety.lock_playing_deck && destructive_name(a.name@)
}

/// Whether the live-load ban refuses an action.
pub open spec fn blocked_by_live_load(a: Action, is_playing: bool, safety: SafetyConfig) -> bool {
    has_prefix(a.name@, "LOAD"@) && is_playing && safety.forbid_load_on_live
}

/// The reason given when the playing-deck lock refuses an action.
pub open spec fn deck_lock_reason(a: Action) -> Seq<char> {
    "Cannot execute "@ + a.name@ + " on playing deck "@ + deck_letter(a.deck->0)
}

/// What the safety check answers for an action on a deck in a given state.
pub open spec fn allowed_result(a: Action, is_playing: bool, safety: SafetyConfig, r: Result<(), DJError>) -> bool {
    if blocked_by_deck_lock(a, is_playing, safety) {
        r matches Err(DJError::ActionNotAllowed { reason }) && reason@ == deck_lock_reason(a)
    } else if blocked_by_live_load(a, is_playing, safety) {
        r matches Err(DJError::ActionNotAllowed { reason }) && reason@ == "Cannot load track on live deck"@
    } else {
        r is Ok
    }
}

impl Action {
    /// Creates a new action: no deck, no parameters, quantized within 15 degrees,
    /// a cooldown of 2 beats, no command.
    pub fn new(name: &str, tier: Tier) -> (r: Self)
        ensures
            r.name@ == name@,
            r.tier == tier,
            r.deck is None,
            r.params@.len() == 0,
            r.quantized,
            r.quant_window_deg == F64_15,
            r.cooldown_beats == 2,
            r.command is None,
    {
        Action {
            name: owned(name),
            tier,
            deck: None,
            params: Vec::new(),
            quantized: true,
            quant_window_deg: F64_15,
            cooldown_beats: 2,
            command: None,
        }
    }

    /// Sets the target deck.
    pub fn with_deck(self, deck: Deck) -> (r: Self)
        ensures
            r == (Action { deck: Some(deck), ..self }),
    {
        Action { deck: Some(deck), ..self }
    }

    /// Sets a parameter, given as the JSON text of its value; a parameter of the
    /// same name is replaced.
    pub fn with_param(self, key: &str, value_json: String) -> (r: Self)
        ensures
            forall|q: Seq<char>| #[trigger] assoc_lookup(r.params@, q) == (if q == key@ {
                Some(value_json)
            } else {
                assoc_lookup(self.params@, q)
            }),
            r.params@.len() == self.params@.len() + (if key_index(self.params@, key@) >= 0 { 0int } else { 1int }),
            r.name == self.name && r.tier == self.tier && r.deck == self.deck,
            r.quantized == self.quantized && r.quant_window_deg == self.quant_window_deg,
            r.cooldown_beats == self.cooldown_beats && r.command == self.command,
    {
        let mut a = self;
        let k = owned(key);
        let ghost kk = k;
        assoc_set(&mut a.params, k, value_json);
        proof {
            lemma_key_index(self.params@, key@);
            assert forall|q: Seq<char>| #[trigger] assoc_lookup(a.params@, q) == (if q == key@ {
                Some(value_json)
            } else {
                assoc_lookup(self.params@, q)
            }) by {
                lemma_insert_lookup(self.params@, kk, value_json, q);
            }
        }
        a
    }

    /// Sets quantization; the window is given as `f64` bits.
    pub fn with_quantization(self, quantized: bool, window_deg: u64) -> (r: Self)
        ensures
            r == (Action { quantized, quant_window_deg: window_deg, ..self }),
    {
        Action { quantized, quant_window_deg: window_deg, ..self }
    }

    /// Sets cooldown.
    pub fn with_cooldown(self, beats: u32) -> (r: Self)
        ensures
            r == (Action { cooldown_beats: beats, ..self }),
    {
        Action { cooldown_beats: beats, ..self }
    }

    /// Links to a command.
    pub fn with_command(self, command: Command) -> (r: Self)
        ensures
            r == (Action { command: Some(command), ..self }),
    {
        Action { command: Some(command), ..self }
    }

    /// Checks if this action is allowed given current state and safety config.
    pub fn is_allowed(&self, state: &DeckState, safety: &SafetyConfig) -> (r: Result<(), DJError>)
        ensures
            allowed_result(*self, state.is_playing, *safety, r),
    {
        if let Some(deck) = &self.deck {
            if state.is_playing && safety.lock_playing_deck {
                if self.is_destructive() {
                    let mut reason = owned("Cannot execute ");
                    reason.append(self.name.as_str());
                    reason.append(" on playing deck ");
                    reason.append(deck.letter());
                    return Err(DJError::action_not_allowed(reason));
                }
            }
        }
        if starts_with(self.name.as_str(), "LOAD") && state.is_playing && safety.forbid_load_on_live {
            return Err(DJError::action_not_allowed(owned("Cannot load track on live deck")));
        }
        Ok(())
    }

    /// Returns true if this action is destructive.
    fn is_destructive(&self) -> (r: bool)
        ensures
            r == destructive_name(self.name@),
    {
        starts_with(self.name.as_str(), "LOAD") || starts_with(self.name.as_str(), "EJECT") || starts_with(
            self.name.as_str(),
            "STOP",
        )
    }
}

/// The actions every action space starts with: name, tier, deck, cooldown in beats,
/// quantization and quantization window (as `f64` bits).
pub open spec fn default_action_table() -> Seq<(Seq<char>, Tier, Option<Deck>, u32, bool, u64)> {
    seq![
        ("PLAY_A"@, Tier::Transport, Some(Deck::Left), 2u32, true, F64_15),
        ("PLAY_B"@, Tier::Transport, Some(Deck::Right), 2u32, true, F64_15),
        ("SYNC_A"@, Tier::Transport, Some(Deck::Left), 2u32, true, F64_15),
        ("SYNC_B"@, Tier::Transport, Some(Deck::Right), 2u32, true, F64_15),
        ("PITCH_NUDGE_UP_A"@, Tier::Transport, Some(Deck::Left), 1u32, true, F64_15),
        ("PITCH_NUDGE_DOWN_A"@, Tier::Transport, Some(Deck::Left), 1u32, true, F64_15),
        ("LOOP_4_A"@, Tier::Looping, Some(Deck::Left), 2u32, true, F64_15),
        ("LOOP_4_B"@, Tier::Looping, Some(Deck::Right), 2u32, true, F64_15),
        ("LOOP_DOUBLE_A"@, Tier::Looping, Some(Deck::Left), 2u32, true, F64_15),
        ("LOOP_HALVE_A"@, Tier::Looping, Some(Deck::Left), 2u32, true, F64_15),
        ("RELOOP_A"@, Tier::Looping, Some(Deck::Left), 2u32, true, F64_15),
        ("JUMP_CUE_1_A"@, Tier::Cues, Some(Deck::Left), 4u32, true, F64_15),
        ("JUMP_CUE_1_B"@, Tier::Cues, Some(Deck::Right), 4u32, true, F64_15),
        ("FX_TOGGLE_1_A"@, Tier::FX, Some(Deck::Left), 4u32, true, F64_15),
        ("FX_TOGGLE_1_B"@, Tier::FX, Some(Deck::Right), 4u32, true, F64_15),
        ("ECHO_TAP_A"@, Tier::FX, Some(Deck::Left), 2u32, true, F64_15),
        ("LIB_SEARCH"@, Tier::Library, None, 8u32, true, F64_15),
        ("LOAD_A"@, Tier::Library, Some(Deck::Left), 16u32, true, F64_15),
        ("LOAD_B"@, Tier::Library, Some(Deck::Right), 16u32, true, F64_15),
        ("CROSSFADER"@, Tier::Blend, None, 1u32, false, 0u64),
        ("EQ_LOW_A"@, Tier::Blend, Some(Deck::Left), 2u32, false, 0u64),
    ]
}

/// Whether an action is the one a row of the default table describes, with no
/// parameters and no linked command.
pub open spec fn matches_row(a: Action, row: (Seq<char>, Tier, Option<Deck>, u32, bool, u64)) -> bool {
    &&& a.name@ == row.0
    &&& a.tier == row.1
    &&& a.deck == row.2
    &&& a.cooldown_beats == row.3
    &&& a.quantized == row.4
    &&& a.quant_window_deg == row.5
    &&& a.params@.len() == 0
    &&& a.command is None
}

/// Appends an action under its own name.
fn push_action(v: &mut Vec<(String, Action)>, a: Action)
    ensures
        final(v)@.len() == old(v)@.len() + 1,
        forall|i: int| 0 <= i < old(v)@.len() ==> final(v)@[i] == old(v)@[i],
        final(v)@[old(v)@.len() as int].1 == a,
        final(v)@[old(v)@.len() as int].0@ == a.name@,
{
    let k = a.name.clone();
    v.push((k, a));
}

/// The default action set, keyed by action name.
fn build_default_actions() -> (v: Vec<(String, Action)>)
    ensures
        v@.len() == default_action_table().len(),
        forall|i: int| 0 <= i < v@.len() ==> matches_row(#[trigger] v@[i].1, default_action_table()[i]),
        forall|i: int| 0 <= i < v@.len() ==> (#[trigger] v@[i]).0@ == v@[i].1.name@,
{
    let mut v: Vec<(String, Action)> = Vec::new();
    push_action(&mut v, Action::new("PLAY_A", Tier::Transport).with_deck(Deck::Left));
    push_action(&mut v, Action::new("PLAY_B", Tier::Transport).with_deck(Deck::Right));
    push_action(&mut v, Action::new("SYNC_A", Tier::Transport).with_deck(Deck::Left));
    push_action(&mut v, Action::new("SYNC_B", Tier::Transport).with_deck(Deck::Right));
    push_action(&mut v, Action::new("PITCH_NUDGE_UP_A", Tier::Transport).with_deck(Deck::Left).with_cooldown(1));
    push_action(&mut v, Action::new("PITCH_NUDGE_DOWN_A", Tier::Transport).with_deck(Deck::Left).with_cooldown(1));
    push_action(&mut v, Action::new("LOOP_4_A", Tier::Looping).with_deck(Deck::Left));
    push_action(&mut v, Action::new("LOOP_4_B", Tier::Looping).with_deck(Deck::Right));
    push_action(&mut v, Action::new("LOOP_DOUBLE_A", Tier::Looping).with_deck(Deck::Left));
    push_action(&mut v, Action::new("LOOP_HALVE_A", Tier::Looping).with_deck(Deck::Left));
    push_action(&mut v, Action::new("RELOOP_A", Tier::Looping).with_deck(Deck::Left));
    push_action(&mut v, Action::new("JUMP_CUE_1_A", Tier::Cues).with_deck(Deck::Left).with_cooldown(4));
    push_action(&mut v, Action::new("JUMP_CUE_1_B", Tier::Cues).with_deck(Deck::Right).with_cooldown(4));
    push_action(&mut v, Action::new("FX_TOGGLE_1_A", Tier::FX).with_deck(Deck::Left).with_cooldown(4));
    push_action(&mut v, Action::new("FX_TOGGLE_1_B", Tier::FX).with_deck(Deck::Right).with_cooldown(4));
    push_action(&mut v, Action::new("ECHO_TAP_A", Tier::FX).with_deck(Deck::Left));
    push_action(&mut v, Action::new("LIB_SEARCH", Tier::Library).with_cooldown(8));
    push_action(&mut v, Action::new("LOAD_A", Tier::Library).with_deck(Deck::Left).with_cooldown(16));
    push_action(&mut v, Action::new("LOAD_B", Tier::Library).with_deck(Deck::Right).with_cooldown(16));
    push_action(&mut v, Action::new("CROSSFADER", Tier::Blend).with_quantization(false, 0).with_cooldown(1));
    push_action(&mut v, Action::new("EQ_LOW_A", Tier::Blend).with_deck(Deck::Left).with_quantization(false, 0));
    v
}

/// A number that tells the default action names apart: length, first and last character.
spec fn name_code(s: Seq<char>) -> int {
    s.len() * 0x1000000 + (s[0] as int) * 0x1000 + (s.last() as int)
}

/// The row of the default table whose name has the given code, or -1.
spec fn code_row(c: int) -> int {
    if c == 100991041 {
        0
    } else if c == 100991042 {
        1
    } else if c == 101003329 {
        2
    } else if c == 101003330 {
        3
    } else if c == 268763201 {
        4
    } else if c == 302317633 {
        5
    } else if c == 134529089 {
        6
    } else if c == 134529090 {
        7
    } else if c == 218415169 {
        8
    } else if c == 201637953 {
        9
    } else if c == 134553665 {
        10
    } else if c == 201629761 {
        11
    } else if c == 201629762 {
        12
    } else if c == 218390593 {
        13
    } else if c == 218390594 {
        14
    } else if c == 168054849 {
        15
    } else if c == 168083528 {
        16
    } else if c == 100974657 {
        17
    } else if c == 100974658 {
        18
    } else if c == 168046674 {
        19
    } else if c == 134500417 {
        20
    } else {
        -1
    }
}

/// Each default name's code leads back to its own row.
proof fn lemma_default_codes(i: int)
    requires
        0 <= i < default_action_table().len(),
    ensures
        code_row(name_code(default_action_table()[i].0)) == i,
{
    reveal_strlit("PLAY_A");
    reveal_strlit("PLAY_B");
    reveal_strlit("SYNC_A");
    reveal_strlit("SYNC_B");
    reveal_strlit("PITCH_NUDGE_UP_A");
    reveal_strlit("PITCH_NUDGE_DOWN_A");
    reveal_strlit("LOOP_4_A");
    reveal_strlit("LOOP_4_B");
    reveal_strlit("LOOP_DOUBLE_A");
    reveal_strlit("LOOP_HALVE_A");
    reveal_strlit("RELOOP_A");
    reveal_strlit("JUMP_CUE_1_A");
    reveal_strlit("JUMP_CUE_1_B");
    reveal_strlit("FX_TOGGLE_1_A");
    reveal_strlit("FX_TOGGLE_1_B");
    reveal_strlit("ECHO_TAP_A");
    reveal_strlit("LIB_SEARCH");
    reveal_strlit("LOAD_A");
    reveal_strlit("LOAD_B");
    reveal_strlit("CROSSFADER");
    reveal_strlit("EQ_LOW_A");
    let t = default_action_table();
        if i == 0 {
            assert(t[0].0 == "PLAY_A"@);
        } else if i == 1 {
            assert(t[1].0 == "PLAY_B"@);
        } else if i == 2 {
            assert(t[2].0 == "SYNC_A"@);
        } else if i == 3 {
            assert(t[3].0 == "SYNC_B"@);
        } else if i == 4 {
            assert(t[4].0 == "PITCH_NUDGE_UP_A"@);
        } else if i == 5 {
            assert(t[5].0 == "PITCH_NUDGE_DOWN_A"@);
        } else if i == 6 {
            assert(t[6].0 == "LOOP_4_A"@);
        } else if i == 7 {
            assert(t[7].0 == "LOOP_4_B"@);
        } else if i == 8 {
            assert(t[8].0 == "LOOP_DOUBLE_A"@);
        } else if i == 9 {
            assert(t[9].0 == "LOOP_HALVE_A"@);
        } else if i == 10 {
            assert(t[10].0 == "RELOOP_A"@);
        } else if i == 11 {
            assert(t[11].0 == "JUMP_CUE_1_A"@);
        } else if i == 12 {
            assert(t[12].0 == "JUMP_CUE_1_B"@);
        } else if i == 13 {
            assert(t[13].0 == "FX_TOGGLE_1_A"@);
        } else if i == 14 {
            assert(t[14].0 == "FX_TOGGLE_1_B"@);
        } else if i == 15 {
            assert(t[15].0 == "ECHO_TAP_A"@);
        } else if i == 16 {
            assert(t[16].0 == "LIB_SEARCH"@);
        } else if i == 17 {
            assert(t[17].0 == "LOAD_A"@);
        } else if i == 18 {
            assert(t[18].0 == "LOAD_B"@);
        } else if i == 19 {
            assert(t[19].0 == "CROSSFADER"@);
        } else if i == 20 {
            assert(t[20].0 == "EQ_LOW_A"@);
        }
}

/// The names of the default table are pairwise distinct.
proof fn lemma_default_names_distinct()
    ensures
        forall|i: int, j: int|
            0 <= i < default_action_table().len() && 0 <= j < default_action_table().len() && i != j
                ==> (#[trigger] default_action_table()[i]).0 != (#[trigger] default_action_table()[j]).0,
{
    let t = default_action_table();
    assert forall|i: int, j: int| 0 <= i < t.len() && 0 <= j < t.len() && i != j implies (#[trigger] t[i]).0 != (#[trigger] t[j]).0 by {
        lemma_default_codes(i);
        lemma_default_codes(j);
    }
}

/// Each entry of the list sits under its action's own name.
pub open spec fn keyed_by_name(s: Seq<(String, Action)>) -> bool {
    forall|i: int| 0 <= i < s.len() ==> (#[trigger] s[i]).0@ == s[i].1.name@
}

/// What checking an action for execution answers, given what the caller found for
/// its remaining cooldown.
pub open spec fn can_execute_result(
    found: Option<Action>,
    action_name: Seq<char>,
    tiers: Seq<Tier>,
    cooldown_remaining: Option<u64>,
    is_playing: bool,
    safety: SafetyConfig,
    r: Result<(), DJError>,
) -> bool {
    match found {
        None => r matches Err(DJError::CommandNotFound(n)) && n@ == action_name,
        Some(a) => if !tiers.contains(a.tier) {
            r == Err::<(), DJError>(DJError::TierLocked { tier: tier_number(a.tier) })
        } else if cooldown_remaining is Some {
            r == Err::<(), DJError>(DJError::CooldownActive { beats_remaining: cooldown_remaining->0 })
        } else {
            allowed_result(a, is_playing, safety, r)
        },
    }
}

/// The complete action space with tier management and masking.
pub struct ActionSpace {
    /// All actions, keyed by name, names distinct.
    actions: Vec<(String, Action)>,
    /// Which tiers are enabled.
    tiers_enabled: Vec<Tier>,
    /// Safety configuration.
    safety: SafetyConfig,
    /// Cooldown tracking (action name, `f64` bits of the last execution beat).
    cooldowns: Vec<(String, u64)>,
}

impl ActionSpace {
    /// The actions held, in order of first addition.
    pub closed spec fn actions(&self) -> Seq<Action> {
        self.actions@.map_values(|e: (String, Action)| e.1)
    }

    /// The action with the given name, if any.
    pub closed spec fn lookup(&self, name: Seq<char>) -> Option<Action> {
        assoc_lookup(self.actions@, name)
    }

    /// The enabled tiers.
    pub closed spec fn tiers(&self) -> Seq<Tier> {
        self.tiers_enabled@
    }

    /// The safety configuration.
    pub closed spec fn safety(&self) -> SafetyConfig {
        self.safety
    }

    /// The beat (as `f64` bits) at which an action was last recorded as executed.
    pub closed spec fn last_execution(&self, name: Seq<char>) -> Option<u64> {
        assoc_lookup(self.cooldowns@, name)
    }

    #[verifier::type_invariant]
    closed spec fn wf(&self) -> bool {
        &&& distinct_keys(self.actions@)
        &&& keyed_by_name(self.actions@)
    }

    /// Creates a new action space holding the default actions.
    pub fn new(tiers_enabled: Vec<Tier>, safety: SafetyConfig) -> (r: Self)
        ensures
            r.tiers() == tiers_enabled@,
            r.safety() == safety,
            r.actions().len() == default_action_table().len(),
            forall|i: int| 0 <= i < r.actions().len() ==> matches_row(#[trigger] r.actions()[i], default_action_table()[i]),
            forall|i: int| 0 <= i < r.actions().len() ==> r.lookup(#[trigger] default_action_table()[i].0) == Some(r.actions()[i]),
            forall|q: Seq<char>| #[trigger] r.last_execution(q) is None,
    {
        let actions = build_default_actions();
        proof {
            lemma_default_names_distinct();
            assert forall|i: int, j: int| 0 <= i < actions@.len() && 0 <= j < actions@.len() && (#[trigger] actions@[i]).0@ == (#[trigger] actions@[j]).0@ implies i == j by {
                assert(matches_row(actions@[i].1, default_action_table()[i]));
                assert(matches_row(actions@[j].1, default_action_table()[j]));
            }
        }
        let r = ActionSpace { actions, tiers_enabled, safety, cooldowns: Vec::new() };
        assert(r.actions().len() == default_action_table().len());
        assert forall|i: int| 0 <= i < r.actions().len() implies matches_row(#[trigger] r.actions()[i], default_action_table()[i]) by {
            assert(r.actions()[i] == actions@[i].1);
        }
        assert forall|i: int| 0 <= i < r.actions().len() implies r.lookup(#[trigger] default_action_table()[i].0) == Some(r.actions()[i]) by {
            assert(r.actions()[i] == actions@[i].1);
            assert(matches_row(actions@[i].1, default_action_table()[i]));
            assert forall|j: int| 0 <= j < i implies (#[trigger] actions@[j]).0@ != default_action_table()[i].0 by {
                assert(matches_row(actions@[j].1, default_action_table()[j]));
            }
            lemma_key_index_at(actions@, default_action_table()[i].0, i);
        }
        r
    }

    /// Adds an action to the space; an action of the same name is replaced.
    pub fn add(&mut self, action: Action)
        ensures
            forall|q: Seq<char>| #[trigger] final(self).lookup(q) == (if q == action.name@ {
                Some(action)
            } else {
                old(self).lookup(q)
            }),
            final(self).actions().len() == old(self).actions().len() + (if old(self).lookup(action.name@) is Some {
                0int
            } else {
                1int
            }),
            final(self).tiers() == old(self).tiers(),
            final(self).safety() == old(self).safety(),
            forall|q: Seq<char>| #[trigger] final(self).last_execution(q) == old(self).last_execution(q),
    {
        proof { use_type_invariant(&*self); }
        let ghost old_actions = self.actions@;
        let mut cur = ActionSpace { actions: Vec::new(), tiers_enabled: Vec::new(), safety: self.safety, cooldowns: Vec::new() };
        std::mem::swap(&mut cur, self);
        let ActionSpace { mut actions, tiers_enabled, safety, cooldowns } = cur;
        let k = action.name.clone();
        let ghost kk = k;
        let ghost a = action;
        assoc_set(&mut actions, k, action);
        proof {
            lemma_insert_distinct(old_actions, kk, a);
            lemma_key_index(old_actions, kk@);
            let t = actions@;
            assert forall|i: int| 0 <= i < t.len() implies (#[trigger] t[i]).0@ == t[i].1.name@ by {
                if i < old_actions.len() && i != key_index(old_actions, kk@) {
                    assert(t[i] == old_actions[i]);
                }
            }
            assert forall|q: Seq<char>| #[trigger] assoc_lookup(t, q) == (if q == a.name@ {
                Some(a)
            } else {
                assoc_lookup(old_actions, q)
            }) by {
                lemma_insert_lookup(old_actions, kk, a, q);
            }
        }
        *self = ActionSpace { actions, tiers_enabled, safety, cooldowns };
    }

    /// Gets an action by name.
    pub fn get(&self, name: &str) -> (r: Option<&Action>)
        ensures
            match r {
                Some(a) => self.lookup(name@) == Some(*a),
                None => self.lookup(name@) is None,
            },
    {
        match assoc_get(&self.actions, name) {
            Some(a) => Some(a),
            None => None,
        }
    }

    /// Returns true if the given tier is enabled.
    pub fn is_tier_enabled(&self, tier: Tier) -> (r: bool)
        ensures
            r == self.tiers().contains(tier),
    {
        let mut i: usize = 0;
        while i < self.tiers_enabled.len()
            invariant
                i <= self.tiers_enabled.len(),
                forall|j: int| 0 <= j < i ==> self.tiers_enabled@[j] != tier,
            decreases self.tiers_enabled.len() - i,
        {
            if self.tiers_enabled[i] == tier {
                assert(self.tiers_enabled@[i as int] == tier);
                return true;
            }
            i += 1;
        }
        false
    }

    /// Gets all available actions (respecting tier locks), in order of first addition.
    pub fn available_actions(&self) -> (r: Vec<&Action>)
        ensures
            r@.map_values(|a: &Action| *a) == self.actions().filter(|a: Action| self.tiers().contains(a.tier)),
    {
        let ghost pred = |a: Action| self.tiers().contains(a.tier);
        let mut r: Vec<&Action> = Vec::new();
        for i in 0..self.actions.len()
            invariant
                pred == (|a: Action| self.tiers().contains(a.tier)),
                r@.map_values(|a: &Action| *a) == self.actions().take(i as int).filter(pred),
        {
            let a = &self.actions[i].1;
            let ghost old_r = r@;
            proof {
                self.actions().take(i as int).lemma_filter_push(*a, pred);
                assert(self.actions().take(i + 1) =~= self.actions().take(i as int).push(*a));
            }
            if self.is_tier_enabled(a.tier) {
                r.push(a);
                assert(r@.map_values(|a: &Action| *a) =~= old_r.map_values(|a: &Action| *a).push(*a));
            }
        }
        assert(self.actions().take(self.actions.len() as int) =~= self.actions());
        r
    }

    /// Gets the actions of a specific tier, in order of first addition.
    pub fn actions_in_tier(&self, tier: Tier) -> (r: Vec<&Action>)
        ensures
            r@.map_values(|a: &Action| *a) == self.actions().filter(|a: Action| a.tier == tier),
    {
        let ghost pred = |a: Action| a.tier == tier;
        let mut r: Vec<&Action> = Vec::new();
        for i in 0..self.actions.len()
            invariant
                pred == (|a: Action| a.tier == tier),
                r@.map_values(|a: &Action| *a) == self.actions().take(i as int).filter(pred),
        {
            let a = &self.actions[i].1;
            let ghost old_r = r@;
            proof {
                self.actions().take(i as int).lemma_filter_push(*a, pred);
                assert(self.actions().take(i + 1) =~= self.actions().take(i as int).push(*a));
            }
            if a.tier == tier {
                r.push(a);
                assert(r@.map_values(|a: &Action| *a) =~= old_r.map_values(|a: &Action| *a).push(*a));
            }
        }
        assert(self.actions().take(self.actions.len() as int) =~= self.actions());
        r
    }

    /// The last recorded execution beat (as `f64` bits) of an action together with its
    /// cooldown in beats, when the action exists and has been recorded.
    pub fn cooldown_of(&self, action_name: &str) -> (r: Option<(u64, u32)>)
        ensures
            r == (match self.lookup(action_name@) {
                Some(a) => match self.last_execution(action_name@) {
                    Some(b) => Some((b, a.cooldown_beats)),
                    None => None,
                },
                None => None,
            }),
    {
        match self.get(action_name) {
            Some(a) => match assoc_get(&self.cooldowns, action_name) {
                Some(b) => Some((*b, a.cooldown_beats)),
                None => None,
            },
            None => None,
        }
    }

    /// Checks if an action can be executed.
    ///
    /// `cooldown_remaining` is what the caller found for the action's remaining
    /// cooldown from [`ActionSpace::cooldown_of`] and the current beat: the remaining
    /// beats (as `f64` bits) while the action is cooling down, `None` otherwise.
    pub fn can_execute(&self, action_name: &str, state: &DeckState, cooldown_remaining: Option<u64>) -> (r: Result<(), DJError>)
        ensures
            can_execute_result(
                self.lookup(action_name@),
                action_name@,
                self.tiers(),
                cooldown_remaining,
                state.is_playing,
                self.safety(),
                r,
            ),
    {
        let action = match self.get(action_name) {
            Some(a) => a,
            None => {
                return Err(DJError::CommandNotFound(owned(action_name)));
            },
        };
        if !self.is_tier_enabled(action.tier) {
            return Err(DJError::TierLocked { tier: action.tier.number() });
        }
        if let Some(remaining) = cooldown_remaining {
            return Err(DJError::CooldownActive { beats_remaining: remaining });
        }
        action.is_allowed(state, &self.safety)
    }

    /// Records an action execution (at a beat given as `f64` bits) for cooldown tracking.
    pub fn record_execution(&mut self, action_name: &str, beat: u64)
        ensures
            forall|q: Seq<char>| #[trigger] final(self).last_execution(q) == (if q == action_name@ {
                Some(beat)
            } else {
                old(self).last_execution(q)
            }),
            final(self).actions() == old(self).actions(),
            forall|q: Seq<char>| #[trigger] final(self).lookup(q) == old(self).lookup(q),
            final(self).tiers() == old(self).tiers(),
            final(self).safety() == old(self).safety(),
    {
        proof { use_type_invariant(&*self); }
        let ghost old_cd = self.cooldowns@;
        let mut cur = ActionSpace { actions: Vec::new(), tiers_enabled: Vec::new(), safety: self.safety, cooldowns: Vec::new() };
        std::mem::swap(&mut cur, self);
        let ActionSpace { actions, tiers_enabled, safety, mut cooldowns } = cur;
        let k = owned(action_name);
        let ghost kk = k;
        assoc_set(&mut cooldowns, k, beat);
        proof {
            assert forall|q: Seq<char>| #[trigger] assoc_lookup(cooldowns@, q) == (if q == action_name@ {
                Some(beat)
            } else {
                assoc_lookup(old_cd, q)
            }) by {
                lemma_insert_lookup(old_cd, kk, beat, q);
            }
        }
        *self = ActionSpace { actions, tiers_enabled, safety, cooldowns };
    }

    /// Returns the number of actions.
    pub fn len(&self) -> (r: usize)
        ensures
            r == self.actions().len(),
    {
        self.actions.len()
    }

    /// Returns true if empty.
    pub fn is_empty(&self) -> (r: bool)
        ensures
            r == (self.actions().len() == 0),
    {
        self.actions.len() == 0
    }
}

/// The tiers named by a list of tier numbers, in order; numbers that name no tier are skipped.
pub open spec fn enabled_tiers(numbers: Seq<u8>) -> Seq<Tier>
    decreases numbers.len(),
{
    if numbers.len() == 0 {
        Seq::empty()
    } else {
        enabled_tiers(numbers.drop_last()) + match tier_from_number(numbers.last()) {
            Some(t) => seq![t],
            None => Seq::empty(),
        }
    }
}

/// The tiers named by a list of tier numbers, as a deck controller enables them from
/// its configuration.
pub fn tiers_from_numbers(numbers: &Vec<u8>) -> (r: Vec<Tier>)
    ensures
        r@ == enabled_tiers(numbers@),
{
    let mut r: Vec<Tier> = Vec::new();
    for i in 0..numbers.len()
        invariant
            r@ == enabled_tiers(numbers@.take(i as int)),
    {
        assert(numbers@.take(i + 1).drop_last() =~= numbers@.take(i as int));
        match Tier::from_number(numbers[i]) {
            Some(t) => r.push(t),
            None => {},
        }
        assert(r@ =~= enabled_tiers(numbers@.take(i + 1)));
    }
    assert(numbers@.take(numbers.len() as int) =~= numbers@);
    r
}

impl ActionSpace {
    /// Checks an action for execution and hands it out when it may run: the error of
    /// [`ActionSpace::can_execute`], else the action itself.
    pub fn executable_action(&self, action_name: &str, state: &DeckState, cooldown_remaining: Option<u64>) -> (r: Result<&Action, DJError>)
        ensures
            match r {
                Ok(a) => self.lookup(action_name@) == Some(*a) && can_execute_result(
                    self.lookup(action_name@),
                    action_name@,
                    self.tiers(),
                    cooldown_remaining,
                    state.is_playing,
                    self.safety(),
                    Ok(()),
                ),
                Err(e) => can_execute_result(
                    self.lookup(action_name@),
                    action_name@,
                    self.tiers(),
                    cooldown_remaining,
                    state.is_playing,
                    self.safety(),
                    Err(e),
                ),
            },
    {
        match self.can_execute(action_name, state, cooldown_remaining) {
            Err(e) => Err(e),
            Ok(()) => match self.get(action_name) {
                Some(a) => Ok(a),
                None => Err(DJError::CommandNotFound(owned(action_name))),
            },
        }
    }
}

/// What a listing of the action space says of one action.
#[derive(Debug, Clone)]
pub struct ActionInfo {
    /// The action's name.
    pub name: String,
    /// Its tier's number.
    pub tier: u8,
    /// Its tier's name.
    pub tier_name: String,
    /// Its deck's letter, if it has a deck.
    pub deck: Option<String>,
    /// Whether it is quantized.
    pub quantized: bool,
    /// Its cooldown (beats).
    pub cooldown_beats: u32,
    /// Whether its tier is enabled.
    pub enabled: bool,
}

/// An action listing entry as plain values.
pub struct ActionInfoView {
    /// The action's name.
    pub name: Seq<char>,
    /// Its tier's number.
    pub tier: u8,
    /// Its tier's name.
    pub tier_name: Seq<char>,
    /// Its deck's letter, if it has a deck.
    pub deck: Option<Seq<char>>,
    /// Whether it is quantized.
    pub quantized: bool,
    /// Its cooldown (beats).
    pub cooldown_beats: u32,
    /// Whether its tier is enabled.
    pub enabled: bool,
}

impl View for ActionInfo {
    type V = ActionInfoView;

    open spec fn view(&self) -> ActionInfoView {
        ActionInfoView {
            name: self.name@,
            tier: self.tier,
            tier_name: self.tier_name@,
            deck: match self.deck {
                Some(d) => Some(d@),
                None => None,
            },
            quantized: self.quantized,
            cooldown_beats: self.cooldown_beats,
            enabled: self.enabled,
        }
    }
}

/// The listing entry of an action.
pub open spec fn action_info(a: Action, enabled: bool) -> ActionInfoView {
    ActionInfoView {
        name: a.name@,
        tier: tier_number(a.tier),
        tier_name: tier_name(a.tier),
        deck: match a.deck {
            Some(d) => Some(deck_letter(d)),
            None => None,
        },
        quantized: a.quantized,
        cooldown_beats: a.cooldown_beats,
        enabled,
    }
}

/// The listing entries of one tier: its actions in order, each marked with whether the tier is enabled.
pub open spec fn tier_listing(actions: Seq<Action>, tiers: Seq<Tier>, t: Tier) -> Seq<ActionInfoView> {
    actions.filter(|a: Action| a.tier == t).map_values(|a: Action| action_info(a, tiers.contains(t)))
}

/// The listing entries of the first `k` tiers, tier by tier.
pub open spec fn listing_upto(actions: Seq<Action>, tiers: Seq<Tier>, k: int) -> Seq<ActionInfoView>
    decreases k,
{
    if k <= 0 {
        Seq::empty()
    } else {
        listing_upto(actions, tiers, k - 1) + tier_listing(actions, tiers, all_tiers()[k - 1])
    }
}

/// Lists every action of the space, tier by tier in unlock order and in order within a
/// tier, with whether its tier is enabled.
pub fn action_listing(space: &ActionSpace) -> (r: Vec<ActionInfo>)
    ensures
        r@.map_values(|i: ActionInfo| i@) == listing_upto(space.actions(), space.tiers(), 6),
{
    let tiers = Tier::all();
    let mut r: Vec<ActionInfo> = Vec::new();
    for k in 0..tiers.len()
        invariant
            tiers@ == all_tiers(),
            r@.map_values(|i: ActionInfo| i@) == listing_upto(space.actions(), space.tiers(), k as int),
    {
        let tier = tiers[k];
        let enabled = space.is_tier_enabled(tier);
        let in_tier = space.actions_in_tier(tier);
        let ghost want = tier_listing(space.actions(), space.tiers(), tier);
        let ghost base = r@.map_values(|i: ActionInfo| i@);
        let ghost found = in_tier@.map_values(|a: &Action| *a);
        assert(found == space.actions().filter(|a: Action| a.tier == tier));
        for j in 0..in_tier.len()
            invariant
                found == in_tier@.map_values(|a: &Action| *a),
                want == found.map_values(|a: Action| action_info(a, space.tiers().contains(tier))),
                enabled == space.tiers().contains(tier),
                r@.map_values(|i: ActionInfo| i@) == base + want.take(j as int),
        {
            let a: &Action = in_tier[j];
            assert(found[j as int] == *a);
            let deck = match a.deck {
                Some(d) => Some(owned(d.letter())),
                None => None,
            };
            let info = ActionInfo {
                name: a.name.clone(),
                tier: a.tier.number(),
                tier_name: owned(a.tier.name()),
                deck,
                quantized: a.quantized,
                cooldown_beats: a.cooldown_beats,
                enabled,
            };
            assert(info@ == want[j as int]);
            let ghost before = r@;
            r.push(info);
            assert(r@.map_values(|i: ActionInfo| i@) =~= before.map_values(|i: ActionInfo| i@).push(info@));
            assert(want.take(j + 1) =~= want.take(j as int).push(want[j as int]));
        }
        assert(want.take(in_tier.len() as int) =~= want);
        assert(tiers@[k as int] == all_tiers()[k as int]);
    }
    r
}

/// The safety rules refuse what they promise to: a playing deck under the lock takes no
/// destructive action aimed at it, a playing deck takes no load while loads on live decks
/// are forbidden, and nothing runs whose tier is not enabled or that is cooling down.
pub proof fn lemma_safety_refusals(
    a: Action,
    name: Seq<char>,
    tiers: Seq<Tier>,
    cooldown_remaining: Option<u64>,
    is_playing: bool,
    safety: SafetyConfig,
    r: Result<(), DJError>,
)
    requires
        can_execute_result(Some(a), name, tiers, cooldown_remaining, is_playing, safety, r),
    ensures
        !tiers.contains(a.tier) ==> r == Err::<(), DJError>(DJError::TierLocked { tier: tier_number(a.tier) }),
        cooldown_remaining is Some ==> r is Err,
        a.deck is Some && is_playing && safety.lock_playing_deck && destructive_name(a.name@) ==> r is Err,
        has_prefix(a.name@, "LOAD"@) && is_playing && safety.forbid_load_on_live ==> r is Err,
        r is Ok ==> tiers.contains(a.tier) && cooldown_remaining is None,
{
}

/// Whether a name begins with the word `w`.
pub open spec fn begins_with(name: Seq<char>, w: Seq<char>) -> bool {
    exists|rest: Seq<char>| name == w + rest
}

/// The playing-deck lock in full: on a playing deck with the lock set, an action aimed at
/// the deck whose name begins with `LOAD`, `EJECT` or `STOP` is refused, with the reason
/// naming the action and the deck's letter; an action whose name begins with none of them
/// passes the check.
pub proof fn lemma_deck_lock_refuses_destructive(a: Action, safety: SafetyConfig, r: Result<(), DJError>)
    requires
        allowed_result(a, true, safety, r),
        a.deck is Some,
        safety.lock_playing_deck,
    ensures
        begins_with(a.name@, "LOAD"@) || begins_with(a.name@, "EJECT"@) || begins_with(a.name@, "STOP"@) ==> (r matches Err(
            DJError::ActionNotAllowed { reason },
        ) && reason@ == "Cannot execute "@ + a.name@ + " on playing deck "@ + deck_letter(a.deck->0)),
        !begins_with(a.name@, "LOAD"@) && !begins_with(a.name@, "EJECT"@) && !begins_with(a.name@, "STOP"@) ==> r is Ok,
{
    reveal_strlit("LOAD");
    reveal_strlit("EJECT");
    reveal_strlit("STOP");
    let n = a.name@;
    assert forall|w: Seq<char>| begins_with(n, w) <==> has_prefix(n, w) by {
        if begins_with(n, w) {
            let rest = choose|rest: Seq<char>| n == w + rest;
            assert(n.subrange(0, w.len() as int) =~= w);
        }
        if has_prefix(n, w) {
            assert(n =~= w + n.subrange(w.len() as int, n.len() as int));
        }
    }
}

} // verus!
