//! Command definitions for DJ software control.
//!
//! Commands represent actions that can be performed in DJ software
//! like Rekordbox or Serato, mapped to keyboard shortcuts or MIDI.

use vstd::prelude::*;
use crate::text::{lowercase, str_eq, to_lowercase};

verus! {

/// Command category for grouping related commands.
#[derive(Debug, Clone, Copy, PartialEq, Eq, Hash, Structural)]
pub enum CommandCategory {
    /// Transport controls (play, pause, cue).
    Transport,
    /// Layout controls (zoom, view switching).
    Layout,
    /// Looping controls.
    Looping,
    /// Cue point controls.
    Cue,
    /// Effects controls.
    Effects,
    /// Library/browser controls.
    Library,
    /// Browse/navigation controls.
    Browse,
    /// Mixer controls (EQ, fader).
    Mixer,
    /// Grid/beatgrid controls.
    Grid,
    /// Hot cue controls.
    Hotcue,
    /// Sampler controls.
    Sampler,
    /// Recording controls.
    Recording,
    /// System/utility commands.
    System,
    /// Unknown category.
    Unknown,
}

impl Default for CommandCategory {
    fn default() -> (r: Self)
        ensures
            r == CommandCategory::Unknown,
    {
        CommandCategory::Unknown
    }
}

/// Target deck for deck-specific commands.
#[derive(Debug, Clone, Copy, PartialEq, Eq, Hash, Structural)]
pub enum Deck {
    /// Left deck (Deck 1/A).
    Left,
    /// Right deck (Deck 2/B).
    Right,
    /// Both decks.
    Both,
    /// Master/global.
    Master,
}

/// The 1-based number of a deck, where it has one.
pub open spec fn deck_number(d: Deck) -> Option<u8> {
    match d {
        Deck::Left => Some(1u8),
        Deck::Right => Some(2u8),
        Deck::Both | Deck::Master => None,
    }
}

/// The letter of a deck.
pub open spec fn deck_letter(d: Deck) -> Seq<char> {
    match d {
        Deck::Left => "A"@,
        Deck::Right => "B"@,
        Deck::Both => "AB"@,
        Deck::Master => "M"@,
    }
}

impl Deck {
    /// Returns the deck number (1-based).
    pub fn number(&self) -> (r: Option<u8>)
        ensures
            r == deck_number(*self),
    {
        match self {
            Deck::Left => Some(1),
            Deck::Right => Some(2),
            Deck::Both | Deck::Master => None,
        }
    }

    /// Returns the deck letter.
    pub fn letter(&self) -> (r: &'static str)
        ensures
            r@ == deck_letter(*self),
    {
        match self {
            Deck::Left => "A",
            Deck::Right => "B",
            Deck::Both => "AB",
            Deck::Master => "M",
        }
    }
}

/// Type of action performed by a command.
#[derive(Debug, Clone, Copy, PartialEq, Eq, Hash, Structural)]
pub enum ActionType {
    /// Play/pause toggle.
    PlayPause,
    /// Cue point operation.
    Cue,
    /// Sync operation.
    Sync,
    /// Loop operation.
    Loop,
    /// Effect toggle.
    Effect,
    /// EQ adjustment.
    Eq,
    /// Fader/crossfader.
    Fader,
    /// Library navigation.
    Navigate,
    /// Track loading.
    Load,
    /// Layout/view change.
    Layout,
    /// Grid adjustment.
    Grid,
    /// Hot cue operation.
    Hotcue,
    /// Sampler operation.
    Sampler,
    /// Recording operation.
    Record,
    /// System operation.
    System,
    /// Unknown action type.
    Unknown,
}

impl Default for ActionType {
    fn default() -> (r: Self)
        ensures
            r == ActionType::Unknown,
    {
        ActionType::Unknown
    }
}

/// Keyboard modifier keys.
#[derive(Debug, Clone, Copy, PartialEq, Eq, Hash, Structural)]
pub enum Modifier {
    /// Shift key.
    Shift,
    /// Control key.
    Ctrl,
    /// Alt/Option key.
    Alt,
    /// Command key (macOS).
    Cmd,
    /// Windows key.
    Win,
}

/// A step in a shortcut sequence.
#[derive(Debug)]
pub struct ShortcutStep {
    /// The key to press.
    pub key: String,
    /// Optional modifiers.
    pub modifiers: Vec<Modifier>,
    /// Optional delay after this step (ms).
    pub delay_ms: u32,
}

/// Keyboard shortcut or MIDI mapping.
#[derive(Debug)]
pub enum Shortcut {
    /// Simple keyboard key.
    Key {
        /// The key to press.
        key: String,
    },
    /// Key with modifiers.
    KeyCombo {
        /// The main key.
        key: String,
        /// Modifier keys (shift, ctrl, alt, cmd).
        modifiers: Vec<Modifier>,
    },
    /// Sequence of keys.
    Sequence {
        /// Steps in the sequence.
        steps: Vec<ShortcutStep>,
    },
    /// MIDI message.
    Midi {
        /// MIDI channel (0-15).
        channel: u8,
        /// Note or CC number.
        note: u8,
        /// Velocity or value.
        velocity: u8,
    },
}

/// Default MIDI velocity of a tagged MIDI shortcut.
pub fn default_velocity() -> (r: u8)
    ensures
        r == 127,
{
    127
}

/// Safety configuration for a command.
#[derive(Debug, Clone, Copy, PartialEq, Eq, Structural)]
pub struct CommandSafety {
    /// Whether this command is destructive (can't undo).
    pub destructive: bool,
    /// Whether this command requires the deck to be idle.
    pub requires_idle: bool,
    /// Whether to confirm before executing if deck is playing.
    pub confirm_if_playing: bool,
    /// Cooldown period in milliseconds.
    pub cooldown_ms: u32,
}

impl Default for CommandSafety {
    fn default() -> (r: Self)
        ensures
            !r.destructive,
            !r.requires_idle,
            !r.confirm_if_playing,
            r.cooldown_ms == 0,
    {
        CommandSafety { destructive: false, requires_idle: false, confirm_if_playing: false, cooldown_ms: 0 }
    }
}

/// Cooldown of a command whose definition leaves it out (milliseconds).
pub fn default_cooldown() -> (r: u32)
    ensures
        r == 500,
{
    500
}

/// A DJ software command.
///
/// Commands are loaded from `commands.yaml` and define the mapping
/// between voice/gesture inputs and DJ software actions.
#[derive(Debug)]
pub struct Command {
    /// Unique command identifier (e.g., "3006").
    pub id: String,
    /// Canonical name (e.g., "Play/Pause").
    pub canonical: String,
    /// Alternative names/phrases that trigger this command.
    pub synonyms: Vec<String>,
    /// Command category for grouping.
    pub category: CommandCategory,
    /// Target deck (if deck-specific).
    pub deck: Option<Deck>,
    /// Type of action performed.
    pub action_type: ActionType,
    /// Keyboard shortcut or MIDI mapping.
    pub shortcut: Shortcut,
    /// Safety configuration for this command.
    pub safety: CommandSafety,
}

/// The contents of a shortcut step.
pub struct ShortcutStepView {
    /// The key to press.
    pub key: Seq<char>,
    /// Modifiers held with it.
    pub modifiers: Seq<Modifier>,
    /// Delay after this step (ms).
    pub delay_ms: u32,
}

/// The contents of a shortcut.
pub enum ShortcutView {
    /// Simple keyboard key.
    Key { key: Seq<char> },
    /// Key with modifiers.
    KeyCombo { key: Seq<char>, modifiers: Seq<Modifier> },
    /// Sequence of keys.
    Sequence { steps: Seq<ShortcutStepView> },
    /// MIDI message.
    Midi { channel: u8, note: u8, velocity: u8 },
}

/// The contents of a command.
pub struct CommandView {
    /// Identifier.
    pub id: Seq<char>,
    /// Canonical name.
    pub canonical: Seq<char>,
    /// Synonyms.
    pub synonyms: Seq<Seq<char>>,
    /// Category.
    pub category: CommandCategory,
    /// Target deck.
    pub deck: Option<Deck>,
    /// Type of action.
    pub action_type: ActionType,
    /// Shortcut.
    pub shortcut: ShortcutView,
    /// Safety flags.
    pub safety: CommandSafety,
}

impl View for ShortcutStep {
    type V = ShortcutStepView;

    open spec fn view(&self) -> ShortcutStepView {
        ShortcutStepView { key: self.key@, modifiers: self.modifiers@, delay_ms: self.delay_ms }
    }
}

impl View for Shortcut {
    type V = ShortcutView;

    open spec fn view(&self) -> ShortcutView {
        match self {
            Shortcut::Key { key } => ShortcutView::Key { key: key@ },
            Shortcut::KeyCombo { key, modifiers } => ShortcutView::KeyCombo { key: key@, modifiers: modifiers@ },
            Shortcut::Sequence { steps } => ShortcutView::Sequence { steps: steps@.map_values(|s: ShortcutStep| s@) },
            Shortcut::Midi { channel, note, velocity } => ShortcutView::Midi { channel: *channel, note: *note, velocity: *velocity },
        }
    }
}

/// The characters of each string of a list.
pub open spec fn strings_view(v: Seq<String>) -> Seq<Seq<char>> {
    v.map_values(|s: String| s@)
}

impl View for Command {
    type V = CommandView;

    open spec fn view(&self) -> CommandView {
        CommandView {
            id: self.id@,
            canonical: self.canonical@,
            synonyms: strings_view(self.synonyms@),
            category: self.category,
            deck: self.deck,
            action_type: self.action_type,
            shortcut: self.shortcut@,
            safety: self.safety,
        }
    }
}

/// A copy of a list of strings.
pub fn clone_strings(v: &Vec<String>) -> (r: Vec<String>)
    ensures
        r@ == v@,
{
    let mut r: Vec<String> = Vec::new();
    for i in 0..v.len()
        invariant
            r@ == v@.take(i as int),
    {
        r.push(v[i].clone());
        assert(r@ =~= v@.take(i + 1));
    }
    assert(v@.take(v.len() as int) =~= v@);
    r
}

/// A copy of a list of modifier keys.
pub fn clone_modifiers(v: &Vec<Modifier>) -> (r: Vec<Modifier>)
    ensures
        r@ == v@,
{
    let mut r: Vec<Modifier> = Vec::new();
    for i in 0..v.len()
        invariant
            r@ == v@.take(i as int),
    {
        r.push(v[i]);
        assert(r@ =~= v@.take(i + 1));
    }
    assert(v@.take(v.len() as int) =~= v@);
    r
}

impl Clone for ShortcutStep {
    fn clone(&self) -> (r: Self)
        ensures
            r@ == self@,
    {
        ShortcutStep { key: self.key.clone(), modifiers: clone_modifiers(&self.modifiers), delay_ms: self.delay_ms }
    }
}

/// A copy of a list of shortcut steps.
pub fn clone_steps(v: &Vec<ShortcutStep>) -> (r: Vec<ShortcutStep>)
    ensures
        r@.map_values(|s: ShortcutStep| s@) == v@.map_values(|s: ShortcutStep| s@),
{
    let mut r: Vec<ShortcutStep> = Vec::new();
    for i in 0..v.len()
        invariant
            r@.len() == i,
            forall|j: int| 0 <= j < i ==> (#[trigger] r@[j])@ == v@[j]@,
    {
        r.push(v[i].clone());
    }
    assert(r@.map_values(|s: ShortcutStep| s@) =~= v@.map_values(|s: ShortcutStep| s@));
    r
}

impl Clone for Shortcut {
    fn clone(&self) -> (r: Self)
        ensures
            r@ == self@,
    {
        match self {
            Shortcut::Key { key } => Shortcut::Key { key: key.clone() },
            Shortcut::KeyCombo { key, modifiers } => Shortcut::KeyCombo { key: key.clone(), modifiers: clone_modifiers(modifiers) },
            Shortcut::Sequence { steps } => Shortcut::Sequence { steps: clone_steps(steps) },
            Shortcut::Midi { channel, note, velocity } => Shortcut::Midi { channel: *channel, note: *note, velocity: *velocity },
        }
    }
}

impl Clone for Command {
    fn clone(&self) -> (r: Self)
        ensures
            r@ == self@,
    {
        Command {
            id: self.id.clone(),
            canonical: self.canonical.clone(),
            synonyms: clone_strings(&self.synonyms),
            category: self.category,
            deck: self.deck,
            action_type: self.action_type,
            shortcut: self.shortcut.clone(),
            safety: self.safety,
        }
    }
}

/// Whether a command answers to the given text: its canonical name or one of its
/// synonyms equals the text once both are lowercased.
pub open spec fn command_matches(c: CommandView, text: Seq<char>) -> bool {
    ||| lowercase(c.canonical) == lowercase(text)
    ||| exists|i: int| 0 <= i < c.synonyms.len() && lowercase(#[trigger] c.synonyms[i]) == lowercase(text)
}

impl Command {
    /// Returns true if this command matches the given text.
    pub fn matches(&self, text: &str) -> (r: bool)
        ensures
            r == command_matches(self@, text@),
    {
        let text_lower = to_lowercase(text);
        let canonical_lower = to_lowercase(self.canonical.as_str());
        if canonical_lower == text_lower {
            return true;
        }
        let mut i: usize = 0;
        while i < self.synonyms.len()
            invariant
                i <= self.synonyms.len(),
                text_lower@ == lowercase(text@),
                lowercase(self.canonical@) != lowercase(text@),
                forall|j: int| 0 <= j < i ==> lowercase(#[trigger] self.synonyms@[j]@) != lowercase(text@),
            decreases self.synonyms.len() - i,
        {
            let s_lower = to_lowercase(self.synonyms[i].as_str());
            if s_lower == text_lower {
                assert(strings_view(self.synonyms@)[i as int] == self.synonyms@[i as int]@);
                assert(lowercase(self@.synonyms[i as int]) == lowercase(text@));
                return true;
            }
            i += 1;
        }
        assert forall|j: int| 0 <= j < self@.synonyms.len() implies lowercase(#[trigger] self@.synonyms[j]) != lowercase(text@) by {
            assert(self@.synonyms[j] == self.synonyms@[j]@);
        }
        false
    }

    /// Returns all trigger phrases (canonical + synonyms).
    pub fn all_triggers(&self) -> (r: Vec<&str>)
        ensures
            r@.len() == self.synonyms@.len() + 1,
            r@[0]@ == self.canonical@,
            forall|i: int| 0 <= i < self.synonyms@.len() ==> (#[trigger] r@[i + 1])@ == self.synonyms@[i]@,
    {
        let mut triggers: Vec<&str> = Vec::new();
        triggers.push(self.canonical.as_str());
        for i in 0..self.synonyms.len()
            invariant
                triggers@.len() == i + 1,
                triggers@[0]@ == self.canonical@,
                forall|j: int| 0 <= j < i ==> (#[trigger] triggers@[j + 1])@ == self.synonyms@[j]@,
        {
            triggers.push(self.synonyms[i].as_str());
        }
        triggers
    }
}

/// Whether some command of the list has the given identifier.
pub open spec fn has_id(s: Seq<CommandView>, id: Seq<char>) -> bool {
    exists|i: int| 0 <= i < s.len() && (#[trigger] s[i]).id == id
}

/// No two commands of the list share an identifier.
pub open spec fn unique_ids(s: Seq<CommandView>) -> bool {
    forall|i: int, j: int| 0 <= i < s.len() && 0 <= j < s.len() && (#[trigger] s[i]).id == (#[trigger] s[j]).id ==> i == j
}

/// The position of the command with the given identifier.
pub open spec fn id_position(s: Seq<CommandView>, id: Seq<char>) -> int {
    choose|i: int| 0 <= i < s.len() && (#[trigger] s[i]).id == id
}

/// The command with the given identifier, if the list has one.
pub open spec fn lookup_id(s: Seq<CommandView>, id: Seq<char>) -> Option<CommandView> {
    if has_id(s, id) {
        Some(s[id_position(s, id)])
    } else {
        None
    }
}

/// The test that `by_category` applies to each command.
pub open spec fn in_category(category: CommandCategory) -> spec_fn(CommandView) -> bool {
    |c: CommandView| c.category == category
}

/// The test that `find_matching` applies to each command.
pub open spec fn matcher(text: Seq<char>) -> spec_fn(CommandView) -> bool {
    |c: CommandView| command_matches(c, text)
}

/// A catalog of commands, indexed by identifier.
///
/// Adding a command whose identifier is already present replaces it in place, category
/// included, so each identifier is held once, under the category it was last added with.
pub struct CommandCatalog {
    /// All commands, identifiers distinct, in order of first addition.
    commands: Vec<Command>,
}

impl CommandCatalog {
    /// The commands held, in order of first addition.
    pub closed spec fn entries(&self) -> Seq<CommandView> {
        self.commands@.map_values(|c: Command| c@)
    }

    /// The command with the given identifier, if any.
    pub open spec fn lookup(&self, id: Seq<char>) -> Option<CommandView> {
        lookup_id(self.entries(), id)
    }

    #[verifier::type_invariant]
    closed spec fn wf(&self) -> bool {
        unique_ids(self.entries())
    }

    /// Creates a new empty catalog.
    pub fn new() -> (r: Self)
        ensures
            r.entries() == Seq::<CommandView>::empty(),
            unique_ids(r.entries()),
    {
        let r = CommandCatalog { commands: Vec::new() };
        assert(r.entries() =~= Seq::<CommandView>::empty());
        r
    }

    /// Position of the command with the given identifier.
    fn position(&self, id: &str) -> (r: Option<usize>)
        ensures
            match r {
                Some(i) => i < self.entries().len() && self.entries()[i as int].id == id@
                    && i == id_position(self.entries(), id@),
                None => !has_id(self.entries(), id@),
            },
    {
        proof { use_type_invariant(self); }
        let mut i: usize = 0;
        while i < self.commands.len()
            invariant
                i <= self.commands.len(),
                unique_ids(self.entries()),
                forall|j: int| 0 <= j < i ==> (#[trigger] self.commands@[j]).id@ != id@,
            decreases self.commands.len() - i,
        {
            if str_eq(self.commands[i].id.as_str(), id) {
                assert(self.entries()[i as int] == self.commands@[i as int]@);
                let ghost p = id_position(self.entries(), id@);
                assert(0 <= p < self.entries().len() && self.entries()[p].id == id@);
                assert(self.entries()[p].id == self.entries()[i as int].id);
                return Some(i);
            }
            i += 1;
        }
        assert forall|j: int| 0 <= j < self.entries().len() implies (#[trigger] self.entries()[j]).id != id@ by {
            assert(self.entries()[j] == self.commands@[j]@);
        }
        None
    }

    /// Adds a command to the catalog.
    pub fn add(&mut self, command: Command)
        ensures
            has_id(old(self).entries(), command@.id) ==> final(self).entries() == old(self).entries().update(
                id_position(old(self).entries(), command@.id),
                command@,
            ),
            !has_id(old(self).entries(), command@.id) ==> final(self).entries() == old(self).entries().push(command@),
            unique_ids(final(self).entries()),
    {
        proof { use_type_invariant(&*self); }
        let id = command.id.clone();
        let ghost old_entries = self.entries();
        let ghost cv = command@;
        let pos = self.position(id.as_str());
        let mut cur = CommandCatalog::new();
        std::mem::swap(&mut cur, self);
        let CommandCatalog { mut commands } = cur;
        assert(commands@.map_values(|c: Command| c@) == old_entries);
        match pos {
            Some(i) => {
                commands.set(i, command);
                assert(commands@.map_values(|c: Command| c@) =~= old_entries.update(i as int, cv));
            },
            None => {
                commands.push(command);
                assert(commands@.map_values(|c: Command| c@) =~= old_entries.push(cv));
            },
        }
        proof {
            let e = commands@.map_values(|c: Command| c@);
            assert(has_id(e, cv.id)) by {
                if has_id(old_entries, cv.id) {
                    let p = id_position(old_entries, cv.id);
                    assert(e[p].id == cv.id);
                } else {
                    assert(e[old_entries.len() as int].id == cv.id);
                }
            }
            assert forall|i: int, j: int| 0 <= i < e.len() && 0 <= j < e.len() && (#[trigger] e[i]).id == (#[trigger] e[j]).id implies i == j by {
                if has_id(old_entries, cv.id) {
                    let p = id_position(old_entries, cv.id);
                    if i != p && j != p {
                        assert(old_entries[i].id == old_entries[j].id);
                    } else if i == p && j != p {
                        assert(old_entries[j].id == cv.id);
                        assert(old_entries[p].id == cv.id);
                    } else if j == p && i != p {
                        assert(old_entries[i].id == cv.id);
                        assert(old_entries[p].id == cv.id);
                    }
                } else {
                    if i < old_entries.len() && j < old_entries.len() {
                        assert(old_entries[i].id == old_entries[j].id);
                    } else if i < old_entries.len() {
                        assert(old_entries[i].id == cv.id);
                    } else if j < old_entries.len() {
                        assert(old_entries[j].id == cv.id);
                    }
                }
            }
        }
        *self = CommandCatalog { commands };
    }

    /// Gets a command by ID.
    pub fn get(&self, id: &str) -> (r: Option<&Command>)
        ensures
            match r {
                Some(c) => self.lookup(id@) == Some(c@),
                None => self.lookup(id@) is None,
            },
    {
        match self.position(id) {
            Some(i) => {
                assert(self.entries()[i as int] == self.commands@[i as int]@);
                Some(&self.commands[i])
            },
            None => None,
        }
    }

    /// Finds commands matching the given text, in catalog order.
    pub fn find_matching(&self, text: &str) -> (r: Vec<&Command>)
        ensures
            r@.map_values(|c: &Command| c@) == self.entries().filter(matcher(text@)),
    {
        let ghost pred = matcher(text@);
        let mut r: Vec<&Command> = Vec::new();
        for i in 0..self.commands.len()
            invariant
                pred == matcher(text@),
                r@.map_values(|c: &Command| c@) == self.entries().take(i as int).filter(pred),
        {
            let c = &self.commands[i];
            assert(self.entries().take(i + 1).drop_last() =~= self.entries().take(i as int));
            assert(self.entries().take(i + 1).last() == c@);
            let ghost old_r = r@;
            proof {
                self.entries().take(i as int).lemma_filter_push(c@, pred);
                assert(self.entries().take(i + 1) =~= self.entries().take(i as int).push(c@));
            }
            assert(self.entries().take(i + 1).filter(pred) == (if pred(c@) {
                self.entries().take(i as int).filter(pred).push(c@)
            } else {
                self.entries().take(i as int).filter(pred)
            }));
            if c.matches(text) {
                r.push(c);
                assert(r@.map_values(|c: &Command| c@) =~= old_r.map_values(|c: &Command| c@).push(c@));
            }
            assert(r@.map_values(|c: &Command| c@) =~= self.entries().take(i + 1).filter(pred));
        }
        assert(self.entries().take(self.commands.len() as int) =~= self.entries());
        r
    }

    /// Gets all commands in a category, in catalog order, each once.
    pub fn by_category(&self, category: CommandCategory) -> (r: Vec<&Command>)
        ensures
            r@.map_values(|c: &Command| c@) == self.entries().filter(in_category(category)),
            unique_ids(r@.map_values(|c: &Command| c@)),
    {
        proof { use_type_invariant(self); }
        let ghost pred = in_category(category);
        let ghost e = self.entries();
        let mut r: Vec<&Command> = Vec::new();
        for i in 0..self.commands.len()
            invariant
                pred == in_category(category),
                e == self.entries(),
                unique_ids(e),
                r@.map_values(|c: &Command| c@) == e.take(i as int).filter(pred),
                unique_ids(r@.map_values(|c: &Command| c@)),
                forall|k: int| 0 <= k < r@.len() ==> has_id(e.take(i as int), (#[trigger] r@[k])@.id),
        {
            let c = &self.commands[i];
            assert(e[i as int] == c@);
            assert(e.take(i + 1).drop_last() =~= e.take(i as int));
            let ghost old_r = r@;
            proof {
                e.take(i as int).lemma_filter_push(c@, pred);
                assert(e.take(i + 1) =~= e.take(i as int).push(c@));
            }
            assert forall|k: int| 0 <= k < old_r.len() implies has_id(e.take(i + 1), (#[trigger] old_r[k])@.id) by {
                let w = choose|w: int| 0 <= w < e.take(i as int).len() && (#[trigger] e.take(i as int)[w]).id == old_r[k]@.id;
                assert(e.take(i + 1)[w] == e.take(i as int)[w]);
            }
            if c.category == category {
                r.push(c);
                let ghost rv = r@.map_values(|c: &Command| c@);
                assert(rv =~= old_r.map_values(|c: &Command| c@).push(c@));
                assert forall|a: int, b: int| 0 <= a < rv.len() && 0 <= b < rv.len() && (#[trigger] rv[a]).id == (#[trigger] rv[b]).id implies a == b by {
                    if a < old_r.len() && b == old_r.len() {
                        assert(rv[a] == old_r[a]@);
                        let w = choose|w: int| 0 <= w < e.take(i as int).len() && (#[trigger] e.take(i as int)[w]).id == old_r[a]@.id;
                        assert(e[w].id == e[i as int].id);
                    } else if b < old_r.len() && a == old_r.len() {
                        assert(rv[b] == old_r[b]@);
                        let w = choose|w: int| 0 <= w < e.take(i as int).len() && (#[trigger] e.take(i as int)[w]).id == old_r[b]@.id;
                        assert(e[w].id == e[i as int].id);
                    } else if a < old_r.len() && b < old_r.len() {
                        assert(rv[a] == old_r.map_values(|c: &Command| c@)[a]);
                        assert(rv[b] == old_r.map_values(|c: &Command| c@)[b]);
                    }
                }
                assert(has_id(e.take(i + 1), c@.id)) by {
                    assert(e.take(i + 1)[i as int] == c@);
                }
            }
            assert(r@.map_values(|c: &Command| c@) =~= e.take(i + 1).filter(pred));
        }
        assert(e.take(self.commands.len() as int) =~= e);
        r
    }

    /// Returns the total number of commands.
    pub fn len(&self) -> (r: usize)
        ensures
            r == self.entries().len(),
    {
        self.commands.len()
    }

    /// Returns true if the catalog is empty.
    pub fn is_empty(&self) -> (r: bool)
        ensures
            r == (self.entries().len() == 0),
    {
        self.commands.len() == 0
    }

    /// All commands, in catalog order.
    pub fn iter(&self) -> (r: &[Command])
        ensures
            r@.map_values(|c: Command| c@) == self.entries(),
    {
        self.commands.as_slice()
    }
}

/// The commands after adding `c`: it replaces the command with its identifier in place,
/// or is appended when the identifier is new.
pub open spec fn entries_after_add(s: Seq<CommandView>, c: CommandView) -> Seq<CommandView> {
    if has_id(s, c.id) {
        s.update(id_position(s, c.id), c)
    } else {
        s.push(c)
    }
}

/// After adding a command, looking up its identifier gives it back, every other
/// identifier gives what it gave before, and identifiers stay unique.
pub proof fn lemma_add_then_lookup(s: Seq<CommandView>, c: CommandView, q: Seq<char>)
    requires
        unique_ids(s),
    ensures
        lookup_id(entries_after_add(s, c), q) == (if q == c.id {
            Some(c)
        } else {
            lookup_id(s, q)
        }),
        unique_ids(entries_after_add(s, c)),
        entries_after_add(s, c).len() == s.len() + (if has_id(s, c.id) { 0int } else { 1int }),
{
    let t = entries_after_add(s, c);
    if has_id(s, c.id) {
        let p = id_position(s, c.id);
        assert forall|i: int, j: int| 0 <= i < t.len() && 0 <= j < t.len() && (#[trigger] t[i]).id == (#[trigger] t[j]).id implies i == j by {
            if i != p && j != p {
                assert(s[i].id == s[j].id);
            } else if i == p && j != p {
                assert(s[j].id == s[p].id);
            } else if j == p && i != p {
                assert(s[i].id == s[p].id);
            }
        }
    } else {
        assert forall|i: int, j: int| 0 <= i < t.len() && 0 <= j < t.len() && (#[trigger] t[i]).id == (#[trigger] t[j]).id implies i == j by {
            if i < s.len() && j < s.len() {
                assert(s[i].id == s[j].id);
            } else if i < s.len() {
                assert(s[i].id == c.id);
            } else if j < s.len() {
                assert(s[j].id == c.id);
            }
        }
    }
    if q == c.id {
        let w = if has_id(s, c.id) { id_position(s, c.id) } else { s.len() as int };
        assert(t[w].id == q);
        assert(has_id(t, q));
        let k = id_position(t, q);
        assert(t[k].id == t[w].id);
    } else {
        if has_id(s, q) {
            let k0 = id_position(s, q);
            assert(t[k0] == s[k0]) by {
                if has_id(s, c.id) {
                    assert(k0 != id_position(s, c.id));
                }
            }
            assert(has_id(t, q));
            let k = id_position(t, q);
            assert(t[k].id == t[k0].id);
        } else {
            assert forall|i: int| 0 <= i < t.len() implies (#[trigger] t[i]).id != q by {
                if i < s.len() {
                    if has_id(s, c.id) && i == id_position(s, c.id) {
                    } else {
                        assert(t[i] == s[i]);
                    }
                }
            }
        }
    }
}

/// After adding a command, the listing of its category holds it, and the listing of
/// any other category holds no command with its identifier.
pub proof fn lemma_add_then_category(s: Seq<CommandView>, c: CommandView, k: CommandCategory)
    requires
        unique_ids(s),
    ensures
        entries_after_add(s, c).filter(in_category(c.category)).contains(c),
        k != c.category ==> forall|i: int|
            0 <= i < entries_after_add(s, c).filter(in_category(k)).len()
                ==> (#[trigger] entries_after_add(s, c).filter(in_category(k))[i]).id != c.id,
{
    let t = entries_after_add(s, c);
    lemma_add_then_lookup(s, c, c.id);
    assert(has_id(t, c.id));
    let w = id_position(t, c.id);
    assert(t[w] == c);
    t.lemma_filter_contains(in_category(c.category), w);
    if k != c.category {
        let f = t.filter(in_category(k));
        assert forall|i: int| 0 <= i < f.len() implies (#[trigger] f[i]).id != c.id by {
            t.lemma_filter_pred(in_category(k), i);
            assert(f.contains(f[i]));
            t.lemma_filter_contains_rev(in_category(k), f[i]);
            let j = choose|j: int| 0 <= j < t.len() && t[j] == f[i];
            if f[i].id == c.id {
                assert(t[j].id == t[w].id);
            }
        }
    }
}

/// Matching ignores case: two texts that lower-case alike are matched by the same
/// commands. A command answers to any text equal, ignoring case, to its canonical name or
/// to one of its synonyms, and to no other text.
pub proof fn lemma_matching_ignores_case(c: CommandView, t: Seq<char>, u: Seq<char>)
    ensures
        lowercase(t) == lowercase(u) ==> command_matches(c, t) == command_matches(c, u),
        lowercase(c.canonical) == lowercase(t) ==> command_matches(c, t),
        forall|i: int| 0 <= i < c.synonyms.len() && lowercase(#[trigger] c.synonyms[i]) == lowercase(t) ==> command_matches(c, t),
        command_matches(c, t) ==> (lowercase(c.canonical) == lowercase(t) || exists|i: int|
            0 <= i < c.synonyms.len() && lowercase(#[trigger] c.synonyms[i]) == lowercase(t)),
{
}

} // verus!
