//! Voice-side decisions: mapping recognised speech to commands, and choosing the
//! microphone's capture format.

use vstd::prelude::*;
use std::sync::Arc;
use crate::assoc::{
    assoc_get, assoc_insert, assoc_lookup, assoc_set, distinct_keys, key_index, lemma_insert_distinct,
    lemma_insert_lookup, lemma_key_index,
};
use crate::command::{
    ActionType, Command, CommandCatalog, CommandCategory, CommandSafety, CommandView, Shortcut, ShortcutView, command_matches,
    matcher,
};
use crate::config::DJConfig;
use crate::text::{chars_of, lowercase, owned, to_lowercase, trim, trimmed};

verus! {

// ---------------------------------------------------------------------------
// ASCII case-insensitive comparison
// ---------------------------------------------------------------------------

/// The code of a character with ASCII upper-case letters mapped to lower case.
pub open spec fn ascii_lower(c: char) -> int {
    if 'A' <= c && c <= 'Z' {
        (c as u32) + 32
    } else {
        c as u32 as int
    }
}

/// Whether two strings match ignoring ASCII case, as `str::eq_ignore_ascii_case` decides.
pub open spec fn ascii_case_eq(a: Seq<char>, b: Seq<char>) -> bool {
    a.len() == b.len() && forall|i: int| 0 <= i < a.len() ==> ascii_lower(#[trigger] a[i]) == ascii_lower(b[i])
}

/// The code of a character, ASCII letters lower-cased.
fn lower_ascii_code(c: char) -> (r: u32)
    ensures
        r as int == ascii_lower(c),
{
    if 'A' <= c && c <= 'Z' {
        (c as u32) + 32
    } else {
        c as u32
    }
}

/// Checks that two strings are an ASCII case-insensitive match.
pub fn eq_ignore_ascii_case(a: &str, b: &str) -> (r: bool)
    ensures
        r == ascii_case_eq(a@, b@),
{
    let x = chars_of(a);
    let y = chars_of(b);
    if x.len() != y.len() {
        return false;
    }
    let mut i: usize = 0;
    while i < x.len()
        invariant
            x@ == a@,
            y@ == b@,
            x.len() == y.len(),
            i <= x.len(),
            forall|j: int| 0 <= j < i ==> ascii_lower(#[trigger] a@[j]) == ascii_lower(b@[j]),
        decreases x.len() - i,
    {
        if lower_ascii_code(x[i]) != lower_ascii_code(y[i]) {
            return false;
        }
        i += 1;
    }
    true
}

// ---------------------------------------------------------------------------
// Intent processing
// ---------------------------------------------------------------------------

/// The table after inserting every entry of `entries` in turn, as a hash map does.
pub open spec fn insert_all(s: Seq<(String, String)>, entries: Seq<(String, String)>) -> Seq<(String, String)>
    decreases entries.len(),
{
    if entries.len() == 0 {
        s
    } else {
        let e = entries.last();
        assoc_insert(insert_all(s, entries.drop_last()), e.0, e.1)
    }
}

/// Whether a command answers to an action name: by identifier, or by canonical name
/// ignoring ASCII case.
pub open spec fn names_action(c: CommandView, action: Seq<char>) -> bool {
    c.id == action || ascii_case_eq(c.canonical, action)
}

/// The first command of a list that answers to an action name.
pub open spec fn first_naming(s: Seq<CommandView>, action: Seq<char>) -> Option<CommandView>
    decreases s.len(),
{
    if s.len() == 0 {
        None
    } else {
        match first_naming(s.drop_last(), action) {
            Some(c) => Some(c),
            None => if names_action(s.last(), action) {
                Some(s.last())
            } else {
                None
            },
        }
    }
}

/// The command made up for a custom mapping whose action the catalog does not hold.
pub open spec fn mapped_command(action: Seq<char>, phrase: Seq<char>) -> CommandView {
    CommandView {
        id: action,
        canonical: action,
        synonyms: seq![phrase],
        category: CommandCategory::Unknown,
        deck: None,
        action_type: ActionType::Unknown,
        shortcut: ShortcutView::Key { key: Seq::empty() },
        safety: CommandSafety { destructive: false, requires_idle: false, confirm_if_playing: false, cooldown_ms: 0 },
    }
}

/// The commands that a phrase (already lower-cased and trimmed) resolves to: through a
/// custom mapping, the first catalog command answering to its action or else a command
/// made up for it; without one, every catalog command matching the phrase.
pub open spec fn intent_commands(
    mappings: Seq<(String, String)>,
    entries: Seq<CommandView>,
    phrase: Seq<char>,
) -> Seq<CommandView> {
    match assoc_lookup(mappings, phrase) {
        Some(action) => match first_naming(entries, action@) {
            Some(c) => seq![c],
            None => seq![mapped_command(action@, phrase)],
        },
        None => entries.filter(matcher(phrase)),
    }
}

/// Intent processor for voice commands.
///
/// Handles the mapping from natural language to structured commands,
/// including synonym resolution and context-aware disambiguation.
pub struct IntentProcessor {
    /// DJ configuration.
    config: Arc<DJConfig>,
    /// Command catalog.
    catalog: CommandCatalog,
    /// Custom command mappings (phrase, action), phrases distinct.
    custom_map: Vec<(String, String)>,
}

impl IntentProcessor {
    /// The custom mappings (phrase, action), phrases distinct.
    pub closed spec fn mappings(&self) -> Seq<(String, String)> {
        self.custom_map@
    }

    /// The commands of the catalog.
    pub closed spec fn commands(&self) -> Seq<CommandView> {
        self.catalog.entries()
    }

    /// The configuration the processor was made with.
    pub closed spec fn spec_config(&self) -> DJConfig {
        *self.config
    }

    #[verifier::type_invariant]
    closed spec fn wf(&self) -> bool {
        distinct_keys(self.custom_map@)
    }

    /// Creates a new intent processor, with the configuration's custom mappings and an
    /// empty catalog.
    pub fn new(config: Arc<DJConfig>) -> (r: Self)
        ensures
            r.mappings() == insert_all(Seq::empty(), config.voice.command_map@),
            r.commands().len() == 0,
            r.spec_config() == *config,
    {
        let mut custom_map: Vec<(String, String)> = Vec::new();
        let entries = &config.voice.command_map;
        for i in 0..entries.len()
            invariant
                entries@ == config.voice.command_map@,
                custom_map@ == insert_all(Seq::empty(), entries@.take(i as int)),
                distinct_keys(custom_map@),
        {
            assert(entries@.take(i + 1).drop_last() =~= entries@.take(i as int));
            let k = entries[i].0.clone();
            let v = entries[i].1.clone();
            proof {
                lemma_insert_distinct(custom_map@, k, v);
            }
            assoc_set(&mut custom_map, k, v);
        }
        assert(entries@.take(entries.len() as int) =~= entries@);
        IntentProcessor { config, catalog: CommandCatalog::new(), custom_map }
    }

    /// Loads a command catalog, replacing the one held.
    pub fn load_commands(&mut self, catalog: CommandCatalog)
        ensures
            final(self).commands() == catalog.entries(),
            final(self).mappings() == old(self).mappings(),
            final(self).spec_config() == old(self).spec_config(),
    {
        proof { use_type_invariant(&*self); }
        self.catalog = catalog;
    }

    /// Processes text and returns matching commands: the text is lower-cased and
    /// trimmed, then resolved through the custom mappings or the catalog.
    pub fn process(&self, text: &str) -> (r: Vec<Command>)
        ensures
            r@.map_values(|c: Command| c@) == intent_commands(self.mappings(), self.commands(), trimmed(lowercase(text@))),
    {
        let lower = to_lowercase(text);
        let phrase = owned(trim(lower.as_str()));
        let ghost p = phrase@;
        match assoc_get(&self.custom_map, phrase.as_str()) {
            Some(action_name) => {
                let commands = self.catalog.iter();
                let ghost entries = self.commands();
                let mut i: usize = 0;
                while i < commands.len()
                    invariant
                        commands@.map_values(|c: Command| c@) == entries,
                        entries == self.commands(),
                        p == trimmed(lowercase(text@)),
                        assoc_lookup(self.mappings(), p) == Some(*action_name),
                        i <= commands.len(),
                        first_naming(entries.take(i as int), action_name@) is None,
                    decreases commands.len() - i,
                {
                    let c = &commands[i];
                    assert(entries.take(i + 1).drop_last() =~= entries.take(i as int));
                    assert(entries.take(i + 1).last() == c@);
                    if crate::text::str_eq(c.id.as_str(), action_name.as_str()) || eq_ignore_ascii_case(
                        c.canonical.as_str(),
                        action_name.as_str(),
                    ) {
                        assert(entries[i as int] == c@);
                        assert(names_action(c@, action_name@));
                        let mut r: Vec<Command> = Vec::new();
                        r.push(c.clone());
                        proof {
                            lemma_first_naming_prefix(entries, action_name@, i + 1);
                        }
                        assert(r@.map_values(|c: Command| c@) =~= seq![c@]);
                        return r;
                    }
                    i += 1;
                }
                assert(entries.take(commands.len() as int) =~= entries);
                let mut synonyms: Vec<String> = Vec::new();
                synonyms.push(phrase.clone());
                let made = Command {
                    id: action_name.clone(),
                    canonical: action_name.clone(),
                    synonyms,
                    category: CommandCategory::Unknown,
                    deck: None,
                    action_type: ActionType::Unknown,
                    shortcut: Shortcut::Key { key: String::new() },
                    safety: CommandSafety::default(),
                };
                let mut r: Vec<Command> = Vec::new();
                r.push(made);
                assert(made@.synonyms =~= seq![p]);
                assert(made@ == mapped_command(action_name@, p));
                assert(r@.map_values(|c: Command| c@) =~= seq![mapped_command(action_name@, p)]);
                r
            },
            None => {
                let found = self.catalog.find_matching(phrase.as_str());
                let ghost want = found@.map_values(|c: &Command| c@);
                let mut r: Vec<Command> = Vec::new();
                for i in 0..found.len()
                    invariant
                        want == found@.map_values(|c: &Command| c@),
                        r@.len() == i,
                        forall|j: int| 0 <= j < i ==> (#[trigger] r@[j])@ == want[j],
                {
                    let c: &Command = found[i];
                    let cc = c.clone();
                    assert(cc@ == want[i as int]);
                    r.push(cc);
                }
                assert(r@.map_values(|c: Command| c@) =~= want);
                r
            },
        }
    }

    /// Adds a custom command mapping; the phrase is stored lower-cased.
    pub fn add_mapping(&mut self, phrase: &str, action: String)
        ensures
            forall|q: Seq<char>| #[trigger] assoc_lookup(final(self).mappings(), q) == (if q == lowercase(phrase@) {
                Some(action)
            } else {
                assoc_lookup(old(self).mappings(), q)
            }),
            final(self).mappings().len() == old(self).mappings().len() + (if key_index(old(self).mappings(), lowercase(phrase@)) >= 0 {
                0int
            } else {
                1int
            }),
            final(self).commands() == old(self).commands(),
            final(self).spec_config() == old(self).spec_config(),
    {
        proof { use_type_invariant(&*self); }
        let key = to_lowercase(phrase);
        let ghost k = key;
        let ghost before = self.custom_map@;
        proof {
            lemma_insert_distinct(before, key, action);
            lemma_key_index(before, key@);
            assert forall|q: Seq<char>| #[trigger] assoc_lookup(assoc_insert(before, k, action), q) == (if q == k@ {
                Some(action)
            } else {
                assoc_lookup(before, q)
            }) by {
                lemma_insert_lookup(before, k, action, q);
            }
        }
        let mut cur: Vec<(String, String)> = Vec::new();
        std::mem::swap(&mut cur, &mut self.custom_map);
        assoc_set(&mut cur, key, action);
        self.custom_map = cur;
    }

    /// Returns the number of custom mappings.
    pub fn custom_mapping_count(&self) -> (r: usize)
        ensures
            r == self.mappings().len(),
    {
        self.custom_map.len()
    }
}

/// The command a mapped action resolves to is the earliest in the catalog answering to it,
/// by identifier or by canonical name ignoring ASCII case: it answers to the action and
/// no command before it does; none is found exactly when no command answers to it.
pub proof fn lemma_first_naming_is_earliest(s: Seq<CommandView>, action: Seq<char>)
    ensures
        first_naming(s, action) is None <==> forall|i: int|
            0 <= i < s.len() ==> !((#[trigger] s[i]).id == action || ascii_case_eq(s[i].canonical, action)),
        first_naming(s, action) is Some ==> exists|i: int|
            0 <= i < s.len() && #[trigger] s[i] == first_naming(s, action)->0 && (s[i].id == action || ascii_case_eq(
                s[i].canonical,
                action,
            )) && forall|j: int| 0 <= j < i ==> !((#[trigger] s[j]).id == action || ascii_case_eq(s[j].canonical, action)),
    decreases s.len(),
{
    if s.len() > 0 {
        let t = s.drop_last();
        lemma_first_naming_is_earliest(t, action);
        match first_naming(t, action) {
            Some(c) => {
                let i = choose|i: int|
                    0 <= i < t.len() && #[trigger] t[i] == c && (t[i].id == action || ascii_case_eq(t[i].canonical, action))
                        && forall|j: int| 0 <= j < i ==> !((#[trigger] t[j]).id == action || ascii_case_eq(t[j].canonical, action));
                assert(s[i] == t[i]);
                assert forall|j: int| 0 <= j < i implies !((#[trigger] s[j]).id == action || ascii_case_eq(s[j].canonical, action)) by {
                    assert(s[j] == t[j]);
                }
                assert(exists|k: int| 0 <= k < t.len() && #[trigger] t[k] == c && (t[k].id == action || ascii_case_eq(t[k].canonical, action)));
            },
            None => {
                assert forall|j: int| 0 <= j < t.len() implies !((#[trigger] s[j]).id == action || ascii_case_eq(s[j].canonical, action)) by {
                    assert(s[j] == t[j]);
                    assert(!((#[trigger] t[j]).id == action || ascii_case_eq(t[j].canonical, action)));
                }
                let n = s.len() - 1;
                if names_action(s.last(), action) {
                    assert(s[n] == s.last());
                } else {
                    assert forall|j: int| 0 <= j < s.len() implies !((#[trigger] s[j]).id == action || ascii_case_eq(s[j].canonical, action)) by {
                        if j < n {
                            assert(s[j] == t[j]);
                            assert(!((#[trigger] t[j]).id == action || ascii_case_eq(t[j].canonical, action)));
                        }
                    }
                }
            },
        }
    }
}

/// A phrase that no custom mapping holds resolves to every catalog command answering to
/// it (its canonical name or a synonym equal to the phrase ignoring case): all of them,
/// each as often as the catalog holds it, in catalog order, and nothing else.
pub proof fn lemma_unmapped_phrase_finds_all(
    mappings: Seq<(String, String)>,
    entries: Seq<CommandView>,
    phrase: Seq<char>,
)
    requires
        assoc_lookup(mappings, phrase) is None,
    ensures
        intent_commands(mappings, entries, phrase) == entries.filter(|c: CommandView| command_matches(c, phrase)),
        forall|c: CommandView| #[trigger] intent_commands(mappings, entries, phrase).contains(c) <==> (entries.contains(c)
            && command_matches(c, phrase)),
        forall|i: int| 0 <= i < entries.len() && command_matches(#[trigger] entries[i], phrase)
            ==> intent_commands(mappings, entries, phrase).contains(entries[i]),
{
    let f = |c: CommandView| command_matches(c, phrase);
    assert(matcher(phrase) =~= f);
    let r = entries.filter(f);
    assert forall|c: CommandView| #[trigger] r.contains(c) <==> (entries.contains(c) && command_matches(c, phrase)) by {
        if r.contains(c) {
            entries.lemma_filter_contains_rev(f, c);
            let k = choose|k: int| 0 <= k < r.len() && r[k] == c;
            entries.lemma_filter_pred(f, k);
        }
        if entries.contains(c) && command_matches(c, phrase) {
            let k = choose|k: int| 0 <= k < entries.len() && entries[k] == c;
            entries.lemma_filter_contains(f, k);
        }
    }
    assert forall|i: int| 0 <= i < entries.len() && command_matches(#[trigger] entries[i], phrase) implies r.contains(
        entries[i],
    ) by {
        entries.lemma_filter_contains(f, i);
    }
}

/// After a phrase is mapped to an action, processing that phrase resolves the action:
/// to the first catalog command answering to it, else to a command made up for it;
/// every other phrase resolves as before.
pub proof fn lemma_mapped_phrase_resolves(
    mappings: Seq<(String, String)>,
    entries: Seq<CommandView>,
    phrase: String,
    action: String,
    other: Seq<char>,
)
    ensures
        intent_commands(assoc_insert(mappings, phrase, action), entries, phrase@) == (match first_naming(entries, action@) {
            Some(c) => seq![c],
            None => seq![mapped_command(action@, phrase@)],
        }),
        other != phrase@ ==> intent_commands(assoc_insert(mappings, phrase, action), entries, other) == intent_commands(
            mappings,
            entries,
            other,
        ),
{
    lemma_insert_lookup(mappings, phrase, action, phrase@);
    lemma_insert_lookup(mappings, phrase, action, other);
}

/// The first command answering to an action within a prefix that holds one is the
/// first within the whole list.
proof fn lemma_first_naming_prefix(s: Seq<CommandView>, action: Seq<char>, k: int)
    requires
        0 < k <= s.len(),
        first_naming(s.take(k - 1), action) is None,
        names_action(s[k - 1], action),
    ensures
        first_naming(s, action) == Some(s[k - 1]),
    decreases s.len() - k,
{
    if k == s.len() {
        assert(s.drop_last() =~= s.take(k - 1));
    } else {
        assert(s.drop_last().take(k - 1) =~= s.take(k - 1));
        assert(s.drop_last()[k - 1] == s[k - 1]);
        lemma_first_naming_prefix(s.drop_last(), action, k);
    }
}

// ---------------------------------------------------------------------------
// Match stability
// ---------------------------------------------------------------------------

/// The scores kept for a command after recording one more: the latest `max`, oldest first.
pub open spec fn kept_scores(old: Seq<u32>, score: u32, max: nat) -> Seq<u32> {
    let v = old.push(score);
    if v.len() > max {
        v.drop_first()
    } else {
        v
    }
}

/// The streak after one more match observation: none resets the count, the same
/// command as before extends it, another command starts a new one.
pub open spec fn streak_step(last: Option<Seq<char>>, count: nat, id: Option<Seq<char>>) -> (Option<Seq<char>>, nat) {
    match id {
        None => (last, 0),
        Some(i) => if last == Some(i) {
            (last, count + 1)
        } else {
            (Some(i), 1)
        },
    }
}

/// The streak after a run of match observations, from a given streak.
pub open spec fn streak_after(last: Option<Seq<char>>, count: nat, ids: Seq<Option<Seq<char>>>) -> (Option<Seq<char>>, nat)
    decreases ids.len(),
{
    if ids.len() == 0 {
        (last, count)
    } else {
        let p = streak_after(last, count, ids.drop_last());
        streak_step(p.0, p.1, ids.last())
    }
}

/// Tracks how steadily the same command is matched, and the recent similarity scores
/// (as `f32` bits) of every command.
#[derive(Debug)]
pub struct StabilityTracker {
    /// Recent similarity scores per command, commands distinct.
    history: Vec<(String, Vec<u32>)>,
    /// Maximum history length per command.
    max_history: usize,
    /// Last matched command ID.
    last_match: Option<String>,
    /// Consecutive match count for the last command.
    consecutive_count: u32,
}

impl StabilityTracker {
    /// The recent scores recorded for a command, oldest first.
    pub closed spec fn scores(&self, id: Seq<char>) -> Seq<u32> {
        match assoc_lookup(self.history@, id) {
            Some(v) => v@,
            None => Seq::empty(),
        }
    }

    /// The number of commands with recorded scores.
    pub closed spec fn command_count(&self) -> nat {
        self.history@.len()
    }

    /// The maximum number of scores kept per command.
    pub closed spec fn capacity(&self) -> nat {
        self.max_history as nat
    }

    /// The command of the current streak, if any.
    pub closed spec fn last_id(&self) -> Option<Seq<char>> {
        match self.last_match {
            Some(s) => Some(s@),
            None => None,
        }
    }

    /// The length of the current streak.
    pub closed spec fn count(&self) -> nat {
        self.consecutive_count as nat
    }

    #[verifier::type_invariant]
    closed spec fn wf(&self) -> bool {
        distinct_keys(self.history@)
    }

    /// Creates a tracker keeping up to `max_history` scores per command.
    pub fn new(max_history: usize) -> (r: Self)
        ensures
            r.capacity() == max_history,
            r.command_count() == 0,
            forall|q: Seq<char>| #[trigger] r.scores(q).len() == 0,
            r.last_id() is None,
            r.count() == 0,
    {
        StabilityTracker { history: Vec::new(), max_history, last_match: None, consecutive_count: 0 }
    }

    /// Records a similarity score (`f32` bits) for a command, keeping its latest scores.
    pub fn record(&mut self, cmd_id: &str, similarity: u32)
        ensures
            forall|q: Seq<char>| #[trigger] final(self).scores(q) == (if q == cmd_id@ {
                kept_scores(old(self).scores(cmd_id@), similarity, old(self).capacity())
            } else {
                old(self).scores(q)
            }),
            final(self).capacity() == old(self).capacity(),
            final(self).last_id() == old(self).last_id(),
            final(self).count() == old(self).count(),
    {
        proof { use_type_invariant(&*self); }
        let mut scores: Vec<u32> = Vec::new();
        match assoc_get(&self.history, cmd_id) {
            Some(h) => {
                for i in 0..h.len()
                    invariant
                        scores@ == h@.take(i as int),
                {
                    scores.push(h[i]);
                }
                assert(h@.take(h.len() as int) =~= h@);
            },
            None => {},
        }
        assert(scores@ == old(self).scores(cmd_id@));
        let ghost before = scores@;
        scores.push(similarity);
        if scores.len() > self.max_history {
            scores.remove(0);
        }
        assert(scores@ =~= kept_scores(before, similarity, self.max_history as nat));
        let key = owned(cmd_id);
        let ghost k = key;
        let ghost old_history = self.history@;
        proof {
            lemma_insert_distinct(old_history, k, scores);
            assert forall|q: Seq<char>| #[trigger] assoc_lookup(assoc_insert(old_history, k, scores), q) == (if q == k@ {
                Some(scores)
            } else {
                assoc_lookup(old_history, q)
            }) by {
                lemma_insert_lookup(old_history, k, scores, q);
            }
        }
        let mut history: Vec<(String, Vec<u32>)> = Vec::new();
        std::mem::swap(&mut history, &mut self.history);
        assoc_set(&mut history, key, scores);
        self.history = history;
    }

    /// Observes the current match (`None` when nothing matched) and returns the length
    /// of the streak of identical matches it makes.
    pub fn update_streak(&mut self, cmd_id: Option<&str>) -> (r: u32)
        requires
            cmd_id matches Some(i) && old(self).last_id() == Some(i@) ==> old(self).count() < u32::MAX,
        ensures
            (final(self).last_id(), final(self).count()) == streak_step(
                old(self).last_id(),
                old(self).count(),
                match cmd_id {
                    Some(i) => Some(i@),
                    None => None,
                },
            ),
            r == final(self).count(),
            forall|q: Seq<char>| #[trigger] final(self).scores(q) == old(self).scores(q),
            final(self).capacity() == old(self).capacity(),
    {
        proof { use_type_invariant(&*self); }
        match cmd_id {
            Some(id) => {
                let same = match &self.last_match {
                    Some(l) => crate::text::str_eq(l.as_str(), id),
                    None => false,
                };
                if same {
                    self.consecutive_count = self.consecutive_count + 1;
                } else {
                    self.last_match = Some(owned(id));
                    self.consecutive_count = 1;
                }
            },
            None => {
                self.consecutive_count = 0;
            },
        }
        self.consecutive_count
    }

    /// The length of the current streak.
    pub fn streak(&self) -> (r: u32)
        ensures
            r == self.count(),
    {
        self.consecutive_count
    }

    /// Whether the command is the one of the current streak.
    pub fn is_streak_of(&self, cmd_id: &str) -> (r: bool)
        ensures
            r == (self.last_id() == Some(cmd_id@)),
    {
        match &self.last_match {
            Some(l) => crate::text::str_eq(l.as_str(), cmd_id),
            None => false,
        }
    }

    /// The latest score (`f32` bits) recorded for a command.
    pub fn last_score(&self, cmd_id: &str) -> (r: Option<u32>)
        ensures
            self.scores(cmd_id@).len() == 0 ==> r is None,
            self.scores(cmd_id@).len() > 0 ==> r == Some(self.scores(cmd_id@).last()),
    {
        match assoc_get(&self.history, cmd_id) {
            Some(h) => {
                if h.len() == 0 {
                    None
                } else {
                    Some(h[h.len() - 1])
                }
            },
            None => None,
        }
    }

    /// Resets the tracker: no scores, no streak.
    pub fn reset(&mut self)
        ensures
            final(self).command_count() == 0,
            forall|q: Seq<char>| #[trigger] final(self).scores(q).len() == 0,
            final(self).last_id() is None,
            final(self).count() == 0,
            final(self).capacity() == old(self).capacity(),
    {
        proof { use_type_invariant(&*self); }
        self.history = Vec::new();
        self.last_match = None;
        self.consecutive_count = 0;
    }
}

/// A streak of length `k` (from a fresh tracker) means the last `k` observations all
/// matched the streak's command: the tracker reports a command as steady only after it
/// was matched that many times in a row.
pub proof fn lemma_streak_is_consecutive(ids: Seq<Option<Seq<char>>>, k: int)
    requires
        0 <= k <= streak_after(None, 0, ids).1,
    ensures
        k <= ids.len(),
        forall|j: int| ids.len() - k <= j < ids.len() ==> ids[j] == streak_after(None, 0, ids).0 && (#[trigger] ids[j]) is Some,
    decreases ids.len(),
{
    if ids.len() > 0 && k > 0 {
        let p = streak_after(None, 0, ids.drop_last());
        let e = streak_after(None, 0, ids);
        assert(ids.last() is Some);
        if p.0 == ids.last() {
            lemma_streak_is_consecutive(ids.drop_last(), k - 1);
            assert forall|j: int| ids.len() - k <= j < ids.len() implies ids[j] == e.0 && (#[trigger] ids[j]) is Some by {
                if j < ids.len() - 1 {
                    assert(ids[j] == ids.drop_last()[j]);
                }
            }
        } else {
            assert(e.1 == 1);
        }
    }
}

// ---------------------------------------------------------------------------
// Capture format
// ---------------------------------------------------------------------------

/// Preferred sample rate for live speech recognition (16 kHz mono PCM).
pub const PREFERRED_RATE: u32 = 16_000;

/// A capture format that an input device supports: channel count and sample-rate range.
#[derive(Debug, Clone, Copy, PartialEq, Eq, Structural)]
pub struct CaptureRange {
    /// Number of channels.
    pub channels: u16,
    /// Lowest sample rate.
    pub min_rate: u32,
    /// Highest sample rate.
    pub max_rate: u32,
}

/// Whether a range covers the preferred rate.
pub open spec fn covers_preferred(c: CaptureRange) -> bool {
    c.min_rate <= PREFERRED_RATE && c.max_rate >= PREFERRED_RATE
}

/// The rate closest to the preferred one at or above the range's minimum, capped at its maximum.
pub open spec fn clamped_rate(c: CaptureRange) -> u32 {
    let r = if c.min_rate >= PREFERRED_RATE {
        c.min_rate
    } else {
        PREFERRED_RATE
    };
    if r <= c.max_rate {
        r
    } else {
        c.max_rate
    }
}

/// Index of the first range satisfying a test.
pub open spec fn first_index(s: Seq<CaptureRange>, p: spec_fn(CaptureRange) -> bool) -> int
    decreases s.len(),
{
    if s.len() == 0 {
        -1
    } else {
        let j = first_index(s.drop_last(), p);
        if j >= 0 {
            j
        } else if p(s.last()) {
            s.len() - 1
        } else {
            -1
        }
    }
}

/// The capture format (rate, channels) chosen from the supported ranges: mono at 16 kHz;
/// else 16 kHz with the first range's channels that covers it; else the first mono range
/// at its clamped rate; else the first range at its clamped rate; else 44.1 kHz mono.
pub open spec fn best_config(s: Seq<CaptureRange>) -> (u32, u16) {
    let mono16 = first_index(s, |c: CaptureRange| c.channels == 1 && covers_preferred(c));
    let any16 = first_index(s, |c: CaptureRange| covers_preferred(c));
    let mono = first_index(s, |c: CaptureRange| c.channels == 1);
    if mono16 >= 0 {
        (PREFERRED_RATE, 1)
    } else if any16 >= 0 {
        (PREFERRED_RATE, s[any16].channels)
    } else if mono >= 0 {
        (clamped_rate(s[mono]), 1)
    } else if s.len() > 0 {
        (clamped_rate(s[0]), s[0].channels)
    } else {
        (44_100, 1)
    }
}

/// The first range satisfying a test, by a scan.
proof fn lemma_first_index(s: Seq<CaptureRange>, p: spec_fn(CaptureRange) -> bool)
    ensures
        -1 <= first_index(s, p) < s.len(),
        first_index(s, p) >= 0 ==> p(s[first_index(s, p)]),
        forall|j: int| 0 <= j < s.len() && (first_index(s, p) < 0 || j < first_index(s, p)) ==> !p(#[trigger] s[j]),
    decreases s.len(),
{
    if s.len() > 0 {
        lemma_first_index(s.drop_last(), p);
        assert forall|j: int| 0 <= j < s.len() - 1 implies #[trigger] s[j] == s.drop_last()[j] by {}
    }
}

/// Position of the first range satisfying a test, as `first_index` defines it.
fn scan(s: &Vec<CaptureRange>, which: u8) -> (r: Option<usize>)
    requires
        which < 3,
    ensures
        match r {
            Some(i) => i < s@.len() && i as int == first_index(s@, selector(which)),
            None => first_index(s@, selector(which)) < 0,
        },
{
    let ghost p = selector(which);
    proof { lemma_first_index(s@, p); }
    let mut i: usize = 0;
    while i < s.len()
        invariant
            i <= s.len(),
            p == selector(which),
            which < 3,
            forall|j: int| 0 <= j < i ==> !p(#[trigger] s@[j]),
            -1 <= first_index(s@, p) < s@.len(),
            first_index(s@, p) >= 0 ==> p(s@[first_index(s@, p)]),
            forall|j: int| 0 <= j < s@.len() && (first_index(s@, p) < 0 || j < first_index(s@, p)) ==> !p(#[trigger] s@[j]),
        decreases s.len() - i,
    {
        let c = s[i];
        let hit = if which == 0 {
            c.channels == 1 && c.min_rate <= PREFERRED_RATE && c.max_rate >= PREFERRED_RATE
        } else if which == 1 {
            c.min_rate <= PREFERRED_RATE && c.max_rate >= PREFERRED_RATE
        } else {
            c.channels == 1
        };
        assert(hit == p(s@[i as int]));
        if hit {
            return Some(i);
        }
        i += 1;
    }
    None
}

/// The tests of `best_config`, by number.
pub open spec fn selector(which: u8) -> spec_fn(CaptureRange) -> bool {
    if which == 0 {
        |c: CaptureRange| c.channels == 1 && covers_preferred(c)
    } else if which == 1 {
        |c: CaptureRange| covers_preferred(c)
    } else {
        |c: CaptureRange| c.channels == 1
    }
}

/// The clamped rate of a range.
fn clamp_rate(c: CaptureRange) -> (r: u32)
    ensures
        r == clamped_rate(c),
{
    let r = if c.min_rate >= PREFERRED_RATE {
        c.min_rate
    } else {
        PREFERRED_RATE
    };
    if r <= c.max_rate {
        r
    } else {
        c.max_rate
    }
}

/// Selects the best supported capture format (sample rate, channels) from the ranges
/// an input device offers.
pub fn pick_best_config(configs: &Vec<CaptureRange>) -> (r: (u32, u16))
    ensures
        r == best_config(configs@),
{
    assert(selector(0) == (|c: CaptureRange| c.channels == 1 && covers_preferred(c)));
    assert(selector(1) == (|c: CaptureRange| covers_preferred(c)));
    assert(selector(2) == (|c: CaptureRange| c.channels == 1));
    if let Some(_) = scan(configs, 0) {
        return (PREFERRED_RATE, 1);
    }
    if let Some(i) = scan(configs, 1) {
        return (PREFERRED_RATE, configs[i].channels);
    }
    if let Some(i) = scan(configs, 2) {
        return (clamp_rate(configs[i]), 1);
    }
    if configs.len() > 0 {
        return (clamp_rate(configs[0]), configs[0].channels);
    }
    (44_100, 1)
}

} // verus!
