//! The decisions of the DJ software bridges: key validation and AppleScript
//! text, MIDI message bytes, MIDI port choice and the steps an action takes.

use vstd::prelude::*;
use crate::assoc::{assoc_get, assoc_lookup};
use crate::command::{clone_strings, strings_view};
use crate::config::{ActionMapping, SequenceStep, SoftwareConfig};
use crate::error::DJError;
use crate::text::{
    chars_of, contains_run, contains_str, debug_quoted, debug_text, lowercase, owned, str_eq,
    string_from_chars, to_lowercase,
};

verus! {

/// Whether a character is an ASCII letter or digit.
pub open spec fn ascii_alnum(c: char) -> bool {
    ('0' <= c && c <= '9') || ('A' <= c && c <= 'Z') || ('a' <= c && c <= 'z')
}

/// Whether a character is ASCII punctuation.
pub open spec fn ascii_punct(c: char) -> bool {
    ('!' <= c && c <= '/') || (':' <= c && c <= '@') || ('[' <= c && c <= '`') || ('{' <= c && c <= '~')
}

/// Whether a key may be handed to AppleScript: one or two characters, each an
/// ASCII letter, digit or punctuation mark.
pub open spec fn key_is_valid(k: Seq<char>) -> bool {
    0 < k.len() <= 2 && forall|i: int| 0 <= i < k.len() ==> ascii_alnum(#[trigger] k[i]) || ascii_punct(k[i])
}

/// Validates that a key string is safe for AppleScript injection.
///
/// Allows only short ASCII alphanumeric or punctuation strings to prevent
/// command injection via crafted key values.
pub fn validate_key(key: &str) -> (r: Result<(), DJError>)
    ensures
        key_is_valid(key@) ==> r is Ok,
        !key_is_valid(key@) ==> (r matches Err(DJError::ExecutionError(m)) && m@ == "Invalid key value: "@ + debug_quoted(key@)),
{
    let k = chars_of(key);
    let mut valid = k.len() > 0 && k.len() <= 2;
    let mut i: usize = 0;
    while i < k.len()
        invariant
            k@ == key@,
            i <= k.len(),
            valid == (0 < k@.len() <= 2 && forall|j: int| 0 <= j < i ==> ascii_alnum(#[trigger] k@[j]) || ascii_punct(k@[j])),
        decreases k.len() - i,
    {
        let c = k[i];
        let ok = ('0' <= c && c <= '9') || ('A' <= c && c <= 'Z') || ('a' <= c && c <= 'z') || ('!' <= c && c <= '/')
            || (':' <= c && c <= '@') || ('[' <= c && c <= '`') || ('{' <= c && c <= '~');
        valid = valid && ok;
        i += 1;
    }
    if !valid {
        let mut m = owned("Invalid key value: ");
        let d = debug_text(key);
        m.append(d.as_str());
        return Err(DJError::execution(m));
    }
    Ok(())
}

/// The escaped form of a character for a double-quoted AppleScript string.
pub open spec fn escape_char(c: char) -> Seq<char> {
    if c == '\\' {
        seq!['\\', '\\']
    } else if c == '"' {
        seq!['\\', '"']
    } else {
        seq![c]
    }
}

/// A string with every backslash doubled and every double quote preceded by a backslash.
pub open spec fn applescript_escaped(s: Seq<char>) -> Seq<char>
    decreases s.len(),
{
    if s.len() == 0 {
        s
    } else {
        applescript_escaped(s.drop_last()) + escape_char(s.last())
    }
}

/// How AppleScript reads the inside of a double-quoted string: a backslash takes the
/// next character literally.
pub open spec fn applescript_unescaped(t: Seq<char>) -> Seq<char>
    decreases t.len(),
{
    if t.len() == 0 {
        t
    } else if t[0] == '\\' && t.len() >= 2 {
        seq![t[1]] + applescript_unescaped(t.skip(2))
    } else {
        seq![t[0]] + applescript_unescaped(t.skip(1))
    }
}

/// Escaping works character by character from the front as well.
proof fn lemma_escaped_front(s: Seq<char>)
    requires
        s.len() > 0,
    ensures
        applescript_escaped(s) == escape_char(s[0]) + applescript_escaped(s.drop_first()),
    decreases s.len(),
{
    if s.len() == 1 {
        assert(s.drop_last().len() == 0);
        assert(applescript_escaped(s.drop_last()) =~= Seq::<char>::empty());
        assert(s.last() == s[0]);
        assert(s.drop_first().len() == 0);
        assert(applescript_escaped(s.drop_first()) =~= Seq::<char>::empty());
        assert(applescript_escaped(s) =~= escape_char(s[0]));
    } else {
        lemma_escaped_front(s.drop_last());
        assert(s.drop_last()[0] == s[0]);
        assert(s.drop_last().drop_first() =~= s.drop_first().drop_last());
        assert(s.drop_first().last() == s.last());
        assert(applescript_escaped(s) =~= escape_char(s[0]) + applescript_escaped(s.drop_first()));
    }
}

/// Reading an escaped string back as AppleScript does gives the string itself: the
/// escaped text cannot end the literal early or inject anything.
pub proof fn lemma_escape_roundtrip(s: Seq<char>)
    ensures
        applescript_unescaped(applescript_escaped(s)) == s,
    decreases s.len(),
{
    if s.len() == 0 {
        assert(applescript_escaped(s) =~= Seq::<char>::empty());
    } else {
        lemma_escaped_front(s);
        lemma_escape_roundtrip(s.drop_first());
        let e = escape_char(s[0]);
        let rest = applescript_escaped(s.drop_first());
        let t = e + rest;
        if s[0] == '\\' || s[0] == '"' {
            assert(t[0] == '\\' && t.len() >= 2 && t[1] == s[0]);
            assert(t.skip(2) =~= rest);
        } else {
            assert(t[0] == s[0]);
            assert(t.skip(1) =~= rest);
        }
        assert(applescript_unescaped(t) =~= seq![s[0]] + s.drop_first());
        assert(seq![s[0]] + s.drop_first() =~= s);
    }
}

/// Escapes double-quote characters in a string for safe AppleScript embedding.
pub fn escape_applescript(s: &str) -> (r: String)
    ensures
        r@ == applescript_escaped(s@),
{
    let v = chars_of(s);
    let mut out: Vec<char> = Vec::new();
    for i in 0..v.len()
        invariant
            v@ == s@,
            out@ == applescript_escaped(s@.take(i as int)),
    {
        let c = v[i];
        assert(s@.take(i + 1).drop_last() =~= s@.take(i as int));
        if c == '\\' {
            out.push('\\');
            out.push('\\');
        } else if c == '"' {
            out.push('\\');
            out.push('"');
        } else {
            out.push(c);
        }
        assert(out@ =~= applescript_escaped(s@.take(i + 1)));
    }
    assert(s@.take(v.len() as int) =~= s@);
    string_from_chars(out)
}

/// One thing a bridge does in the DJ software for an action.
#[derive(Debug, Clone)]
pub enum BridgeStep {
    /// Press a key with modifiers.
    Key {
        /// The key.
        key: String,
        /// Modifier names.
        modifiers: Vec<String>,
    },
    /// Wait before the next step (ms).
    Pause {
        /// Milliseconds to wait.
        ms: u64,
    },
    /// Send a MIDI Note On message.
    Midi {
        /// MIDI channel.
        channel: u8,
        /// Note number.
        note: u8,
        /// Velocity.
        velocity: u8,
    },
}

/// A bridge step as plain values.
pub enum BridgeStepView {
    /// Press a key with modifiers.
    Key { key: Seq<char>, modifiers: Seq<Seq<char>> },
    /// Wait (ms).
    Pause { ms: u64 },
    /// Send a MIDI Note On message.
    Midi { channel: u8, note: u8, velocity: u8 },
}

impl View for BridgeStep {
    type V = BridgeStepView;

    open spec fn view(&self) -> BridgeStepView {
        match self {
            BridgeStep::Key { key, modifiers } => BridgeStepView::Key { key: key@, modifiers: strings_view(modifiers@) },
            BridgeStep::Pause { ms } => BridgeStepView::Pause { ms: *ms },
            BridgeStep::Midi { channel, note, velocity } => BridgeStepView::Midi {
                channel: *channel,
                note: *note,
                velocity: *velocity,
            },
        }
    }
}

/// The views of a sequence of bridge steps.
pub open spec fn steps_view(v: Seq<BridgeStep>) -> Seq<BridgeStepView> {
    v.map_values(|s: BridgeStep| s@)
}

/// The steps of one step of a key sequence: the key press, then the pause if it has one.
pub open spec fn sequence_step_steps(s: SequenceStep) -> Seq<BridgeStepView> {
    seq![BridgeStepView::Key { key: s.key@, modifiers: strings_view(s.modifiers@) }] + if s.delay_ms > 0 {
        seq![BridgeStepView::Pause { ms: s.delay_ms as u64 }]
    } else {
        Seq::empty()
    }
}

/// The steps of a key sequence, in order.
pub open spec fn sequence_steps(steps: Seq<SequenceStep>) -> Seq<BridgeStepView>
    decreases steps.len(),
{
    if steps.len() == 0 {
        Seq::empty()
    } else {
        sequence_steps(steps.drop_last()) + sequence_step_steps(steps.last())
    }
}

/// The steps that carry out one action mapping.
pub open spec fn mapping_steps(m: ActionMapping) -> Seq<BridgeStepView> {
    match m {
        ActionMapping::Key { key, modifiers } => seq![BridgeStepView::Key { key: key@, modifiers: strings_view(modifiers@) }],
        ActionMapping::Sequence { steps } => sequence_steps(steps@),
        ActionMapping::Midi { channel, note, velocity } => seq![BridgeStepView::Midi { channel, note, velocity }],
    }
}

/// The steps a bridge takes to execute the action named `name`: none in simulation mode,
/// none without a configuration or a mapping for the name, else those of its mapping.
pub open spec fn planned_steps(config: Option<SoftwareConfig>, simulation: bool, name: Seq<char>) -> Seq<BridgeStepView> {
    if simulation {
        Seq::empty()
    } else {
        match config {
            None => Seq::empty(),
            Some(c) => match assoc_lookup(c.map@, name) {
                None => Seq::empty(),
                Some(m) => mapping_steps(m),
            },
        }
    }
}

/// The steps of a key sequence.
fn plan_sequence(steps: &Vec<SequenceStep>) -> (r: Vec<BridgeStep>)
    ensures
        steps_view(r@) == sequence_steps(steps@),
{
    let mut r: Vec<BridgeStep> = Vec::new();
    for i in 0..steps.len()
        invariant
            steps_view(r@) == sequence_steps(steps@.take(i as int)),
    {
        let step = &steps[i];
        let ghost before = r@;
        r.push(BridgeStep::Key { key: step.key.clone(), modifiers: clone_strings(&step.modifiers) });
        if step.delay_ms > 0 {
            r.push(BridgeStep::Pause { ms: step.delay_ms as u64 });
        }
        assert(steps@.take(i + 1).drop_last() =~= steps@.take(i as int));
        assert(steps_view(r@) =~= steps_view(before) + sequence_step_steps(steps@[i as int]));
    }
    assert(steps@.take(steps.len() as int) =~= steps@);
    r
}

/// The steps that execute the action named `action_name`: what a bridge does in the
/// DJ software, in order, stopping at the first step that fails.
pub fn plan_execute(config: &Option<SoftwareConfig>, simulation: bool, action_name: &str) -> (r: Vec<BridgeStep>)
    ensures
        steps_view(r@) == planned_steps(*config, simulation, action_name@),
{
    let mut r: Vec<BridgeStep> = Vec::new();
    if simulation {
        assert(steps_view(r@) =~= Seq::<BridgeStepView>::empty());
        return r;
    }
    match config {
        None => {
            assert(steps_view(r@) =~= Seq::<BridgeStepView>::empty());
        },
        Some(c) => match assoc_get(&c.map, action_name) {
            None => {
                assert(steps_view(r@) =~= Seq::<BridgeStepView>::empty());
            },
            Some(m) => match m {
                ActionMapping::Key { key, modifiers } => {
                    r.push(BridgeStep::Key { key: key.clone(), modifiers: clone_strings(modifiers) });
                    assert(steps_view(r@) =~= mapping_steps(*m));
                },
                ActionMapping::Sequence { steps } => {
                    r = plan_sequence(steps);
                },
                ActionMapping::Midi { channel, note, velocity } => {
                    r.push(BridgeStep::Midi { channel: *channel, note: *note, velocity: *velocity });
                    assert(steps_view(r@) =~= mapping_steps(*m));
                },
            },
        },
    }
    r
}

/// The AppleScript modifier phrase for a lower-cased modifier name, if it names one.
pub open spec fn modifier_phrase(m: Seq<char>) -> Option<Seq<char>> {
    if m == "cmd"@ || m == "command"@ {
        Some("command down"@)
    } else if m == "ctrl"@ || m == "control"@ {
        Some("control down"@)
    } else if m == "alt"@ || m == "option"@ {
        Some("option down"@)
    } else if m == "shift"@ {
        Some("shift down"@)
    } else {
        None
    }
}

/// The `using` clause for modifier names: the phrases of those it knows, after
/// lower-casing, joined by ", ", in order; the others are skipped.
pub open spec fn using_clause_of(mods: Seq<Seq<char>>) -> Seq<char>
    decreases mods.len(),
{
    if mods.len() == 0 {
        Seq::empty()
    } else {
        let prev = using_clause_of(mods.drop_last());
        match modifier_phrase(lowercase(mods.last())) {
            None => prev,
            Some(p) => if prev.len() == 0 {
                p
            } else {
                prev + ", "@ + p
            },
        }
    }
}

/// The AppleScript line that types `key` with the modifiers of `using`.
pub open spec fn keystroke_line(key: Seq<char>, using: Seq<char>) -> Seq<char> {
    if using.len() == 0 {
        "tell application \"System Events\" to keystroke \""@ + key + "\""@
    } else {
        "tell application \"System Events\" to keystroke \""@ + key + "\" using {"@ + using + "}"@
    }
}

/// The AppleScript modifier phrase for a modifier name, compared after lower-casing.
pub fn modifier_clause(modifier: &str) -> (r: Option<&'static str>)
    ensures
        match r {
            Some(p) => modifier_phrase(lowercase(modifier@)) == Some(p@),
            None => modifier_phrase(lowercase(modifier@)) is None,
        },
{
    let m = to_lowercase(modifier);
    let m = m.as_str();
    if str_eq(m, "cmd") || str_eq(m, "command") {
        Some("command down")
    } else if str_eq(m, "ctrl") || str_eq(m, "control") {
        Some("control down")
    } else if str_eq(m, "alt") || str_eq(m, "option") {
        Some("option down")
    } else if str_eq(m, "shift") {
        Some("shift down")
    } else {
        None
    }
}

/// The `using` clause of a keystroke for the given modifier names.
pub fn using_clause(modifiers: &Vec<String>) -> (r: String)
    ensures
        r@ == using_clause_of(strings_view(modifiers@)),
{
    let mut r = String::new();
    for i in 0..modifiers.len()
        invariant
            r@ == using_clause_of(strings_view(modifiers@.take(i as int))),
    {
        let ghost prev = r@;
        assert(strings_view(modifiers@.take(i + 1)).drop_last() =~= strings_view(modifiers@.take(i as int)));
        assert(strings_view(modifiers@.take(i + 1)).last() == modifiers@[i as int]@);
        match modifier_clause(modifiers[i].as_str()) {
            None => {},
            Some(p) => {
                if !r.as_str().is_empty() {
                    r.append(", ");
                }
                r.append(p);
            },
        }
        assert(r@ =~= using_clause_of(strings_view(modifiers@.take(i + 1))));
    }
    assert(modifiers@.take(modifiers.len() as int) =~= modifiers@);
    r
}

/// The AppleScript line that types `key` with the modifiers of `using`.
pub fn keystroke_script_line(key: &str, using: &str) -> (r: String)
    ensures
        r@ == keystroke_line(key@, using@),
{
    let mut r = owned("tell application \"System Events\" to keystroke \"");
    r.append(key);
    if using.is_empty() {
        r.append("\"");
    } else {
        r.append("\" using {");
        r.append(using);
        r.append("}");
    }
    r
}

/// The AppleScript that brings Rekordbox to the front and types `key` with the given
/// modifiers: the key is validated first, then lower-cased and escaped.
pub fn rekordbox_key_script(key: &str, modifiers: &Vec<String>) -> (r: Result<String, DJError>)
    ensures
        !key_is_valid(key@) ==> (r matches Err(DJError::ExecutionError(m)) && m@ == "Invalid key value: "@ + debug_quoted(key@)),
        key_is_valid(key@) ==> (r matches Ok(s) && s@ == "tell application \"rekordbox\" to activate\n"@ + keystroke_line(
            applescript_escaped(lowercase(key@)),
            using_clause_of(strings_view(modifiers@)),
        )),
{
    match validate_key(key) {
        Err(e) => Err(e),
        Ok(()) => {
            let using = using_clause(modifiers);
            let lower = to_lowercase(key);
            let safe_key = escape_applescript(lower.as_str());
            let line = keystroke_script_line(safe_key.as_str(), using.as_str());
            let mut script = owned("tell application \"rekordbox\" to activate\n");
            script.append(line.as_str());
            Ok(script)
        },
    }
}

/// The AppleScript that types `key` with the given modifiers in Serato: the key is
/// validated first, then lower-cased and escaped.
pub fn serato_key_script(key: &str, modifiers: &Vec<String>) -> (r: Result<String, DJError>)
    ensures
        !key_is_valid(key@) ==> (r matches Err(DJError::ExecutionError(m)) && m@ == "Invalid key value: "@ + debug_quoted(key@)),
        key_is_valid(key@) ==> (r matches Ok(s) && s@ == keystroke_line(
            applescript_escaped(lowercase(key@)),
            using_clause_of(strings_view(modifiers@)),
        )),
{
    match validate_key(key) {
        Err(e) => Err(e),
        Ok(()) => {
            let using = using_clause(modifiers);
            let lower = to_lowercase(key);
            let safe_key = escape_applescript(lower.as_str());
            Ok(keystroke_script_line(safe_key.as_str(), using.as_str()))
        },
    }
}

/// The bytes of a MIDI Note On message: status `0x90` with the channel's low four
/// bits, then the note and the velocity, each cut to seven bits.
pub fn midi_note_on(channel: u8, note: u8, velocity: u8) -> (r: [u8; 3])
    ensures
        r@ == seq![0x90u8 | (channel & 0x0F), note & 0x7F, velocity & 0x7F],
        r@[0] == 0x90 + channel % 16,
        r@[1] == note % 128,
        r@[2] == velocity % 128,
{
    let status: u8 = 0x90 | (channel & 0x0F);
    assert(0x90u8 | (channel & 0x0F) == 0x90 + channel % 16) by (bit_vector);
    assert(note & 0x7F == note % 128) by (bit_vector);
    assert(velocity & 0x7F == velocity % 128) by (bit_vector);
    let r = [status, note & 0x7F, velocity & 0x7F];
    assert(r@ =~= seq![0x90u8 | (channel & 0x0F), note & 0x7F, velocity & 0x7F]);
    r
}

/// Whether a port name, lower-cased, contains `needle`.
pub open spec fn port_matches(name: Option<String>, needle: Seq<char>) -> bool {
    name matches Some(n) && contains_run(lowercase(n@), needle)
}

/// Chooses the MIDI port to connect to, given the ports' names (`None` where a name
/// could not be read): the first whose lower-cased name contains `needle`, else the
/// first port; `None` when there is no port.
pub fn select_midi_port(names: &Vec<Option<String>>, needle: &str) -> (r: Option<usize>)
    ensures
        names@.len() == 0 <==> r is None,
        r matches Some(i) ==> i < names@.len() && (if exists|j: int| 0 <= j < names@.len() && port_matches(#[trigger] names@[j], needle@) {
            port_matches(names@[i as int], needle@) && forall|j: int| 0 <= j < i ==> !port_matches(#[trigger] names@[j], needle@)
        } else {
            i == 0
        }),
{
    if names.len() == 0 {
        return None;
    }
    let mut i: usize = 0;
    while i < names.len()
        invariant
            i <= names.len(),
            forall|j: int| 0 <= j < i ==> !port_matches(#[trigger] names@[j], needle@),
        decreases names.len() - i,
    {
        let found = match &names[i] {
            Some(n) => {
                let lower = to_lowercase(n.as_str());
                contains_str(lower.as_str(), needle)
            },
            None => false,
        };
        if found {
            return Some(i);
        }
        i += 1;
    }
    Some(0)
}

/// Executor for action chains: runs a list of actions one after another, pausing
/// between them.
#[derive(Debug, Clone, Copy)]
pub struct ChainExecutor {
    /// Delay between actions in a chain (ms).
    inter_action_delay_ms: u64,
}

impl ChainExecutor {
    /// The delay between two actions of a chain (ms).
    pub closed spec fn delay(&self) -> u64 {
        self.inter_action_delay_ms
    }

    /// Creates a new chain executor, pausing 50 ms between actions.
    pub fn new() -> (r: Self)
        ensures
            r.delay() == 50,
    {
        ChainExecutor { inter_action_delay_ms: 50 }
    }

    /// Sets the inter-action delay.
    pub fn with_delay(self, delay_ms: u64) -> (r: Self)
        ensures
            r.delay() == delay_ms,
    {
        ChainExecutor { inter_action_delay_ms: delay_ms }
    }

    /// The inter-action delay (ms).
    pub fn delay_ms(&self) -> (r: u64)
        ensures
            r == self.delay(),
    {
        self.inter_action_delay_ms
    }

    /// The pause to take after the action at `index` of a chain of `count` actions:
    /// the delay, except after the last action or when the delay is zero.
    pub fn pause_after(&self, index: usize, count: usize) -> (r: Option<u64>)
        ensures
            r == (if index + 1 < count && self.delay() > 0 {
                Some(self.delay())
            } else {
                None::<u64>
            }),
    {
        if index < count && index < count - 1 && self.inter_action_delay_ms > 0 {
            Some(self.inter_action_delay_ms)
        } else {
            None
        }
    }
}

impl Default for ChainExecutor {
    fn default() -> (r: Self)
        ensures
            r.delay() == 50,
    {
        ChainExecutor::new()
    }
}

} // verus!
