# cc_dj

A voice- and gesture-driven DJ controller whose decision logic is verified with Verus.

## Layout

- `src/` — the verified library:
  - `command` — commands, the command catalog and text matching;
  - `action` — tiers, actions, the action space with its safety and cooldown checks;
  - `tier_order` — the order of tiers, by their numbers;
  - `config`, `state`, `error` — configuration, deck/mixer/session state and errors
    (real-valued quantities are kept as IEEE-754 bit patterns);
  - `control` — key validation, AppleScript text, MIDI bytes, MIDI port choice, the
    steps a bridge takes for an action, and chain pauses;
  - `auto` — Camelot-wheel compatibility, mixing strategies, the auto mixer's state
    machine, placeholder analysis seeds and transition reasons;
  - `gesture` — gesture names, gesture-to-command mapping, the trainer, the gesture
    database and the recognizer's motion window;
  - `voice` — intent processing, match-stability streaks and capture-format choice;
  - `text`, `decimal`, `assoc` — string helpers, decimal rendering/parsing and
    string-keyed tables.
- `app/` — the program around the library: YAML/JSON models, bridges to the DJ
  software (AppleScript, MIDI), the scheduler and deck controller, track-analysis
  files, similarity scoring, the voice pipeline, microphone capture and the web API.
- `tests/` — tests of the library.
