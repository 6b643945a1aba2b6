# patternsaver

The checked rules of the PatternSaver service, verified with Verus.

- `src/domain/patterns/`: the values a pattern is made of (author, title,
  efx / notes, knob settings, step numbers, notes, waveforms, stems, times,
  devices) and the sequencer data of generic patterns. Each value type keeps
  the rule it was parsed under as a type invariant.
- `src/routes/`: how a submitted TB-303 pattern is checked (first failure
  wins), what is stored for it, and how login, activation and pattern errors
  are answered.
- `src/text.rs`: Unicode white space, grapheme counting (through the
  `unicode-segmentation` crate), decimal rendering and string comparison.
- `src/startup.rs`: the message given for malformed JSON bodies.
- `app/`: the HTTP and database side (actix-web, sqlx, serde), unverified.
