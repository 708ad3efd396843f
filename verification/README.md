# laner_agent

A verified library for an actor-visible scripted lane agent: its deterministic
policy, the experiment bookkeeping around it (manifests, batch cursors,
operational logs, replay evidence, matched samples and tallies, fixture
populations and comparisons), the behavioral measures computed over empirical
distributions, and the team-communication, attribution and debrief reports.

Every function is written in Verus and carries a contract that Verus proves;
nothing is assumed without proof, and no outside crate is used.

## Layout

- `lane`, `simultaneous`, `leadership`, `parametric`: the parts of the lane
  game, of simultaneous team resolution, of leadership structure and of fitted
  parametric policies that the library reads, held as plain values.
- `text`, `codec`: character-level text handling (lines, `|`-separated fields,
  decimal numbers) and the `key=value` record scanner shared by every codec,
  with the lemmas that show written records read back.
- `profile`, `policy`: scripted profiles, seeds and manifests; candidate
  scoring and seeded tie resolution.
- `operational`, `batch`, `replay`: run dispositions and operational logs,
  resumable batch cursors with input fingerprints, replay and trace evidence.
- `sample`, `fixture`, `comparison`, `metrics`: matched samples, tallies,
  fixture selections and populations, frequency reports, tally comparisons and
  outlier selection.
- `semantic`, `empirical`, `measures`, `multi_model`: semantic profiles,
  diagnostic choices, empirical distributions, distance/entropy measures and
  model-family comparisons.
- `communication`, `attribution`, `debrief`: team speech acts and dialogue
  sessions, contribution attribution, and encounter debriefs.

Laws are public proof functions named `lemma_*`. For every codec, a
`lemma_*_round_trip` states that its canonical text decodes back to the value
(for any byte length within the cap), and a `lemma_*_text_reads_back` states
that this text is ASCII, fits the cap, and decodes back from any input holding
it; each `encode` also ensures that its output is ASCII and within the cap.
