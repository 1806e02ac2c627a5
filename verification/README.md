# TITAN Image: verified configuration and bookkeeping

The verified library (`src/`) holds the logic of the TITAN Image learner that
needs no tensor: how a run is configured from the command line, which guards a
configuration must pass, how runs are fingerprinted, which files a corpus
takes and in what order, how evaluation outputs are reserved and recorded and
whether an evaluation may be published, and the command line of the frozen
developmental analysis. Every function there is proved by Verus against its
contract, except a few small wrappers around std's `Path` and `String` calls,
whose contracts are trusted and say only what std documents.

Binary32 and binary64 settings are held as their IEEE-754 bit patterns and
compared by their IEEE order; reading a decimal number into those bits is the
caller's part, so each parser hands back the texts it met, and a second step
stores what the caller read.

Layout:

- `config`, `run_config`, `presets`, `cli_table`, `cli`: choices, defaults,
  presets and the command-line scan;
- `validation`, `signature`, `derived`: guards, checkpoint fingerprints and
  derived settings;
- `develop`: the analysis command line;
- `artifacts`, `comparison`, `corpus`, `benchmark`, `experiment`, `training`:
  evaluation outputs and the publication check, metrics files, corpus rules, the synthetic suite, the
  opt-in training settings with the evaluation panel, and training-loop rules;
- `fnv`, `float_bits`, `digits`, `numbers`, `text`, `paths`: the building blocks.

`app/` is the command-line program around the library: argument reading,
floating-point text, files and printing.
