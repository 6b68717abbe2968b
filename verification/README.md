# pdcst

A terminal podcast player whose core is verified with Verus.

- `src/` is the verified library: the UI state machine (views, list cursors,
  modals and confirmations, the status line, the search box), the keymap and
  the reaction to background events, the auto-advance task's decisions, the
  Up Next queue and its auto-enqueue rule, cache retention and its eviction
  order, the episode catalogue (which fetched episodes are new, listing
  order, row counts), feed reading (RSS with an Atom fallback, through the
  `rss` and `atom_syndication` crates; entities, emoji joiners, durations),
  OPML import (through the `opml` crate) and the outlines of an export,
  stream-to-disk decisions, and the text of the panes, footer, help and
  settings. Each public function carries a contract; the laws the library
  keeps (round trips, invariants, what a key or event may never do) are
  stated as proof functions next to the code they are about.
- `tests/` exercises the library on concrete values.
- `app/` is the program around it: command line, configuration file, the
  terminal loop and drawing (widget layout, colours, dialog frames), HTTP
  and the iTunes JSON, files, writing the OPML export, the float-valued
  player state (position, volume, speed) and the floating-point
  time-stretcher. This build has no audio output, so the player only keeps
  its state.
