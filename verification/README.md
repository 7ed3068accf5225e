# tussle_core

Inspect every keyboard shortcut on a Mac: which app uses a combo, every
binding registered on the machine, and the conflicts between them.

`src/` is the library, verified with Verus: the key-combo model and its
parser, the index that orders claimants by where they sit in the keyboard
pipeline and decides who gets a key, the readers of
`com.apple.symbolichotkeys.plist`, of per-app `NSUserKeyEquivalents` and of
the Accessibility API's answers, the capture and probe decisions, and the
text of every report. Each public function states what it returns; the
`law_*` proof functions state what holds across functions.

`app/` is the `tussle` command around it: arguments, files, the macOS
calls (Carbon, Accessibility, AppKit, event taps), JSON and tables.

`tests/` runs the library on concrete values.
