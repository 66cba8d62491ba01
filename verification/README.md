# copy_prog

`copy_prog` gathers the source files of a directory tree (a monorepo, say)
into one text file: each file's relative path on a line, its content after
it, and a configurable number of empty lines between files. It can be driven
from the command line or through an interactive, translated (Russian,
English, Chinese) menu, and it remembers its settings between runs.

Layout:

- `src/` is the verified library, checked with Verus:
  - `i18n.rs`: languages, messages, their texts, reading language names;
  - `text.rs`: character-level string operations (trimming, parsing and
    printing numbers, replacing, ordering);
  - `paths.rs`: relative paths for display, component prefixes, extensions;
  - `filter.rs`: the per-entry decision of the directory walk (system
    directories, exclusions, included directories, extensions) and the stable
    ordering of the listing;
  - `config.rs`: the settings, their defaults, their edits, and the
    command-line options;
  - `menu.rs`: the interactive menu as a state machine;
  - `output.rs`: the text written for each file and what the preview shows;
  - `laws.rs`: properties that span the operations above.
- `app/` is the program around it: argument parsing, the settings file, the
  directory walk, reading and writing files, the console.
- `tests/` exercises the library on concrete values.
