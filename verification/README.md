# rider

A small text editor for source code. The editing core is written in Verus:
the functions in `src/` carry contracts, and Verus proves the code meets
them. A few small wrappers around standard-library and `dirs` calls
(`String::push`, `Rc::clone`, `Path::extension`, `Path::file_name`, and the
platform's configuration, runtime and executable directories) are marked
`external_body`: their contracts are trusted, not proved. The file system
and the font's character sizes reach the library through traits
(`FileSystem`, `CharacterSizeManager`) whose answers it takes as given; a
`ResourceLoader` names through `loads` the answers it may give, and the
resource cache hands back exactly such an answer for a name it has not
loaded before.

## Layout

- `src/` is the verified library.
  - `lexers/`: the plain-text, Rust and TOML lexers, which split a text into
    tokens whose spellings spell the text again.
  - `editor/`: the open file (its text, tokens and laid-out characters), the
    caret and its moves, typing and deleting, and the editor area with its
    scroll bars. `editor/laws.rs` states what the edits promise together.
  - `ui/`: the menu bar and its buttons, the project tree, the open-file and
    settings windows, scroll bars, and the drawing commands each widget
    produces.
  - `config/`, `themes.rs`: settings, directories, extension mapping, and
    colour themes.
  - `app_state.rs`: the application's state and how it answers clicks, keys,
    scrolling and the tasks they raise.
  - `geometry.rs`: points and rectangles, made as the window system makes them.
- `app/` is the program around the library: the window, event loop, fonts and
  images (SDL2), file access, and JSON themes. Control-O and Control-S work
  with either control key.
- `tests/` exercises the library on concrete values.
