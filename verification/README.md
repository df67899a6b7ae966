# majjit

A terminal front end for the Jujutsu (`jj`) version control system. The
library in `src/` holds its logic, verified with Verus; `app/` is the program
around it: the terminal, the event loop, drawing, and the `jj` and editor
processes.

## Library modules

- `shell_out`: the `jj` command lines, with a contract for each constructor,
  and what a finished process gives (decoded output or an error).
- `command_tree`: the key sequences and the actions they reach, and the help
  text laid out in columns.
- `keys`, `message`: keys, mouse actions and the messages they ask for.
- `model`: the state between key presses (log list and selection, saved
  selection, command queue, info area) and navigation, queueing, refresh.
- `prompt`: the text prompt and its fuzzy finder, and what a submitted value
  does.
- `actions`: the `jj` commands the bindings ask for.
- `listing`: the listings that fill the finder, and how their output is read.
- `update`: what a key press does, and what each message does to the model,
  with what is left for the program (a listing to fetch first, a reload, a
  file to open).
- `layout`: the header, the height of the bottom area, the finder's window and
  the highlighted matches.
- `binding_order`: a proof that the binding table's key sequences are in the
  order that building the command tree keeps.
- `ansi`: which escape sequences of a command's terminal output are dropped.
- `fuzzy`, `styled`, `text`: the finder's state, styled lines, and string
  helpers.

Each module states its contracts over plain views (`Seq`, `Option`, the
`...View` types), and the laws that relate several calls are public proof
functions named `lemma_...`.
