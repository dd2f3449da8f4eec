# claustre

The workbench of a terminal program that looks after coding agents: projects, tasks
and threads on one side, the live terminals of the agents' sessions on the other, and
GitHub's issues, boards and pull requests in between.

`src/` is the library. It holds the state of the workbench and every rule about it:
what a key, a paste or the mouse does in each view and form, what is listed and in what
order, how a prompt is put together, when a message waits for an agent, when a workflow
goes on. All of it is verified with Verus. Nothing in it does any input or output: a
handler changes the state and returns an `Effect`, and whoever carries the effect out
hands the outcome back to another method of `App`.

`app/` is ordinary Rust around the library: the event loop, the conversion of terminal
events, and the performing of effects on top of the `World` trait, behind which stand
the database, the terminals, GitHub and the files.

`tests/` runs the library against an in-memory database and against the real crates
that it leans on.

## Where things are

- `text`, `text_input`, `lists`, `ranking`: text, one-line editors, lists and orders.
- `keys`, `panes`, `screen`: bytes for terminals, how panes divide the screen, and what
  an agent's screen says.
- `store`, `app`, `startup`, `refresh`, `tasks`, `review`, `board`, `board_state`: the
  records, the state, and what is listed of them.
- `actions`, `moves`, `dashboard`, `input_*`: keys and mouse, view by view.
- `launch`, `launching`, `drafts`, `messages`, `compose`, `workflow`,
  `thread_context`, `conversation`: threads and their agents.
- `settings`, `settings_editor`, `skills`, `palette`, `project_form`, `task_form`,
  `composer`: forms.
- `event_loop`, `effects`, `outcomes`, `news`, `probes`, `json`, `titles`: the loop, what is
  asked of the world, and what its answers mean.

## How contracts are written

A handler's contract is a relation between the state before, the input, the state after
and the effect: `board_step(pre, c, code, m, post, e)` says what a key of the board
does. `App::wf` is what every handler keeps. Laws that span several handlers are public
proof functions whose names begin with `law_`.
