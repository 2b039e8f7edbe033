# baca

A client library for BaCa, the online judge of the Jagiellonian University, with
its behaviour stated in contracts and proved with Verus, and the `baca`
command-line program around it.

## Layout

- `src/` — the verified library:
  - `text.rs`, `number.rs`: character sequences, splitting and joining, and the
    decimal syntax that std's integer and float parsers accept;
  - `parse/`: decoding the server's GWT-RPC replies into values, and reading tasks,
    a task's language, a submit's details and a submit's entry out of them;
  - `model/`: languages, statuses, tasks, submits and lists of submits;
  - `api/`: the server's constants, request payloads, and what each reply means;
  - `command/`: the decisions of each command (`init`, `refresh`, `log`, `last`,
    `details`, `tasks`, `submit`);
  - `workspace/`: the connection settings, cutting `main` out of a source file,
    replacing non-ASCII letters, and the outcome of editing a configuration;
  - `logging.rs`, `update.rs`, `error.rs`.
- `tests/` — tests of the library on concrete values.
- `app/` — the program: the command line, the `.baca` directory, HTTP requests,
  prompts and coloured output.

The public proof functions named `law_*` state properties that hold across
functions or for all inputs.

## What the program cannot do yet

The protocol this client knows covers logging in, a submit's details and the list
of submits as raw text. It has no request for the list of tasks or for the
languages a task accepts, no reader for the list of submits, and no way to make
zip archives. So `tasks`, `log`, `last` and `submit` end with an error saying
which of these is missing; `init`, `refresh`, `details`, `config`, `clear` and
`submit config|clear` work.
