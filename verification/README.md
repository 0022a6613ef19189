# project_host

Runs projects as processes on this machine, and decides everything about it that
can be decided without touching the machine: which process starts next, what a
crash means for the others, what a project's status is, how a project is built,
what a launch does and in which order.

The library under `src/` is verified with Verus. Whatever alternates work and
decisions is a *run*: `request` says what is to be done next, `step` takes what
came of it. Whoever holds a run does the one and hands over the other until
nothing is left to do.

- `orchestration` is the state machine of one project's processes; its laws are
  in `orchestration::laws`.
- `orchestrator` starts, watches and restarts processes; the laws of a start
  are in `start::laws`, `start::teardown` and `start::scope`, those of a restart in
  `restart::laws`.
- `lifecycle` is what the user asks for: start, stop, kill, restart, quit.
- `runtime` launches and stops the application; `startup` times it.
- `runtime_plan` and `starter` turn a choice or a detection into a plan and its
  first files.
- `execute` judges what came of an install step; `probe` and `snapshot` describe
  a machine; `schema_parity` reads a schema's constraint lists.
- `text` and `ordered` are the text functions and the ordered map the rest is
  written with.

Two functions are believed rather than proved, and say so: `execute::lossy_text`
and `runtime::fresh_id`.

`app/` is the shell: it reads the machine, drives the runs and reaches the
database and the supervisors through the traits of `app/ports.rs`. `tests/` runs
the library from outside.
