# agentic_afk

A local control plane that plans, implements, reviews and merges issue work with
coding agents. A *Plan Run* refreshes the Integration Branch, lets a planner select
Source Issues, runs the selected assignments through implementation and review in
parallel, merges what was approved one at a time, and pushes once.

`src/` is the verified library: every decision of a Plan Run, its prompts, the
formats that it reads and writes, the recovery after a restart, and what the
dashboard shows. `app/` is ordinary Rust around it: processes, files, the network,
the database and the components of the dashboard.

## How the library is laid out

- The Plan Run: `planning_driver`, `assignment_loop` and `merge_driver` are state
  machines. Each has a `start` and a `step` from a stage and an event to the next
  stage and an action. Whoever drives a machine performs the action and reports the
  event. `coordinator` holds the inputs and the seams, and orders what the parallel
  assignments gave.
- The phases: `planning_phase`, `implementation_phase`, `review_loop`, `merge_phase`,
  `push_attempt`, `plan_run_finalize`, `plan_run_status`, `plan_run`, `prompt`.
- The commands: `production`, `worktrunk`, `verify`, `abandon`, `recover`, `repair`,
  `git_summary`, `lifecycle`, `command`. Each gives the arguments of a program and
  says what its run means.
- The sandbox: `sandbox`, `codex_runner`, `boot_container_sweeper`.
- Upkeep: `in_flight_phase_tracker`, `boot_recovery_scanner`, `shutdown_coordinator`,
  `re_enable_source_issue`, `auto_replan`.
- The dashboard: `project_store`, `dashboard`, `phase_output_view`, `ui`.
- Data: `contracts`, `phase_body_format`, `problem`, `json`.
- Text: `text`, `text_parts`, `text_order`, `numerals`.

The proof functions whose names begin with `law_` state what holds of the library as
a whole.

## What is trusted

`json` hands parsing and printing to `serde_json`, and `sandbox` hashing to `sha2`.
Their results are named; besides, a digest is said to have 32 bytes. `text` gives
contracts to two functions of the standard library.
