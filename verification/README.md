# trueos-rads

TRUEOS RADS is a local workspace for designing TRUEOS UI2 apps: a project
model of windows and controls, a designer that edits it, starter templates,
and a generator that turns a project into a buildable app stub (blueprints,
readable UI2 layout, Rust sources, HTML/CSS, package manifest). Jobs run the
BP DIST pipeline (generate, check, build, pack, dist) and log each stage.

## Layout

- `src/` — the library, verified with Verus. Each public function states in
  its contract what it returns or changes.
  - `model`, `ui2_options` — the project model, names, slugs, handler names.
  - `designer` — palette, adding/moving/aligning controls, snapping, the
    object inspector.
  - `project_templates`, `templates`, `generator` — the starter catalog,
    the text of every generated file, and the ordered plan of files a project
    is written as.
  - `jobs`, `pipeline` — the job book (recent jobs, ordered log lines) and the
    decisions of a running job: which line to log and which stage runs next.
  - `file_store`, `ordering`, `watcher`, `env_file`, `localcoder`, `server` —
    path rules, listing order, watch rules, `.env.local` lines, the local
    coder's command plan and replies, and the logic behind the HTTP API.
  - `laws` — properties stated across functions, proved.
- `tests/` — tests of the library on concrete values.
- `app/` — the server program around the library: HTTP routes (axum), disk
  I/O, child processes, file watching and JSON (serde) copies of the library's
  types.
