# hostcall

A host for WebAssembly modules: modules are loaded under names (loading a
name again replaces its module, a "hot update"), their functions are called
from an interactive prompt, and an HTTP server lets modules answer requests.
Modules call back into the host through a table of named host functions.

Layout:

- `src/` — the verified library (Verus):
  - `registry.rs` — a table of named entries, modelled as a finite map;
  - `modules.rs` — loading, unloading, listing and calling modules;
  - `host.rs` — the host functions that modules may call;
  - `guests/` — the logic of the bundled modules (module1, module_A, module_home);
  - `http_server.rs` — routing of HTTP requests to modules;
  - `cli.rs` — the prompt's commands and what each does;
  - `json.rs` — JSON texts, read and written by serde_json;
  - `text.rs` — decimal numerals, byte prefixes, UTF-8 facts.
- `app/` — the program: the prompt loop, the TCP server, and wasmtime.
- `tests/` — tests of the library.
