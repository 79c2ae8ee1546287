# codebase-context-graph, verified

Scans a project, parses its JavaScript, TypeScript, Python, Bash and Rust files
with Tree-sitter, and records files, modules, top-level functions and classes as
a graph; a small line-based query server answers questions about the graph.

- `src/` is the library, verified with Verus: choosing and recording files
  (`scanner`), settings and file locations (`config`), graph building and
  enrichment (`parser`, `indexer`), the stored records (`db`), the text tables
  answers carry (`serialization`), the query server's decisions (`server`),
  tool handlers (`tools`), the desktop app's state (`gui`) and the command line
  (`cli`).
- `app/` is the command-line program around it: walking folders, reading
  files, SQLite, JSON files, standard input and output.
- `tests/` runs the library on concrete inputs.
